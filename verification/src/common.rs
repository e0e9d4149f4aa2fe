use vstd::prelude::*;

use crate::metrizable::Metrizable;

verus! {

/// An ordered cyclic tour over nodes of type `T`: a Hamiltonian cycle,
/// where the node after the last is the first. Moves only reorder the
/// nodes, never insert, remove or duplicate them.
#[derive(Clone, Debug, PartialEq)]
pub struct Path<T> {
    pub path: Vec<T>,
}

impl<T> View for Path<T> {
    type V = Seq<T>;

    open spec fn view(&self) -> Seq<T> {
        self.path@
    }
}

/// Sum of the cyclic edge costs of the first `k` edges of `s`:
/// the edges leaving positions `0, 1, ..., k - 1`, each toward the
/// cyclically next position.
pub open spec fn tour_len_upto<T: Metrizable>(s: Seq<T>, k: int) -> nat
    decreases k,
{
    if k <= 0 {
        0
    } else {
        tour_len_upto(s, k - 1) + s[k - 1].dist(s[k % (s.len() as int)])
    }
}

/// Total cyclic length of a tour: the sum of the distances over all
/// cyclically adjacent pairs. Zero for the empty tour.
pub open spec fn tour_len<T: Metrizable>(s: Seq<T>) -> nat {
    tour_len_upto(s, s.len() as int)
}

impl<T: Metrizable + Copy> Path<T> {
    /// Total cyclic length of this tour, recomputed from scratch.
    pub fn path_len(&self) -> (r: u128)
        ensures
            r == tour_len(self@),
    {
        let n = self.path.len();
        if n == 0 {
            return 0;
        }
        let mut acc: u128 = 0;
        let mut k: usize = 0;
        while k < n
            invariant
                k <= n,
                n == self@.len(),
                n >= 1,
                acc == tour_len_upto(self@, k as int),
                acc <= (k as int) * (u64::MAX as int),
            decreases n - k,
        {
            let a = self.path[k];
            let b = self.path[(k + 1) % n];
            let d = a.distance(&b);
            proof {
                assert((k as int) * (u64::MAX as int) + (u64::MAX as int) <= (u64::MAX as int)
                    * (u64::MAX as int) + (u64::MAX as int)) by (nonlinear_arith)
                    requires
                        0 <= k as int <= u64::MAX as int - 1,
                ;
                assert(((k + 1) as int) * (u64::MAX as int) == (k as int) * (u64::MAX as int) + (
                u64::MAX as int)) by (nonlinear_arith);
            }
            acc = acc + d as u128;
            k = k + 1;
        }
        acc
    }
}

} // verus!

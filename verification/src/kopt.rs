use rand::RngExt;
use vstd::arithmetic::div_mod::{lemma_add_mod_noop, lemma_add_mod_noop_right};
use vstd::pervasive::unreached;
use vstd::prelude::*;
use vstd::seq_lib::lemma_multiset_commutative;

use crate::clock::{duration_exceeds, elapsed_since, instant_now};
use crate::common::{tour_len, Path};
use crate::metrizable::Metrizable;

verus! {

/// The segment-reversal transform underlying the 2-opt move: the tour with
/// the sub-sequence at positions `[i, j)` reversed and the rest unchanged.
pub open spec fn reversed_segment<T>(s: Seq<T>, i: int, j: int) -> Seq<T> {
    s.subrange(0, i) + s.subrange(i, j).reverse() + s.subrange(j, s.len() as int)
}

/// A 2-opt move at `(i, j)` is accepted exactly when the reversed candidate
/// tour is strictly shorter than the tour it came from.
pub open spec fn two_opt_accepts<T: Metrizable>(s: Seq<T>, i: int, j: int) -> bool {
    tour_len(reversed_segment(s, i, j)) < tour_len(s)
}

/// Reversing the same segment is a permutation: it keeps the node multiset.
pub proof fn lemma_reversed_segment_multiset<T>(s: Seq<T>, i: int, j: int)
    requires
        0 <= i <= j <= s.len(),
    ensures
        reversed_segment(s, i, j).to_multiset() == s.to_multiset(),
{
    let pre = s.subrange(0, i);
    let mid = s.subrange(i, j);
    let suf = s.subrange(j, s.len() as int);
    lemma_multiset_commutative(pre + mid.reverse(), suf);
    lemma_multiset_commutative(pre, mid.reverse());
    mid.lemma_reverse_to_multiset();
    lemma_multiset_commutative(pre + mid, suf);
    lemma_multiset_commutative(pre, mid);
    assert(pre + mid + suf =~= s);
    assert(reversed_segment(s, i, j).to_multiset() =~= s.to_multiset());
}

/// Reversing the same segment twice restores the original ordering exactly.
pub proof fn lemma_reversed_segment_involutive<T>(s: Seq<T>, i: int, j: int)
    requires
        0 <= i <= j <= s.len(),
    ensures
        reversed_segment(reversed_segment(s, i, j), i, j) == s,
{
    let r1 = reversed_segment(s, i, j);
    assert(r1.len() == s.len());
    assert(forall|t: int|
        0 <= t < s.len() ==> r1[t] == (if i <= t < j {
            s[j - 1 - (t - i)]
        } else {
            s[t]
        }));
    assert(reversed_segment(r1, i, j) =~= s);
}

/// A copy of `path` with the positions `[i, j)` reversed and the rest kept.
pub fn reversed_copy<T: Copy>(path: &Vec<T>, i: usize, j: usize) -> (r: Vec<T>)
    requires
        i <= j <= path@.len(),
    ensures
        r@ == reversed_segment(path@, i as int, j as int),
{
    let n = path.len();
    let mut r: Vec<T> = Vec::new();
    let mut t: usize = 0;
    while t < i
        invariant
            t <= i <= j <= n,
            n == path@.len(),
            r@ == path@.subrange(0, t as int),
        decreases i - t,
    {
        r.push(path[t]);
        proof {
            assert(path@.subrange(0, t + 1 as int) =~= path@.subrange(0, t as int).push(
                path@[t as int],
            ));
        }
        t = t + 1;
    }
    let mut m: usize = 0;
    while m < j - i
        invariant
            m <= j - i,
            i <= j <= n,
            n == path@.len(),
            r@ == path@.subrange(0, i as int) + path@.subrange(i as int, j as int).reverse(
            ).subrange(0, m as int),
        decreases j - i - m,
    {
        r.push(path[j - 1 - m]);
        proof {
            let rev = path@.subrange(i as int, j as int).reverse();
            assert(rev[m as int] == path@[j - 1 - m as int]);
            assert(rev.subrange(0, m + 1 as int) =~= rev.subrange(0, m as int).push(
                rev[m as int],
            ));
        }
        m = m + 1;
    }
    proof {
        let rev = path@.subrange(i as int, j as int).reverse();
        assert(rev.subrange(0, rev.len() as int) =~= rev);
    }
    let mut t: usize = j;
    while t < n
        invariant
            j <= t <= n,
            i <= j,
            n == path@.len(),
            r@ == path@.subrange(0, i as int) + path@.subrange(i as int, j as int).reverse()
                + path@.subrange(j as int, t as int),
        decreases n - t,
    {
        r.push(path[t]);
        proof {
            assert(path@.subrange(j as int, t + 1 as int) =~= path@.subrange(
                j as int,
                t as int,
            ).push(path@[t as int]));
        }
        t = t + 1;
    }
    r
}

/// The 2-opt move: propose reversing the segment `[i, j)`; if the candidate
/// tour is strictly shorter, commit it and return the (positive) length gain,
/// else leave the tour untouched and return `None`. The full cyclic length of
/// both tours is recomputed from scratch for the comparison.
pub fn two_opt<T: Metrizable + Copy>(i: usize, j: usize, path: &mut Path<T>) -> (r: Option<u128>)
    requires
        i <= j <= old(path)@.len(),
    ensures
        final(path)@.to_multiset() == old(path)@.to_multiset(),
        final(path)@.len() == old(path)@.len(),
        tour_len(final(path)@) <= tour_len(old(path)@),
        two_opt_accepts(old(path)@, i as int, j as int) ==> final(path)@ == reversed_segment(
            old(path)@,
            i as int,
            j as int,
        ) && r == Some((tour_len(old(path)@) - tour_len(final(path)@)) as u128),
        !two_opt_accepts(old(path)@, i as int, j as int) ==> final(path)@ == old(path)@ && r
            == None::<u128>,
        r matches Some(d) ==> d > 0 && tour_len(final(path)@) + d == tour_len(old(path)@),
{
    let cand_vec = reversed_copy(&path.path, i, j);
    let cand = Path { path: cand_vec };
    let prev_len = path.path_len();
    let post_len = cand.path_len();
    if post_len < prev_len {
        proof {
            lemma_reversed_segment_multiset(old(path)@, i as int, j as int);
        }
        path.path = cand.path;
        Some(prev_len - post_len)
    } else {
        None
    }
}

/// Taking a position modulo the length before or after stepping forward by
/// one lands on the same cyclic position.
proof fn lemma_mod_succ(x: int, n: int)
    requires
        0 < n,
        0 <= x,
    ensures
        (x % n + 1) % n == (x + 1) % n,
{
    lemma_add_mod_noop_right(x % n, 1, n);
    lemma_add_mod_noop(x, 1, n);
}

/// The tour node at cyclic position `t`: positions wrap around the end.
pub open spec fn node_at<T>(s: Seq<T>, t: int) -> T {
    s[t % (s.len() as int)]
}

/// Cost of the original wiring at `(i, j, k)`: the sum of the three removed
/// edges `(a, b)`, `(c, d)`, `(e, f)` at cyclic positions `i, i + 1, j,
/// j + 1, k, k + 1`.
pub open spec fn three_opt_d0<T: Metrizable>(s: Seq<T>, i: int, j: int, k: int) -> nat {
    node_at(s, i).dist(node_at(s, i + 1)) + node_at(s, j).dist(node_at(s, j + 1)) + node_at(
        s,
        k,
    ).dist(node_at(s, k + 1))
}

/// Reconnection cost when the segment `[i, j)` is reversed.
pub open spec fn three_opt_d1<T: Metrizable>(s: Seq<T>, i: int, j: int, k: int) -> nat {
    node_at(s, i).dist(node_at(s, j)) + node_at(s, i + 1).dist(node_at(s, j + 1)) + node_at(
        s,
        k,
    ).dist(node_at(s, k + 1))
}

/// Reconnection cost when the segment `[j, k)` is reversed.
pub open spec fn three_opt_d2<T: Metrizable>(s: Seq<T>, i: int, j: int, k: int) -> nat {
    node_at(s, i).dist(node_at(s, i + 1)) + node_at(s, j).dist(node_at(s, k)) + node_at(
        s,
        j + 1,
    ).dist(node_at(s, k + 1))
}

/// Reconnection cost when the segments `[i, j)` and `[j, k)` trade places
/// without reversal.
pub open spec fn three_opt_d3<T: Metrizable>(s: Seq<T>, i: int, j: int, k: int) -> nat {
    node_at(s, i).dist(node_at(s, j + 1)) + node_at(s, k).dist(node_at(s, i + 1)) + node_at(
        s,
        j,
    ).dist(node_at(s, k + 1))
}

/// Reconnection cost when the segment `[i, k)` is reversed.
pub open spec fn three_opt_d4<T: Metrizable>(s: Seq<T>, i: int, j: int, k: int) -> nat {
    node_at(s, k + 1).dist(node_at(s, i + 1)) + node_at(s, j).dist(node_at(s, j + 1)) + node_at(
        s,
        k,
    ).dist(node_at(s, i))
}

/// Outcome of the 3-opt evaluation at `(i, j, k)`: the gain of the first
/// reconnection strictly cheaper than the original wiring, tried in the fixed
/// priority order `d1, d2, d4, d3`; `None` when none is cheaper.
pub open spec fn three_opt_result<T: Metrizable>(s: Seq<T>, i: int, j: int, k: int) -> Option<
    u128,
> {
    let d0 = three_opt_d0(s, i, j, k);
    let d1 = three_opt_d1(s, i, j, k);
    let d2 = three_opt_d2(s, i, j, k);
    let d3 = three_opt_d3(s, i, j, k);
    let d4 = three_opt_d4(s, i, j, k);
    if d1 < d0 {
        Some(((d0 - d1) as u128))
    } else if d2 < d0 {
        Some(((d0 - d2) as u128))
    } else if d4 < d0 {
        Some(((d0 - d4) as u128))
    } else if d3 < d0 {
        Some(((d0 - d3) as u128))
    } else {
        None
    }
}

/// The 3-opt candidate evaluation: weigh the four alternative reconnections
/// of the three edges removed at `(i, j, k)` against the original wiring,
/// by their boundary edge costs alone, and return the gain of the first
/// strictly cheaper one. The tour itself is left unchanged in every case;
/// an accepted exchange is reported by its gain alone.
pub fn three_opt<T: Metrizable + Copy>(i: usize, j: usize, k: usize, path: &mut Path<T>) -> (r:
    Option<u128>)
    requires
        old(path)@.len() > 0,
    ensures
        final(path)@ == old(path)@,
        r == three_opt_result(old(path)@, i as int, j as int, k as int),
{
    let n = path.path.len();
    let ia = i % n;
    let ib = (ia + 1) % n;
    let ja = j % n;
    let jb = (ja + 1) % n;
    let ka = k % n;
    let kb = (ka + 1) % n;
    proof {
        lemma_mod_succ(i as int, n as int);
        lemma_mod_succ(j as int, n as int);
        lemma_mod_succ(k as int, n as int);
    }
    let a = path.path[ia];
    let b = path.path[ib];
    let c = path.path[ja];
    let d = path.path[jb];
    let e = path.path[ka];
    let f = path.path[kb];

    let d0: u128 = a.distance(&b) as u128 + c.distance(&d) as u128 + e.distance(&f) as u128;
    let d1: u128 = a.distance(&c) as u128 + b.distance(&d) as u128 + e.distance(&f) as u128;
    let d2: u128 = a.distance(&b) as u128 + c.distance(&e) as u128 + d.distance(&f) as u128;
    let d3: u128 = a.distance(&d) as u128 + e.distance(&b) as u128 + c.distance(&f) as u128;
    let d4: u128 = f.distance(&b) as u128 + c.distance(&d) as u128 + e.distance(&a) as u128;

    if d1 < d0 {
        Some(d0 - d1)
    } else if d2 < d0 {
        Some(d0 - d2)
    } else if d4 < d0 {
        Some(d0 - d4)
    } else if d3 < d0 {
        Some(d0 - d3)
    } else {
        None
    }
}

/// Relies on rand's `random_range` over `0..len` (`RngExt`, sampling the
/// thread's shared generator): a uniformly random index into the tour. Only
/// the range is promised; the range must be non-empty, or the call panics.
#[verifier::external_body]
pub fn rand_index<T: Metrizable>(path: &Path<T>) -> (r: usize)
    requires
        path@.len() > 0,
    ensures
        r < path@.len(),
{
    rand::rng().random_range(0..path.path.len())
}

/// The three indices in ascending order.
pub open spec fn sort3(i: int, j: int, k: int) -> (int, int, int) {
    if i <= j && i <= k {
        if j <= k {
            (i, j, k)
        } else {
            (i, k, j)
        }
    } else if j <= i && j <= k {
        if i <= k {
            (j, i, k)
        } else {
            (j, k, i)
        }
    } else {
        if i <= j {
            (k, i, j)
        } else {
            (k, j, i)
        }
    }
}

fn sort3_exec(i: usize, j: usize, k: usize) -> (r: (usize, usize, usize))
    ensures
        (r.0 as int, r.1 as int, r.2 as int) == sort3(i as int, j as int, k as int),
{
    if i <= j && i <= k {
        if j <= k {
            (i, j, k)
        } else {
            (i, k, j)
        }
    } else if j <= i && j <= k {
        if i <= k {
            (j, i, k)
        } else {
            (j, k, i)
        }
    } else {
        if i <= j {
            (k, i, j)
        } else {
            (k, j, i)
        }
    }
}

/// Arity-2 dispatch on two drawn indices: two equal indices are no move and
/// leave the tour untouched; otherwise the pair is ordered and handed to the
/// 2-opt move.
pub fn dispatch_two<T: Metrizable + Copy>(i: usize, j: usize, path: &mut Path<T>) -> (r: Option<
    u128,
>)
    requires
        i < old(path)@.len(),
        j < old(path)@.len(),
    ensures
        final(path)@.to_multiset() == old(path)@.to_multiset(),
        final(path)@.len() == old(path)@.len(),
        tour_len(final(path)@) <= tour_len(old(path)@),
        r matches Some(d) ==> d > 0 && tour_len(final(path)@) + d == tour_len(old(path)@),
        r is None ==> final(path)@ == old(path)@,
        i == j ==> r == None::<u128>,
        i != j ==> ({
            let lo = if i <= j {
                i as int
            } else {
                j as int
            };
            let hi = if i <= j {
                j as int
            } else {
                i as int
            };
            if two_opt_accepts(old(path)@, lo, hi) {
                final(path)@ == reversed_segment(old(path)@, lo, hi) && r == Some(
                    (tour_len(old(path)@) - tour_len(final(path)@)) as u128,
                )
            } else {
                final(path)@ == old(path)@ && r == None::<u128>
            }
        }),
{
    if i == j {
        return None;
    }
    if i < j {
        two_opt(i, j, path)
    } else {
        two_opt(j, i, path)
    }
}

/// Arity-3 dispatch on three drawn indices: a coincidence of the first and
/// second, or of the second and third, is no move (the first and third are
/// deliberately not compared); otherwise the triple is sorted ascending and
/// handed to the 3-opt evaluation. The tour is never changed here.
pub fn dispatch_three<T: Metrizable + Copy>(
    i: usize,
    j: usize,
    k: usize,
    path: &mut Path<T>,
) -> (r: Option<u128>)
    requires
        old(path)@.len() > 0,
    ensures
        final(path)@ == old(path)@,
        i == j || j == k ==> r == None::<u128>,
        i != j && j != k ==> r == ({
            let (lo, mid, hi) = sort3(i as int, j as int, k as int);
            three_opt_result(old(path)@, lo, mid, hi)
        }),
{
    if i == j || j == k {
        return None;
    }
    let s = sort3_exec(i, j, k);
    three_opt(s.0, s.1, s.2, path)
}

/// One dispatcher attempt at the requested arity: draw the needed indices,
/// enforce distinctness and ordering, and delegate to the matching move.
/// Arities other than 2 and 3 are a caller error, excluded by contract; an
/// unverified caller that passes one aborts at runtime.
pub fn k_opt<T: Metrizable + Copy>(k: usize, path: &mut Path<T>) -> (r: Option<u128>)
    requires
        k == 2 || k == 3,
        old(path)@.len() > 0,
    ensures
        final(path)@.to_multiset() == old(path)@.to_multiset(),
        final(path)@.len() == old(path)@.len(),
        tour_len(final(path)@) <= tour_len(old(path)@),
        k == 2 ==> (r matches Some(d) ==> d > 0 && tour_len(final(path)@) + d == tour_len(
            old(path)@,
        )),
        k == 3 ==> final(path)@ == old(path)@,
        r is None ==> final(path)@ == old(path)@,
{
    match k {
        2 => {
            let i = rand_index(path);
            let j = rand_index(path);
            dispatch_two(i, j, path)
        },
        3 => {
            let i = rand_index(path);
            let j = rand_index(path);
            let k3 = rand_index(path);
            dispatch_three(i, j, k3, path)
        },
        _ => unreached(),
    }
}

/// One step of the driver's arity/stagnation bookkeeping. Any improvement
/// resets the arity to 2 and clears the stagnation count. Once the count of
/// consecutive non-improving attempts would exceed `max_iter`, the arity
/// escalates to 3 and the count clears; until then the count just grows.
pub fn escalation_step(k: usize, iter_without_impr: usize, max_iter: usize, improved: bool) -> (r:
    (usize, usize))
    requires
        k == 2 || k == 3,
        iter_without_impr <= max_iter,
    ensures
        improved ==> r.0 == 2 && r.1 == 0,
        !improved && iter_without_impr == max_iter ==> r.0 == 3 && r.1 == 0,
        !improved && iter_without_impr < max_iter ==> r.0 == k && r.1 == iter_without_impr + 1,
        r.0 == 2 || r.0 == 3,
        r.1 <= max_iter,
{
    if improved {
        (2, 0)
    } else if iter_without_impr == max_iter {
        (3, 0)
    } else {
        (k, iter_without_impr + 1)
    }
}

impl<T: Metrizable + Copy> Path<T> {
    /// Escalating local search: repeatedly invoke the dispatcher, starting at
    /// arity 2, escalating to arity 3 after prolonged stagnation and falling
    /// back to arity 2 on any improvement, until the wall-clock budget
    /// expires. The tour is improved in place: its node multiset is
    /// preserved and its cyclic length never increases.
    pub fn solve_kopt(&mut self, timeout: core::time::Duration)
        requires
            old(self)@.len() > 0,
        ensures
            final(self)@.to_multiset() == old(self)@.to_multiset(),
            final(self)@.len() == old(self)@.len(),
            tour_len(final(self)@) <= tour_len(old(self)@),
    {
        let max_iter = self.path.len();
        let mut iter_without_impr: usize = 0;
        let mut k: usize = 2;
        let start_time = instant_now();
        // A decreasing measure for the loop; the deadline below fires long
        // before this many iterations can run.
        let mut fuel: u64 = u64::MAX;
        loop
            invariant
                self@.to_multiset() == old(self)@.to_multiset(),
                tour_len(self@) <= tour_len(old(self)@),
                self@.len() == old(self)@.len(),
                old(self)@.len() > 0,
                max_iter == old(self)@.len(),
                k == 2 || k == 3,
                iter_without_impr <= max_iter,
            decreases fuel,
        {
            let improved = match k_opt(k, self) {
                Some(_) => true,
                None => false,
            };
            proof {
                self@.to_multiset_ensures();
                old(self)@.to_multiset_ensures();
            }
            let st = escalation_step(k, iter_without_impr, max_iter, improved);
            k = st.0;
            iter_without_impr = st.1;
            if fuel == 0 {
                break;
            }
            fuel = fuel - 1;
            let el = elapsed_since(&start_time);
            if duration_exceeds(&el, &timeout) {
                break;
            }
        }
    }
}

} // verus!

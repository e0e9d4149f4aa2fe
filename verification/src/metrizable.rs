use vstd::prelude::*;

verus! {

/// The distance capability a node type must provide: a non-negative,
/// machine-representable edge cost between two nodes of the same type.
/// The engine treats it as an abstract cost; symmetry is assumed by
/// callers but never relied on by any contract here.
pub trait Metrizable: Sized {
    /// Mathematical distance between two nodes.
    spec fn dist(self, other: Self) -> nat;

    /// Executable distance; must agree exactly with `dist`.
    fn distance(&self, other: &Self) -> (d: u64)
        ensures
            d as nat == self.dist(*other);
}

} // verus!

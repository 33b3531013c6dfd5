//! Exact copies of domain values, with the copy proved to hold the same content.

use vstd::prelude::*;

verus! {

/// A value that can be copied into an independently owned value with the
/// same content (same characters, same elements, field by field).
pub trait Duplicate: Sized {
    /// `a` and `b` hold the same content.
    spec fn same(a: Self, b: Self) -> bool;

    /// Every value has the same content as itself.
    proof fn same_reflexive(a: Self)
        ensures
            Self::same(a, a),
    ;

    fn duplicate(&self) -> (r: Self)
        ensures
            Self::same(r, *self),
    ;
}

impl Duplicate for String {
    open spec fn same(a: Self, b: Self) -> bool {
        a@ == b@
    }

    proof fn same_reflexive(a: Self) {
    }

    fn duplicate(&self) -> (r: Self) {
        self.clone()
    }
}

impl Duplicate for bool {
    open spec fn same(a: Self, b: Self) -> bool {
        a == b
    }

    proof fn same_reflexive(a: Self) {
    }

    fn duplicate(&self) -> (r: Self) {
        *self
    }
}

impl Duplicate for u32 {
    open spec fn same(a: Self, b: Self) -> bool {
        a == b
    }

    proof fn same_reflexive(a: Self) {
    }

    fn duplicate(&self) -> (r: Self) {
        *self
    }
}

impl Duplicate for u64 {
    open spec fn same(a: Self, b: Self) -> bool {
        a == b
    }

    proof fn same_reflexive(a: Self) {
    }

    fn duplicate(&self) -> (r: Self) {
        *self
    }
}

impl Duplicate for u8 {
    open spec fn same(a: Self, b: Self) -> bool {
        a == b
    }

    proof fn same_reflexive(a: Self) {
    }

    fn duplicate(&self) -> (r: Self) {
        *self
    }
}

impl Duplicate for u16 {
    open spec fn same(a: Self, b: Self) -> bool {
        a == b
    }

    proof fn same_reflexive(a: Self) {
    }

    fn duplicate(&self) -> (r: Self) {
        *self
    }
}

impl Duplicate for usize {
    open spec fn same(a: Self, b: Self) -> bool {
        a == b
    }

    proof fn same_reflexive(a: Self) {
    }

    fn duplicate(&self) -> (r: Self) {
        *self
    }
}

impl<T: Duplicate> Duplicate for Option<T> {
    open spec fn same(a: Self, b: Self) -> bool {
        match (a, b) {
            (Some(x), Some(y)) => T::same(x, y),
            (None, None) => true,
            _ => false,
        }
    }

    proof fn same_reflexive(a: Self) {
        if let Some(x) = a {
            T::same_reflexive(x);
        }
    }

    fn duplicate(&self) -> (r: Self) {
        match self {
            Some(x) => Some(x.duplicate()),
            None => None,
        }
    }
}

impl<A: Duplicate, B: Duplicate> Duplicate for (A, B) {
    open spec fn same(a: Self, b: Self) -> bool {
        A::same(a.0, b.0) && B::same(a.1, b.1)
    }

    proof fn same_reflexive(a: Self) {
        A::same_reflexive(a.0);
        B::same_reflexive(a.1);
    }

    fn duplicate(&self) -> (r: Self) {
        (self.0.duplicate(), self.1.duplicate())
    }
}

/// Element-wise same content of two sequences.
pub open spec fn same_seq<T: Duplicate>(a: Seq<T>, b: Seq<T>) -> bool {
    a.len() == b.len() && forall|i: int| 0 <= i < a.len() ==> T::same(#[trigger] a[i], b[i])
}

/// Every sequence has the same content as itself.
pub proof fn same_seq_reflexive<T: Duplicate>(a: Seq<T>)
    ensures
        same_seq(a, a),
{
    assert forall|i: int| 0 <= i < a.len() implies T::same(#[trigger] a[i], a[i]) by {
        T::same_reflexive(a[i]);
    }
}

impl<T: Duplicate> Duplicate for Vec<T> {
    open spec fn same(a: Self, b: Self) -> bool {
        same_seq(a@, b@)
    }

    proof fn same_reflexive(a: Self) {
        same_seq_reflexive(a@);
    }

    fn duplicate(&self) -> (r: Self) {
        let mut r: Vec<T> = Vec::new();
        let mut i: usize = 0;
        while i < self.len()
            invariant
                i <= self@.len(),
                r@.len() == i,
                forall|j: int| 0 <= j < i ==> T::same(#[trigger] r@[j], self@[j]),
            decreases self@.len() - i,
        {
            r.push(self[i].duplicate());
            i = i + 1;
        }
        r
    }
}

} // verus!

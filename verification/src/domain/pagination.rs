//! Source-agnostic pagination containers: an offset-based page and a
//! cursor-based page of domain items.

use vstd::prelude::*;

use crate::domain::dup::Duplicate;

verus! {

/// An offset-based page of domain items.
#[derive(Debug, Clone, PartialEq, Eq)]
pub struct Paged<T> {
    pub items: Vec<T>,
    pub offset: u32,
    pub limit: u32,
    pub total: u32,
    pub next: Option<String>,
    pub previous: Option<String>,
}

impl<T> Paged<T> {
    /// The empty page: no items, zero counts, no neighbours.
    pub fn empty() -> (p: Self)
        ensures
            p.items@.len() == 0,
            p.offset == 0,
            p.limit == 0,
            p.total == 0,
            p.next is None,
            p.previous is None,
    {
        Paged { items: Vec::new(), offset: 0, limit: 0, total: 0, next: None, previous: None }
    }

    /// Whether a following page exists (the API sets `next` to null at the end).
    pub fn has_next(&self) -> (b: bool)
        ensures
            b == self.next is Some,
    {
        self.next.is_some()
    }
}

impl<T> Default for Paged<T> {
    fn default() -> (p: Self)
        ensures
            p.items@.len() == 0,
            p.offset == 0,
            p.limit == 0,
            p.total == 0,
            p.next is None,
            p.previous is None,
    {
        Paged::empty()
    }
}

impl<T: Duplicate> Duplicate for Paged<T> {
    open spec fn same(a: Self, b: Self) -> bool {
        &&& Vec::<T>::same(a.items, b.items)
        &&& a.offset == b.offset
        &&& a.limit == b.limit
        &&& a.total == b.total
        &&& Option::<String>::same(a.next, b.next)
        &&& Option::<String>::same(a.previous, b.previous)
    }

    proof fn same_reflexive(a: Self) {
        Vec::<T>::same_reflexive(a.items);
        Option::<String>::same_reflexive(a.next);
        Option::<String>::same_reflexive(a.previous);
    }

    fn duplicate(&self) -> (r: Self) {
        Paged {
            items: self.items.duplicate(),
            offset: self.offset,
            limit: self.limit,
            total: self.total,
            next: self.next.duplicate(),
            previous: self.previous.duplicate(),
        }
    }
}

/// A cursor-based page of domain items.
#[derive(Debug, Clone, PartialEq, Eq)]
pub struct CursorPaged<T> {
    pub items: Vec<T>,
    pub limit: u32,
    pub next: Option<String>,
    /// `cursors.after` from the API: the cursor that requests the following page.
    pub cursor_after: Option<String>,
    /// Absent when the source has returned all items.
    pub total: Option<u32>,
}

impl<T> CursorPaged<T> {
    /// The empty cursor page.
    pub fn empty() -> (p: Self)
        ensures
            p.items@.len() == 0,
            p.limit == 0,
            p.next is None,
            p.cursor_after is None,
            p.total is None,
    {
        CursorPaged { items: Vec::new(), limit: 0, next: None, cursor_after: None, total: None }
    }

    /// Whether a following page exists.
    pub fn has_next(&self) -> (b: bool)
        ensures
            b == self.next is Some,
    {
        self.next.is_some()
    }
}

impl<T> Default for CursorPaged<T> {
    fn default() -> (p: Self)
        ensures
            p.items@.len() == 0,
            p.limit == 0,
            p.next is None,
            p.cursor_after is None,
            p.total is None,
    {
        CursorPaged::empty()
    }
}

} // verus!

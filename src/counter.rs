use vstd::prelude::*;

use crate::content::{Content, ElemKind};
use crate::introspector::{
    index_of, is_first_at, lemma_select_prefix, select_seq, visible,
    Entry, Introspector,
};
use crate::location::Location;
use crate::selector::Selector;

verus! {

/// The steps of a counter of a kind: every queriable element of the kind.
pub open spec fn steps_of(s: Seq<Entry>, kind: ElemKind) -> Seq<Content> {
    select_seq(s, |c: Content| c.kind == kind && c.kind.queriable_spec())
}

/// How many steps of the counter come strictly before `loc`; all of them
/// where nothing was placed at `loc`.
pub open spec fn steps_before(s: Seq<Entry>, kind: ElemKind, loc: Location) -> nat {
    match index_of(s, loc) {
        Some(i) => steps_of(s.subrange(0, i), kind).len(),
        None => steps_of(s, kind).len(),
    }
}

/// A counter of the elements of a kind. It works like a deferred value
/// whose markers are the counted elements themselves: each one steps the
/// count by one where it is placed, with no update written by hand.
#[derive(Debug, Clone, Copy, PartialEq, Eq, Hash, Structural)]
pub struct Counter {
    pub kind: ElemKind,
}

impl Counter {
    /// The counter of the elements of a kind.
    pub fn of(kind: ElemKind) -> (r: Counter)
        ensures
            r.kind == kind,
    {
        Counter { kind }
    }

    /// How many elements of the kind come strictly before `loc` in layout
    /// order.
    pub fn at_loc(&self, introspector: &Introspector, loc: Location) -> (r: usize)
        ensures
            r == steps_before(introspector@, self.kind, loc),
            r <= steps_of(introspector@, self.kind).len(),
    {
        let sel = Selector::kind(self.kind);
        let r = introspector.query_count_before(&sel, loc);
        proof {
            let p1 = |c: Content| visible(sel, c);
            let p2 = |c: Content| c.kind == self.kind && c.kind.queriable_spec();
            assert(p1 =~= p2);
            let s = introspector@;
            assert(s.subrange(0, s.len() as int) =~= s);
            if let Some(i) = index_of(s, loc) {
                assert(is_first_at(s, loc, i));
                lemma_select_prefix(s, p2, i, s.len() as int);
            }
        }
        r
    }

    /// How many elements of the kind the document holds.
    pub fn final_(&self, introspector: &Introspector) -> (r: usize)
        ensures
            r == steps_of(introspector@, self.kind).len(),
    {
        let sel = Selector::kind(self.kind);
        let found = introspector.query(&sel);
        proof {
            let p1 = |c: Content| visible(sel, c);
            let p2 = |c: Content| c.kind == self.kind && c.kind.queriable_spec();
            assert(p1 =~= p2);
        }
        found.len()
    }
}

} // verus!

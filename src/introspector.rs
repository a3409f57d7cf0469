use vstd::prelude::*;

use crate::content::Content;
use crate::location::Location;
use crate::selector::Selector;

verus! {

/// Where located content ended up: the 1-based page and the coordinates
/// relative to the page's top left corner, in layout units.
#[derive(Debug, Clone, Copy, PartialEq, Eq, Hash, Structural)]
pub struct Position {
    pub page: usize,
    pub x: i64,
    pub y: i64,
}

/// One piece of located content, as laid out.
#[derive(Debug, Clone, PartialEq, Eq, Hash)]
pub struct Entry {
    pub content: Content,
    pub position: Position,
    /// The page numbering pattern in effect on the content's page.
    pub numbering: Option<String>,
}

/// Why a query that must find exactly one element failed.
#[derive(Debug, Clone, Copy, PartialEq, Eq, Hash, Structural)]
pub enum QueryError {
    /// Nothing matched.
    LocationNotFound,
    /// More than one element matched.
    AmbiguousMatch,
}

/// Whether a query with the selector returns the content.
pub open spec fn visible(sel: Selector, c: Content) -> bool {
    c.kind.queriable_spec() && sel.matches_spec(c)
}

/// The contents of the entries that satisfy `p`, in their order.
pub open spec fn select_seq(s: Seq<Entry>, p: spec_fn(Content) -> bool) -> Seq<Content>
    decreases s.len(),
{
    if s.len() == 0 {
        Seq::empty()
    } else {
        let rest = select_seq(s.drop_last(), p);
        if p(s.last().content) {
            rest.push(s.last().content)
        } else {
            rest
        }
    }
}

/// The contents that a query with the selector finds among the entries, in
/// their order.
pub open spec fn query_seq(s: Seq<Entry>, sel: Selector) -> Seq<Content> {
    select_seq(s, |c: Content| visible(sel, c))
}

/// Whether two sequences of content agree element by element.
pub open spec fn same_contents(a: Seq<Content>, b: Seq<Content>) -> bool {
    a.len() == b.len() && forall|i: int| 0 <= i < a.len() ==> (#[trigger] a[i]).same_as(b[i])
}

/// Whether `i` is the first entry placed at `loc`.
pub open spec fn is_first_at(s: Seq<Entry>, loc: Location, i: int) -> bool {
    &&& 0 <= i < s.len()
    &&& s[i].content.location == Some(loc)
    &&& forall|j: int| 0 <= j < i ==> (#[trigger] s[j]).content.location != Some(loc)
}

/// The place of `loc` in layout order, if content was placed there.
pub open spec fn index_of(s: Seq<Entry>, loc: Location) -> Option<int> {
    if exists|i: int| is_first_at(s, loc, i) {
        Some(choose|i: int| is_first_at(s, loc, i))
    } else {
        None
    }
}

/// How many matches of the selector come strictly before `loc` in layout
/// order; all of them where nothing was placed at `loc`.
pub open spec fn count_before(s: Seq<Entry>, sel: Selector, loc: Location) -> nat {
    match index_of(s, loc) {
        Some(i) => query_seq(s.subrange(0, i), sel).len(),
        None => query_seq(s, sel).len(),
    }
}

/// Where `loc` is on the pages: page 1 at the origin where nothing was
/// placed there.
pub open spec fn position_of(s: Seq<Entry>, loc: Location) -> Position {
    match index_of(s, loc) {
        Some(i) => s[i].position,
        None => Position { page: 1, x: 0, y: 0 },
    }
}

proof fn lemma_first_unique(s: Seq<Entry>, loc: Location, i: int, k: int)
    requires
        is_first_at(s, loc, i),
        is_first_at(s, loc, k),
    ensures
        i == k,
{
    if i < k {
        assert(s[i].content.location != Some(loc));
    } else if k < i {
        assert(s[k].content.location != Some(loc));
    }
}

pub proof fn lemma_select_len(s: Seq<Entry>, p: spec_fn(Content) -> bool)
    ensures
        select_seq(s, p).len() <= s.len(),
    decreases s.len(),
{
    if s.len() > 0 {
        lemma_select_len(s.drop_last(), p);
    }
}

/// A longer prefix of the entries has no fewer selected contents.
pub proof fn lemma_select_prefix(s: Seq<Entry>, p: spec_fn(Content) -> bool, a: int, b: int)
    requires
        0 <= a <= b <= s.len(),
    ensures
        select_seq(s.subrange(0, a), p).len() <= select_seq(s.subrange(0, b), p).len(),
    decreases b - a,
{
    if a < b {
        lemma_select_prefix(s, p, a, b - 1);
        assert(s.subrange(0, b).drop_last() =~= s.subrange(0, b - 1));
    }
}

/// Entries between `a` and `b` that `p` rejects add nothing to the
/// selection.
pub proof fn lemma_select_skip(s: Seq<Entry>, p: spec_fn(Content) -> bool, a: int, b: int)
    requires
        0 <= a <= b <= s.len(),
        forall|j: int| a <= j < b ==> !p(#[trigger] s[j].content),
    ensures
        select_seq(s.subrange(0, a), p) == select_seq(s.subrange(0, b), p),
    decreases b - a,
{
    if a < b {
        lemma_select_skip(s, p, a, b - 1);
        assert(s.subrange(0, b).drop_last() =~= s.subrange(0, b - 1));
        assert(!p(s[b - 1].content));
    }
}

/// Every selected content is located where every entry is.
pub proof fn lemma_select_located(s: Seq<Entry>, p: spec_fn(Content) -> bool)
    requires
        forall|i: int| 0 <= i < s.len() ==> (#[trigger] s[i]).content.location is Some,
    ensures
        forall|k: int|
            0 <= k < select_seq(s, p).len() ==> (#[trigger] select_seq(s, p)[k]).location is Some,
    decreases s.len(),
{
    if s.len() > 0 {
        let t = s.drop_last();
        assert forall|i: int| 0 <= i < t.len() implies (#[trigger] t[i]).content.location is Some by {
            assert(t[i] == s[i]);
        }
        lemma_select_located(t, p);
    }
}

/// The index of one layout pass: every located piece of content with its
/// position, in layout order. It is built once and only read afterwards.
pub struct Introspector {
    entries: Vec<Entry>,
    revision: u64,
}

impl View for Introspector {
    type V = Seq<Entry>;

    closed spec fn view(&self) -> Seq<Entry> {
        self.entries@
    }
}

impl Introspector {
    /// The revision stamp that the introspector was built with.
    pub closed spec fn revision_spec(&self) -> u64 {
        self.revision
    }

    /// Every entry is located and lies on a page numbered from 1.
    pub open spec fn wf(&self) -> bool {
        forall|i: int|
            0 <= i < self@.len() ==> (#[trigger] self@[i]).position.page >= 1
                && self@[i].content.location is Some
    }

    /// Builds the index of a pass from its located content in layout order.
    pub fn new(entries: Vec<Entry>, revision: u64) -> (r: Introspector)
        requires
            forall|i: int|
                0 <= i < entries@.len() ==> (#[trigger] entries@[i]).position.page >= 1
                    && entries@[i].content.location is Some,
        ensures
            r@ == entries@,
            r.revision_spec() == revision,
            r.wf(),
    {
        Introspector { entries, revision }
    }

    /// The index of a pass in which nothing was placed.
    pub fn empty(revision: u64) -> (r: Introspector)
        ensures
            r@.len() == 0,
            r.revision_spec() == revision,
            r.wf(),
    {
        Introspector { entries: Vec::new(), revision }
    }

    /// The revision stamp that the introspector was built with.
    pub fn revision(&self) -> (r: u64)
        ensures
            r == self.revision_spec(),
    {
        self.revision
    }

    /// The number of located pieces of content.
    pub fn len(&self) -> (r: usize)
        ensures
            r == self@.len(),
    {
        self.entries.len()
    }

    /// The place of `loc` in layout order.
    fn find(&self, loc: Location) -> (r: Option<usize>)
        ensures
            match r {
                Some(i) => index_of(self@, loc) == Some(i as int),
                None => index_of(self@, loc) is None,
            },
    {
        let mut i: usize = 0;
        while i < self.entries.len()
            invariant
                i <= self@.len(),
                forall|j: int| 0 <= j < i ==> (#[trigger] self@[j]).content.location != Some(loc),
            decreases self@.len() - i,
        {
            let here = match self.entries[i].content.location {
                Some(l) => l.0 == loc.0,
                None => false,
            };
            if here {
                proof {
                    assert(is_first_at(self@, loc, i as int));
                    assert forall|k: int| is_first_at(self@, loc, k) implies k == i by {
                        lemma_first_unique(self@, loc, i as int, k);
                    }
                }
                return Some(i);
            }
            i = i + 1;
        }
        proof {
            assert forall|k: int| !is_first_at(self@, loc, k) by {
                if is_first_at(self@, loc, k) {
                    assert(self@[k].content.location != Some(loc));
                }
            }
        }
        None
    }

    /// How many entries among the first `end` a query with the selector
    /// finds.
    fn count_matches(&self, sel: &Selector, end: usize) -> (r: usize)
        requires
            end <= self@.len(),
        ensures
            r == query_seq(self@.subrange(0, end as int), *sel).len(),
    {
        let mut n: usize = 0;
        let mut i: usize = 0;
        while i < end
            invariant
                i <= end <= self@.len(),
                n == query_seq(self@.subrange(0, i as int), *sel).len(),
            decreases end - i,
        {
            proof {
                lemma_select_len(self@.subrange(0, i as int), |c: Content| visible(*sel, c));
                assert(self@.subrange(0, i + 1).drop_last() =~= self@.subrange(0, i as int));
            }
            let e = &self.entries[i];
            if e.content.kind.queriable() && sel.matches(&e.content) {
                n = n + 1;
            }
            i = i + 1;
        }
        n
    }

    /// Every queriable piece of content that the selector matches, in
    /// layout order.
    pub fn query(&self, sel: &Selector) -> (r: Vec<Content>)
        ensures
            same_contents(r@, query_seq(self@, *sel)),
    {
        let mut r: Vec<Content> = Vec::new();
        let mut i: usize = 0;
        while i < self.entries.len()
            invariant
                i <= self@.len(),
                same_contents(r@, query_seq(self@.subrange(0, i as int), *sel)),
            decreases self@.len() - i,
        {
            proof {
                assert(self@.subrange(0, i + 1).drop_last() =~= self@.subrange(0, i as int));
            }
            let e = &self.entries[i];
            if e.content.kind.queriable() && sel.matches(&e.content) {
                r.push(e.content.duplicate());
            }
            i = i + 1;
        }
        assert(self@.subrange(0, self@.len() as int) =~= self@);
        r
    }

    /// How many matches of the selector come strictly before `loc` in
    /// layout order. Where nothing was placed at `loc`, all matches count.
    pub fn query_count_before(&self, sel: &Selector, loc: Location) -> (r: usize)
        ensures
            r == count_before(self@, *sel, loc),
    {
        match self.find(loc) {
            Some(i) => self.count_matches(sel, i),
            None => {
                let n = self.count_matches(sel, self.entries.len());
                assert(self@.subrange(0, self@.len() as int) =~= self@);
                n
            },
        }
    }

    /// The one piece of content that the selector matches.
    pub fn query_unique(&self, sel: &Selector) -> (r: Result<Content, QueryError>)
        ensures
            query_seq(self@, *sel).len() == 0 <==> r == Err::<Content, QueryError>(
                QueryError::LocationNotFound,
            ),
            query_seq(self@, *sel).len() > 1 <==> r == Err::<Content, QueryError>(
                QueryError::AmbiguousMatch,
            ),
            query_seq(self@, *sel).len() == 1 ==> r is Ok && r->Ok_0.same_as(
                query_seq(self@, *sel)[0],
            ),
    {
        let mut found = self.query(sel);
        if found.len() == 0 {
            Err(QueryError::LocationNotFound)
        } else if found.len() > 1 {
            Err(QueryError::AmbiguousMatch)
        } else {
            Ok(found.remove(0))
        }
    }

    /// The one piece of content with the given label.
    pub fn query_label(&self, label: &String) -> (r: Result<Content, QueryError>)
        ensures
            ({
                let q = query_seq(self@, Selector::Label(*label));
                &&& q.len() == 0 <==> r == Err::<Content, QueryError>(QueryError::LocationNotFound)
                &&& q.len() > 1 <==> r == Err::<Content, QueryError>(QueryError::AmbiguousMatch)
                &&& q.len() == 1 ==> r is Ok && r->Ok_0.same_as(q[0])
            }),
    {
        let sel = Selector::Label(label.clone());
        self.query_unique(&sel)
    }

    /// Where `loc` is on the pages.
    pub fn position(&self, loc: Location) -> (r: Position)
        ensures
            r == position_of(self@, loc),
    {
        match self.find(loc) {
            Some(i) => self.entries[i].position,
            None => Position { page: 1, x: 0, y: 0 },
        }
    }

    /// The 1-based page of `loc`.
    pub fn page(&self, loc: Location) -> (r: usize)
        requires
            self.wf(),
        ensures
            r == position_of(self@, loc).page,
            r >= 1,
    {
        let p = self.position(loc);
        proof {
            if let Some(i) = index_of(self@, loc) {
                assert(is_first_at(self@, loc, i));
            }
        }
        p.page
    }

    /// The page numbering pattern in effect on the page of `loc`.
    pub fn page_numbering(&self, loc: Location) -> (r: Option<String>)
        ensures
            r == match index_of(self@, loc) {
                Some(i) => self@[i].numbering,
                None => None,
            },
    {
        match self.find(loc) {
            Some(i) => match &self.entries[i].numbering {
                Some(n) => Some(n.clone()),
                None => None,
            },
            None => None,
        }
    }
}

/// Counting matches before a location respects layout order: a location
/// that comes no later than another has no more matches before it.
pub proof fn query_count_before_is_monotonic(
    intro: &Introspector,
    sel: Selector,
    a: Location,
    b: Location,
)
    requires
        index_of(intro@, a) is Some,
        index_of(intro@, b) is Some,
        index_of(intro@, a)->0 <= index_of(intro@, b)->0,
    ensures
        count_before(intro@, sel, a) <= count_before(intro@, sel, b),
{
    let i = index_of(intro@, a)->0;
    let j = index_of(intro@, b)->0;
    assert(is_first_at(intro@, b, j));
    lemma_select_prefix(intro@, |c: Content| visible(sel, c), i, j);
}

} // verus!

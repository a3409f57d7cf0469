use vstd::prelude::*;

use crate::content::{Content, ElemKind};
use crate::introspector::{
    index_of, is_first_at, lemma_select_located, lemma_select_prefix, lemma_select_skip,
    query_seq, same_contents, select_seq, visible, Entry, Introspector, QueryError,
};
use crate::location::{Locatable, Location};
use crate::selector::{has_all_fields, Selector};
use crate::value::{duplicate_values, Func, Value};

verus! {

/// An update to perform on a deferred value.
#[derive(Debug, Clone, PartialEq, Eq, Hash)]
pub enum StateUpdate {
    /// Replace the value.
    Replace(Value),
    /// Apply a function to the value.
    Func(Func),
}

impl StateUpdate {
    /// A copy of this update.
    pub fn duplicate(&self) -> (r: StateUpdate)
        ensures
            r == *self,
    {
        match self {
            StateUpdate::Replace(v) => StateUpdate::Replace(v.duplicate()),
            StateUpdate::Func(f) => StateUpdate::Func(*f),
        }
    }
}

/// Why a read of a deferred value failed.
#[derive(Debug, Clone, Copy, PartialEq, Eq, Hash, Structural)]
pub enum StateError {
    /// The target selector matched nothing.
    LocationNotFound,
    /// The target selector matched more than one element.
    AmbiguousMatch,
    /// The read needs a current location and none is known.
    MissingContext,
}

/// The name of the field that holds the key of an update marker.
pub open spec fn key_field() -> Seq<char> {
    "key"@
}

/// Whether content is an update marker for the key.
pub open spec fn is_marker_for(c: Content, key: Seq<char>) -> bool {
    &&& c.kind == ElemKind::StateUpdate
    &&& exists|j: int|
        0 <= j < c.fields@.len() && #[trigger] c.fields@[j].name@ == key_field()
            && c.fields@[j].value is Str && c.fields@[j].value->Str_0@ == key
}

/// The update markers for the key, in layout order.
pub open spec fn markers_of(s: Seq<Entry>, key: Seq<char>) -> Seq<Content> {
    select_seq(s, |c: Content| is_marker_for(c, key))
}

/// How many markers for the key come strictly before `loc` in layout order;
/// all of them where nothing was placed at `loc`.
pub open spec fn markers_before(s: Seq<Entry>, key: Seq<char>, loc: Location) -> nat {
    match index_of(s, loc) {
        Some(i) => markers_of(s.subrange(0, i), key).len(),
        None => markers_of(s, key).len(),
    }
}

/// Whether `next` is what the update makes of `cur`; content that carries
/// no update keeps the value.
pub open spec fn step_ok<F: Fn(Func, Value) -> Value>(
    eval: F,
    cur: Value,
    u: Option<StateUpdate>,
    next: Value,
) -> bool {
    match u {
        Some(StateUpdate::Replace(v)) => next == v,
        Some(StateUpdate::Func(f)) => call_ensures(eval, (f, cur), next),
        None => next == cur,
    }
}

/// Whether `s` is the sequence of values that folding the markers from
/// `init` yields: the initial value, then one value after each marker.
pub open spec fn folds<F: Fn(Func, Value) -> Value>(
    eval: F,
    init: Value,
    markers: Seq<Content>,
    s: Seq<Value>,
) -> bool {
    &&& s.len() == markers.len() + 1
    &&& s[0].same_as(init)
    &&& forall|i: int|
        0 <= i < markers.len() ==> step_ok(eval, #[trigger] s[i], markers[i].update, s[i + 1])
}

/// A computed sequence of values of a deferred value.
pub struct Memo {
    pub key: String,
    pub init: Value,
    pub values: Vec<Value>,
}

/// What the reads of deferred values in one pass work with: the index of
/// the previous pass, the current location if one is known, the evaluator
/// of user functions, and the sequences computed so far.
///
/// The memoized sequences belong to this engine's introspector: a new pass
/// builds a new engine, which starts with none.
pub struct Engine<F> {
    pub introspector: Introspector,
    pub location: Option<Location>,
    pub eval: F,
    pub memo: Vec<Memo>,
}

impl<F: Fn(Func, Value) -> Value> Engine<F> {
    /// Whether the memoized entry `i` is the one for the key and initial
    /// value.
    closed spec fn memo_for(&self, i: int, key: Seq<char>, init: Value) -> bool {
        0 <= i < self.memo@.len() && self.memo@[i].key@ == key && self.memo@[i].init.same_as(init)
    }

    /// The memoized sequence of the deferred value with the key and initial
    /// value, if it was computed.
    pub closed spec fn cached(&self, key: Seq<char>, init: Value) -> Option<Seq<Value>> {
        if exists|i: int| self.memo_for(i, key, init) {
            Some(self.memo@[choose|i: int| self.memo_for(i, key, init)].values@)
        } else {
            None
        }
    }

    /// The engine is consistent: its introspector is well formed, the
    /// evaluator accepts every function and value, and every memoized
    /// sequence is the fold of its markers.
    pub closed spec fn wf(&self) -> bool {
        &&& self.introspector.wf()
        &&& forall|f: Func, v: Value| call_requires(self.eval, (f, v))
        &&& forall|i: int|
            0 <= i < self.memo@.len() ==> folds(
                self.eval,
                (#[trigger] self.memo@[i]).init,
                markers_of(self.introspector@, self.memo@[i].key@),
                self.memo@[i].values@,
            )
        &&& forall|i: int, k: int|
            #![trigger self.memo@[i], self.memo@[k]]
            0 <= i < self.memo@.len() && 0 <= k < self.memo@.len() && i != k ==> !(
            self.memo@[i].key@ == self.memo@[k].key@ && self.memo@[i].init.same_as(
                self.memo@[k].init,
            ))
    }

    /// An engine over an introspector, with no sequence computed yet.
    pub fn new(introspector: Introspector, location: Option<Location>, eval: F) -> (r: Engine<F>)
        requires
            introspector.wf(),
            forall|f: Func, v: Value| call_requires(eval, (f, v)),
        ensures
            r.wf(),
            r.introspector == introspector,
            r.location == location,
            r.eval == eval,
            forall|key: Seq<char>, init: Value| r.cached(key, init) is None,
    {
        Engine { introspector, location, eval, memo: Vec::new() }
    }

    /// Moves the engine on to the index of a new pass. The sequences
    /// computed for the old index no longer hold and are dropped.
    pub fn replace_introspector(&mut self, introspector: Introspector, location: Option<Location>)
        requires
            old(self).wf(),
            introspector.wf(),
        ensures
            final(self).wf(),
            final(self).introspector == introspector,
            final(self).location == location,
            final(self).eval == old(self).eval,
            forall|key: Seq<char>, init: Value| final(self).cached(key, init) is None,
    {
        self.introspector = introspector;
        self.location = location;
        self.memo = Vec::new();
    }

    /// The memoized entry for the key and initial value.
    fn lookup(&self, key: &String, init: &Value) -> (r: Option<usize>)
        requires
            self.wf(),
        ensures
            match r {
                Some(i) => self.memo_for(i as int, key@, *init) && self.cached(key@, *init)
                    == Some(self.memo@[i as int].values@),
                None => self.cached(key@, *init) is None,
            },
    {
        let mut i: usize = 0;
        while i < self.memo.len()
            invariant
                self.wf(),
                i <= self.memo@.len(),
                forall|j: int| 0 <= j < i ==> !(#[trigger] self.memo_for(j, key@, *init)),
            decreases self.memo@.len() - i,
        {
            let m = &self.memo[i];
            if m.key.eq(key) && m.init.same(init) {
                proof {
                    assert(self.memo_for(i as int, key@, *init));
                    let c = choose|c: int| self.memo_for(c, key@, *init);
                    if c != i {
                        Value::lemma_same_as(self.memo@[c].init, self.memo@[i as int].init, *init);
                        assert(self.memo@[c].key@ == self.memo@[i as int].key@);
                        assert(self.memo@[c].init.same_as(self.memo@[i as int].init));
                    }
                }
                return Some(i);
            }
            i = i + 1;
        }
        None
    }
}

/// A deferred value: identified by its key, it folds the update markers
/// for that key, in layout order, starting from its own initial value.
#[derive(Debug, Clone, PartialEq, Eq, Hash)]
pub struct State {
    pub key: String,
    pub init: Value,
}

/// The marker of an update of a deferred value, before it is placed.
#[derive(Debug, Clone, PartialEq, Eq, Hash)]
pub struct StateUpdateElem {
    pub key: String,
    pub update: StateUpdate,
}

impl Locatable for StateUpdateElem {
}

impl StateUpdateElem {
    /// The marker of an update for the key.
    pub fn new(key: String, update: StateUpdate) -> (r: StateUpdateElem)
        ensures
            r.key == key,
            r.update == update,
    {
        StateUpdateElem { key, update }
    }

    /// The marker as content, ready to be placed.
    pub fn pack(self) -> (r: Content)
        ensures
            r.kind == ElemKind::StateUpdate,
            r.fields@.len() == 1,
            r.fields@[0].name@ == key_field(),
            r.fields@[0].value == Value::Str(self.key),
            r.styles@.len() == 0,
            r.label is None,
            r.location is None,
            r.update == Some(self.update),
            is_marker_for(r, self.key@),
    {
        let c = Content::new(ElemKind::StateUpdate);
        let c = c.with_field("key".to_owned(), Value::Str(self.key));
        let r = c.with_update(self.update);
        assert(r.fields@[0].name@ == key_field());
        r
    }
}

impl State {
    /// A deferred value identified by the key.
    pub fn new(key: String, init: Value) -> (r: State)
        ensures
            r.key == key,
            r.init == init,
    {
        State { key, init }
    }

    /// A deferred value identified by the key, as the markup layer creates
    /// it.
    pub fn construct(key: String, init: Value) -> (r: State)
        ensures
            r.key == key,
            r.init == init,
    {
        State::new(key, init)
    }

    /// The selector for this value's update markers.
    fn selector(&self) -> (r: Selector)
        ensures
            forall|c: Content| #[trigger] r.matches_spec(c) == is_marker_for(c, self.key@),
    {
        let r = Selector::kind_where(
            ElemKind::StateUpdate,
            "key".to_owned(),
            Value::Str(self.key.clone()),
        );
        assert forall|c: Content| #[trigger] r.matches_spec(c) == is_marker_for(c, self.key@) by {
            if r.matches_spec(c) {
                assert(has_all_fields(c, r->Elem_1@));
                assert(r->Elem_1@[0].name@ == key_field());
            }
            if is_marker_for(c, self.key@) {
                let j = choose|j: int|
                    0 <= j < c.fields@.len() && #[trigger] c.fields@[j].name@ == key_field()
                        && c.fields@[j].value is Str && c.fields@[j].value->Str_0@
                        == self.key@;
                assert(c.fields@[j].name@ == r->Elem_1@[0].name@);
            }
        }
        r
    }

    /// Selects the update markers of every deferred value.
    pub fn select_any() -> (r: Selector)
        ensures
            r is Elem,
            r->Elem_0 == ElemKind::StateUpdate,
            r->Elem_1@.len() == 0,
    {
        Selector::kind(ElemKind::StateUpdate)
    }

    /// The marker that performs the update where it is placed. Nothing
    /// changes until the marker is laid out.
    pub fn update(self, update: StateUpdate) -> (r: Content)
        ensures
            is_marker_for(r, self.key@),
            r.update == Some(update),
            r.location is None,
    {
        StateUpdateElem::new(self.key, update).pack()
    }
}


impl State {
    /// Folds this value's markers in the engine's introspector from the
    /// initial value.
    fn compute<F: Fn(Func, Value) -> Value>(&self, engine: &Engine<F>) -> (r: Vec<Value>)
        requires
            engine.wf(),
        ensures
            folds(engine.eval, self.init, markers_of(engine.introspector@, self.key@), r@),
    {
        let sel = self.selector();
        let markers = engine.introspector.query(&sel);
        let ghost expected = markers_of(engine.introspector@, self.key@);
        proof {
            let p1 = |c: Content| visible(sel, c);
            let p2 = |c: Content| is_marker_for(c, self.key@);
            assert(p1 =~= p2);
        }
        assert(same_contents(markers@, expected));
        let mut acc = self.init.duplicate();
        let mut stops: Vec<Value> = Vec::new();
        stops.push(acc.duplicate());
        let mut i: usize = 0;
        while i < markers.len()
            invariant
                engine.wf(),
                i <= markers@.len(),
                same_contents(markers@, expected),
                stops@.len() == i + 1,
                stops@[i as int] == acc,
                stops@[0].same_as(self.init),
                forall|k: int|
                    0 <= k < i ==> step_ok(
                        engine.eval,
                        #[trigger] stops@[k],
                        expected[k].update,
                        stops@[k + 1],
                    ),
            decreases markers@.len() - i,
        {
            proof {
                Value::lemma_same_as(self.init, self.init, self.init);
            }
            let ghost prev = acc;
            assert(markers@[i as int].same_as(expected[i as int]));
            match &markers[i].update {
                Some(StateUpdate::Replace(v)) => {
                    acc = v.duplicate();
                },
                Some(StateUpdate::Func(f)) => {
                    acc = (engine.eval)(*f, acc);
                },
                None => {},
            }
            stops.push(acc.duplicate());
            assert(step_ok(engine.eval, stops@[i as int], expected[i as int].update, stops@[i + 1]));
            i = i + 1;
        }
        stops
    }

    /// The values of this deferred value over the document: the initial
    /// value, then one value after each marker for its key, in layout order.
    ///
    /// The sequence is computed once per engine and key, and read from the
    /// engine afterwards.
    pub fn sequence<F: Fn(Func, Value) -> Value>(&self, engine: &mut Engine<F>) -> (r: Vec<Value>)
        requires
            old(engine).wf(),
        ensures
            final(engine).wf(),
            final(engine).introspector == old(engine).introspector,
            final(engine).location == old(engine).location,
            final(engine).eval == old(engine).eval,
            final(engine).cached(self.key@, self.init) == Some(r@),
            old(engine).cached(self.key@, self.init) is Some ==> r@ == old(engine).cached(
                self.key@,
                self.init,
            )->0,
            forall|k: Seq<char>, v: Value| #[trigger]
                old(engine).cached(k, v) is Some ==> final(engine).cached(k, v) == old(
                    engine,
                ).cached(k, v),
            folds(final(engine).eval, self.init, markers_of(final(engine).introspector@, self.key@), r@),
    {
        match engine.lookup(&self.key, &self.init) {
            Some(i) => duplicate_values(&engine.memo[i].values),
            None => {
                let values = self.compute(engine);
                let copy = duplicate_values(&values);
                let memo = Memo { key: self.key.clone(), init: self.init.duplicate(), values: copy };
                let ghost before = *engine;
                engine.memo.push(memo);
                proof {
                    let n = before.memo@.len() as int;
                    assert(engine.memo@[n].key@ == self.key@);
                    Value::lemma_same_as(self.init, self.init, self.init);
                    assert(engine.memo_for(n, self.key@, self.init));
                    assert forall|c: int| engine.memo_for(c, self.key@, self.init) implies c == n by {
                        if c != n {
                            assert(before.memo_for(c, self.key@, self.init));
                        }
                    }
                    assert forall|k: Seq<char>, v: Value| #[trigger]
                        before.cached(k, v) is Some implies engine.cached(k, v) == before.cached(k, v) by {
                        let c = choose|c: int| before.memo_for(c, k, v);
                        assert(engine.memo_for(c, k, v));
                        if engine.memo_for(n, k, v) {
                            assert(engine.memo@[n].init == self.init);
                            Value::lemma_same_as(before.memo@[c].init, self.init, v);
                            assert(before.memo_for(c, self.key@, self.init));
                            assert(false);
                        }
                        assert forall|d: int| engine.memo_for(d, k, v) implies d == c by {
                            if d != c {
                                Value::lemma_same_as(before.memo@[d].init, before.memo@[c].init, v);
                                assert(engine.memo@[d] == before.memo@[d]);
                            }
                        }
                    }
                    assert forall|a: int, b: int|
                        #![trigger engine.memo@[a], engine.memo@[b]]
                        0 <= a < engine.memo@.len() && 0 <= b < engine.memo@.len() && a != b
                            implies !(engine.memo@[a].key@ == engine.memo@[b].key@
                            && engine.memo@[a].init.same_as(engine.memo@[b].init)) by {
                        if a == n {
                            if engine.memo@[a].key@ == engine.memo@[b].key@
                                && engine.memo@[a].init.same_as(engine.memo@[b].init) {
                                Value::lemma_same_as(engine.memo@[b].init, self.init, self.init);
                                assert(before.memo_for(b, self.key@, self.init));
                            }
                        } else if b == n {
                            if engine.memo@[a].key@ == engine.memo@[b].key@
                                && engine.memo@[a].init.same_as(engine.memo@[b].init) {
                                assert(before.memo_for(a, self.key@, self.init));
                            }
                        } else {
                            assert(engine.memo@[a] == before.memo@[a]);
                            assert(engine.memo@[b] == before.memo@[b]);
                        }
                    }
                    assert forall|k: int| 0 <= k < engine.memo@.len() implies folds(
                        engine.eval,
                        (#[trigger] engine.memo@[k]).init,
                        markers_of(engine.introspector@, engine.memo@[k].key@),
                        engine.memo@[k].values@,
                    ) by {
                        if k < n {
                            assert(engine.memo@[k] == before.memo@[k]);
                        }
                    }
                }
                values
            },
        }
    }
}

impl State {
    /// How many markers for this value's key come strictly before `loc`.
    fn count_before(&self, intro: &Introspector, loc: Location) -> (r: usize)
        ensures
            r == markers_before(intro@, self.key@, loc),
            r <= markers_of(intro@, self.key@).len(),
    {
        let sel = self.selector();
        let r = intro.query_count_before(&sel, loc);
        proof {
            let p1 = |c: Content| visible(sel, c);
            let p2 = |c: Content| is_marker_for(c, self.key@);
            assert(p1 =~= p2);
            let s = intro@;
            assert(s.subrange(0, s.len() as int) =~= s);
            if let Some(i) = index_of(s, loc) {
                assert(is_first_at(s, loc, i));
                lemma_select_prefix(s, p2, i, s.len() as int);
            }
        }
        r
    }

    /// The value at `loc`: the initial value folded through every marker
    /// for the key that comes strictly before `loc` in layout order.
    pub fn at_loc<F: Fn(Func, Value) -> Value>(&self, engine: &mut Engine<F>, loc: Location) -> (r: Value)
        requires
            old(engine).wf(),
        ensures
            final(engine).wf(),
            final(engine).introspector == old(engine).introspector,
            final(engine).location == old(engine).location,
            final(engine).eval == old(engine).eval,
            final(engine).cached(self.key@, self.init) is Some,
            old(engine).cached(self.key@, self.init) is Some ==> final(engine).cached(
                self.key@,
                self.init,
            ) == old(engine).cached(self.key@, self.init),
            forall|k: Seq<char>, v: Value| #[trigger]
                old(engine).cached(k, v) is Some ==> final(engine).cached(k, v) == old(
                    engine,
                ).cached(k, v),
            markers_before(final(engine).introspector@, self.key@, loc) < final(engine).cached(
                self.key@,
                self.init,
            )->0.len(),
            r == final(engine).cached(self.key@, self.init)->0[markers_before(
                final(engine).introspector@,
                self.key@,
                loc,
            ) as int],
    {
        let values = self.sequence(engine);
        let offset = self.count_before(&engine.introspector, loc);
        values[offset].duplicate()
    }

    /// The value at the current location.
    pub fn get<F: Fn(Func, Value) -> Value>(&self, engine: &mut Engine<F>) -> (r: Result<Value, StateError>)
        requires
            old(engine).wf(),
        ensures
            final(engine).wf(),
            final(engine).introspector == old(engine).introspector,
            final(engine).location == old(engine).location,
            final(engine).eval == old(engine).eval,
            forall|k: Seq<char>, v: Value| #[trigger]
                old(engine).cached(k, v) is Some ==> final(engine).cached(k, v) == old(
                    engine,
                ).cached(k, v),
            old(engine).location is None ==> r == Err::<Value, StateError>(StateError::MissingContext),
            old(engine).location is Some ==> final(engine).cached(self.key@, self.init) is Some
                && r == Ok::<Value, StateError>(
                final(engine).cached(self.key@, self.init)->0[markers_before(
                    final(engine).introspector@,
                    self.key@,
                    old(engine).location->0,
                ) as int],
            ),
    {
        match engine.location {
            Some(loc) => Ok(self.at_loc(engine, loc)),
            None => Err(StateError::MissingContext),
        }
    }

    /// The value at the one element that the selector matches.
    pub fn at<F: Fn(Func, Value) -> Value>(&self, engine: &mut Engine<F>, target: &Selector) -> (r: Result<Value, StateError>)
        requires
            old(engine).wf(),
        ensures
            final(engine).wf(),
            final(engine).introspector == old(engine).introspector,
            final(engine).location == old(engine).location,
            final(engine).eval == old(engine).eval,
            forall|k: Seq<char>, v: Value| #[trigger]
                old(engine).cached(k, v) is Some ==> final(engine).cached(k, v) == old(
                    engine,
                ).cached(k, v),
            ({
                let q = query_seq(old(engine).introspector@, *target);
                &&& old(engine).location is None ==> r == Err::<Value, StateError>(
                    StateError::MissingContext,
                )
                &&& old(engine).location is Some && q.len() == 0 ==> r == Err::<Value, StateError>(
                    StateError::LocationNotFound,
                )
                &&& old(engine).location is Some && q.len() > 1 ==> r == Err::<Value, StateError>(
                    StateError::AmbiguousMatch,
                )
                &&& old(engine).location is Some && q.len() == 1 ==> q[0].location is Some
                    && final(engine).cached(self.key@, self.init) is Some && r == Ok::<
                    Value,
                    StateError,
                >(
                    final(engine).cached(self.key@, self.init)->0[markers_before(
                        final(engine).introspector@,
                        self.key@,
                        q[0].location->0,
                    ) as int],
                )
            }),
    {
        if engine.location.is_none() {
            return Err(StateError::MissingContext);
        }
        proof {
            lemma_select_located(engine.introspector@, |c: Content| visible(*target, c));
        }
        match engine.introspector.query_unique(target) {
            Err(QueryError::LocationNotFound) => Err(StateError::LocationNotFound),
            Err(QueryError::AmbiguousMatch) => Err(StateError::AmbiguousMatch),
            Ok(c) => {
                let loc = match c.location {
                    Some(l) => l,
                    None => {
                        return Err(StateError::LocationNotFound);
                    },
                };
                Ok(self.at_loc(engine, loc))
            },
        }
    }

    /// The value at the end of the document, after every marker.
    pub fn final_<F: Fn(Func, Value) -> Value>(&self, engine: &mut Engine<F>) -> (r: Result<Value, StateError>)
        requires
            old(engine).wf(),
        ensures
            final(engine).wf(),
            final(engine).introspector == old(engine).introspector,
            final(engine).location == old(engine).location,
            final(engine).eval == old(engine).eval,
            forall|k: Seq<char>, v: Value| #[trigger]
                old(engine).cached(k, v) is Some ==> final(engine).cached(k, v) == old(
                    engine,
                ).cached(k, v),
            old(engine).location is None ==> r == Err::<Value, StateError>(StateError::MissingContext),
            old(engine).location is Some ==> final(engine).cached(self.key@, self.init) is Some
                && r == Ok::<Value, StateError>(
                final(engine).cached(self.key@, self.init)->0.last(),
            ),
    {
        if engine.location.is_none() {
            return Err(StateError::MissingContext);
        }
        let values = self.sequence(engine);
        let last = values.len() - 1;
        Ok(values[last].duplicate())
    }
}

/// The memoized sequence of a deferred value is the fold of its markers.
proof fn lemma_cached_folds<F: Fn(Func, Value) -> Value>(engine: &Engine<F>, key: Seq<char>, init: Value)
    requires
        engine.wf(),
        engine.cached(key, init) is Some,
    ensures
        folds(engine.eval, init, markers_of(engine.introspector@, key), engine.cached(key, init)->0),
{
    let c = choose|c: int| engine.memo_for(c, key, init);
    assert(folds(engine.eval, engine.memo@[c].init, markers_of(engine.introspector@, key), engine.memo@[c].values@));
    Value::lemma_same_as(engine.memo@[c].values@[0], engine.memo@[c].init, init);
}

/// The sequence of a deferred value starts with its initial value.
pub proof fn sequence_starts_with_init<F: Fn(Func, Value) -> Value>(engine: &Engine<F>, state: State)
    requires
        engine.wf(),
        engine.cached(state.key@, state.init) is Some,
    ensures
        engine.cached(state.key@, state.init)->0[0].same_as(state.init),
{
    lemma_cached_folds(engine, state.key@, state.init);
}

/// The sequence of a deferred value holds one value more than there are
/// markers for its key.
pub proof fn sequence_has_one_value_per_marker<F: Fn(Func, Value) -> Value>(engine: &Engine<F>, state: State)
    requires
        engine.wf(),
        engine.cached(state.key@, state.init) is Some,
    ensures
        engine.cached(state.key@, state.init)->0.len() == markers_of(
            engine.introspector@,
            state.key@,
        ).len() + 1,
{
    lemma_cached_folds(engine, state.key@, state.init);
}

/// At a location before every marker for its key, a deferred value still
/// holds its initial value.
pub proof fn value_before_first_marker_is_init<F: Fn(Func, Value) -> Value>(
    engine: &Engine<F>,
    state: State,
    loc: Location,
)
    requires
        engine.wf(),
        engine.cached(state.key@, state.init) is Some,
        index_of(engine.introspector@, loc) is Some,
        forall|j: int|
            0 <= j < index_of(engine.introspector@, loc)->0 ==> !is_marker_for(
                (#[trigger] engine.introspector@[j]).content,
                state.key@,
            ),
    ensures
        markers_before(engine.introspector@, state.key@, loc) == 0,
        engine.cached(state.key@, state.init)->0[0].same_as(state.init),
{
    let s = engine.introspector@;
    let i = index_of(s, loc)->0;
    assert(is_first_at(s, loc, i));
    let p = |c: Content| is_marker_for(c, state.key@);
    lemma_select_skip(s, p, 0, i);
    assert(s.subrange(0, 0) =~= Seq::<Entry>::empty());
    lemma_cached_folds(engine, state.key@, state.init);
}

/// At a location after every marker for its key, a deferred value holds
/// its final value, the last of its sequence.
pub proof fn value_after_last_marker_is_final<F: Fn(Func, Value) -> Value>(
    engine: &Engine<F>,
    state: State,
    loc: Location,
)
    requires
        engine.wf(),
        engine.cached(state.key@, state.init) is Some,
        index_of(engine.introspector@, loc) is Some,
        forall|j: int|
            index_of(engine.introspector@, loc)->0 <= j < engine.introspector@.len()
                ==> !is_marker_for((#[trigger] engine.introspector@[j]).content, state.key@),
    ensures
        markers_before(engine.introspector@, state.key@, loc) == markers_of(
            engine.introspector@,
            state.key@,
        ).len(),
        engine.cached(state.key@, state.init)->0[markers_before(
            engine.introspector@,
            state.key@,
            loc,
        ) as int] == engine.cached(state.key@, state.init)->0.last(),
{
    let s = engine.introspector@;
    let i = index_of(s, loc)->0;
    assert(is_first_at(s, loc, i));
    let p = |c: Content| is_marker_for(c, state.key@);
    lemma_select_skip(s, p, i, s.len() as int);
    assert(s.subrange(0, s.len() as int) =~= s);
    lemma_cached_folds(engine, state.key@, state.init);
}

/// Deferred values that share a key see the same markers, so the same
/// count of them before any location, and each folds them from its own
/// initial value.
pub proof fn shared_key_shares_markers<F: Fn(Func, Value) -> Value>(
    engine: &Engine<F>,
    a: State,
    b: State,
    loc: Location,
)
    requires
        engine.wf(),
        a.key@ == b.key@,
        engine.cached(a.key@, a.init) is Some,
        engine.cached(b.key@, b.init) is Some,
    ensures
        markers_before(engine.introspector@, a.key@, loc) == markers_before(
            engine.introspector@,
            b.key@,
            loc,
        ),
        engine.cached(a.key@, a.init)->0.len() == engine.cached(b.key@, b.init)->0.len(),
        engine.cached(a.key@, a.init)->0[0].same_as(a.init),
        engine.cached(b.key@, b.init)->0[0].same_as(b.init),
        folds(engine.eval, a.init, markers_of(engine.introspector@, a.key@), engine.cached(a.key@, a.init)->0),
        folds(engine.eval, b.init, markers_of(engine.introspector@, a.key@), engine.cached(b.key@, b.init)->0),
{
    lemma_cached_folds(engine, a.key@, a.init);
    lemma_cached_folds(engine, b.key@, b.init);
}
} // verus!

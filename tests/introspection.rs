use typst_introspect::content::{Content, ElemKind};
use typst_introspect::driver::{decide, run_passes, values_agree, PassDecision, MAX_PASSES};
use typst_introspect::introspector::{Entry, Introspector, Position, QueryError};
use typst_introspect::location::{Location, LocationKey};
use typst_introspect::selector::Selector;
use typst_introspect::state::{Engine, State, StateError, StateUpdate, StateUpdateElem};
use typst_introspect::value::{Func, Value};

const DOUBLE: u64 = 1;
const INCREMENT: u64 = 2;

fn eval(f: Func, v: Value) -> Value {
    match (f.id, v) {
        (DOUBLE, Value::Int(i)) => Value::Int(i * 2),
        (INCREMENT, Value::Int(i)) => Value::Int(i + 1),
        (_, v) => v,
    }
}

fn entry(content: Content, loc: u128, page: usize, y: i64) -> Entry {
    Entry {
        content: content.located(Location::new(loc)),
        position: Position { page, x: 10, y },
        numbering: None,
    }
}

fn text(loc: u128, page: usize, y: i64) -> Entry {
    entry(Content::new(ElemKind::Text), loc, page, y)
}

fn marker(key: &str, update: StateUpdate, loc: u128, page: usize, y: i64) -> Entry {
    let state = State::new(key.to_string(), Value::Empty);
    entry(state.update(update), loc, page, y)
}

fn engine(entries: Vec<Entry>, here: Option<u128>) -> Engine<fn(Func, Value) -> Value> {
    Engine::new(Introspector::new(entries, 1), here.map(Location::new), eval as fn(Func, Value) -> Value)
}

/// `State("x", 0)`, `Replace(5)` at L1, doubling at L2.
fn set_then_double_entries() -> Vec<Entry> {
    vec![
        text(100, 1, 0),
        marker("x", StateUpdate::Replace(Value::Int(5)), 1, 1, 10),
        text(101, 1, 20),
        marker("x", StateUpdate::Func(Func::new(DOUBLE)), 2, 2, 0),
        text(102, 2, 10),
    ]
}

#[test]
fn replaced_then_doubled() {
    let x = State::new("x".to_string(), Value::Int(0));
    let mut e = engine(set_then_double_entries(), Some(102));
    assert_eq!(x.at_loc(&mut e, Location::new(100)), Value::Int(0));
    assert_eq!(x.at_loc(&mut e, Location::new(101)), Value::Int(5));
    assert_eq!(x.at_loc(&mut e, Location::new(102)), Value::Int(10));
    assert_eq!(x.final_(&mut e), Ok(Value::Int(10)));
    assert_eq!(x.get(&mut e), Ok(Value::Int(10)));
}

#[test]
fn three_increments() {
    let n = State::new("n".to_string(), Value::Int(0));
    let inc = || StateUpdate::Func(Func::new(INCREMENT));
    let entries = vec![
        marker("n", inc(), 1, 1, 0),
        marker("n", inc(), 2, 1, 10),
        marker("n", inc(), 3, 2, 0),
    ];
    let mut e = engine(entries, None);
    assert_eq!(n.sequence(&mut e), vec![Value::Int(0), Value::Int(1), Value::Int(2), Value::Int(3)]);
}

#[test]
fn sequence_starts_with_init_and_has_one_value_per_marker() {
    let x = State::new("x".to_string(), Value::Int(7));
    let mut e = engine(set_then_double_entries(), None);
    let s = x.sequence(&mut e);
    assert_eq!(s.len(), 3);
    assert_eq!(s[0], Value::Int(7));
    let mut empty = engine(vec![text(1, 1, 0)], None);
    assert_eq!(x.sequence(&mut empty), vec![Value::Int(7)]);
}

#[test]
fn at_loc_before_and_after_markers() {
    let x = State::new("x".to_string(), Value::Int(3));
    let mut e = engine(set_then_double_entries(), Some(1));
    assert_eq!(x.at_loc(&mut e, Location::new(100)), Value::Int(3));
    let last = x.at_loc(&mut e, Location::new(102));
    assert_eq!(Ok(last), x.final_(&mut e));
    // A marker does not count at its own location.
    assert_eq!(x.at_loc(&mut e, Location::new(1)), Value::Int(3));
    assert_eq!(x.at_loc(&mut e, Location::new(2)), Value::Int(5));
    // Where nothing was placed, every marker counts.
    assert_eq!(x.at_loc(&mut e, Location::new(999)), Value::Int(10));
}

#[test]
fn shared_key_counts_alike_and_folds_apart() {
    let a = State::new("x".to_string(), Value::Int(0));
    let b = State::new("x".to_string(), Value::Int(1));
    let entries = vec![
        marker("x", StateUpdate::Func(Func::new(INCREMENT)), 1, 1, 0),
        text(100, 1, 10),
        marker("x", StateUpdate::Func(Func::new(DOUBLE)), 2, 1, 20),
        text(101, 1, 30),
    ];
    let mut e = engine(entries, None);
    assert_eq!(a.at_loc(&mut e, Location::new(100)), Value::Int(1));
    assert_eq!(b.at_loc(&mut e, Location::new(100)), Value::Int(2));
    assert_eq!(a.at_loc(&mut e, Location::new(101)), Value::Int(2));
    assert_eq!(b.at_loc(&mut e, Location::new(101)), Value::Int(4));
    let sel = Selector::kind(ElemKind::StateUpdate);
    assert_eq!(e.introspector.query_count_before(&sel, Location::new(101)), 2);
}

#[test]
fn other_keys_are_ignored() {
    let x = State::new("x".to_string(), Value::Int(0));
    let entries = vec![
        marker("y", StateUpdate::Replace(Value::Int(9)), 1, 1, 0),
        marker("x", StateUpdate::Replace(Value::Str("a".to_string())), 2, 1, 10),
        text(100, 1, 20),
    ];
    let mut e = engine(entries, None);
    assert_eq!(x.sequence(&mut e), vec![Value::Int(0), Value::Str("a".to_string())]);
    assert_eq!(x.at_loc(&mut e, Location::new(100)), Value::Str("a".to_string()));
}

#[test]
fn reads_without_context_fail() {
    let x = State::new("x".to_string(), Value::Int(0));
    let mut e = engine(set_then_double_entries(), None);
    assert_eq!(x.get(&mut e), Err(StateError::MissingContext));
    assert_eq!(x.final_(&mut e), Err(StateError::MissingContext));
    let target = Selector::Location(Location::new(101));
    assert_eq!(x.at(&mut e, &target), Err(StateError::MissingContext));
}

#[test]
fn at_resolves_a_unique_target() {
    let x = State::new("x".to_string(), Value::Int(0));
    let mut entries = set_then_double_entries();
    entries.insert(3, entry(Content::new(ElemKind::Heading).labelled("intro".to_string()), 103, 1, 15));
    entries.push(entry(Content::new(ElemKind::Heading).labelled("twice".to_string()), 104, 1, 16));
    entries.push(entry(Content::new(ElemKind::Heading).labelled("twice".to_string()), 105, 2, 16));
    let mut e = engine(entries, Some(100));
    assert_eq!(x.at(&mut e, &Selector::Label("intro".to_string())), Ok(Value::Int(5)));
    assert_eq!(x.at(&mut e, &Selector::Location(Location::new(102))), Ok(Value::Int(10)));
    assert_eq!(x.at(&mut e, &Selector::Label("none".to_string())), Err(StateError::LocationNotFound));
    assert_eq!(x.at(&mut e, &Selector::Label("twice".to_string())), Err(StateError::AmbiguousMatch));
}

#[test]
fn query_label_not_found_and_ambiguous() {
    let entries = vec![
        entry(Content::new(ElemKind::Figure).labelled("fig".to_string()), 1, 1, 0),
        entry(Content::new(ElemKind::Heading).labelled("sec".to_string()), 2, 1, 10),
        entry(Content::new(ElemKind::Heading).labelled("sec".to_string()), 3, 2, 0),
    ];
    let intro = Introspector::new(entries, 1);
    assert_eq!(intro.query_label(&"missing".to_string()), Err(QueryError::LocationNotFound));
    assert_eq!(intro.query_label(&"sec".to_string()), Err(QueryError::AmbiguousMatch));
    let fig = intro.query_label(&"fig".to_string()).unwrap();
    assert_eq!(fig.kind, ElemKind::Figure);
    assert_eq!(fig.location, Some(Location::new(1)));
}

#[test]
fn query_keeps_layout_order_and_hides_internal_markers() {
    let entries = vec![
        entry(Content::new(ElemKind::Heading), 5, 1, 0),
        entry(Content::new(ElemKind::LineMarker), 6, 1, 5),
        entry(Content::new(ElemKind::Figure), 7, 1, 10),
        entry(Content::new(ElemKind::Heading), 8, 2, 0),
    ];
    let intro = Introspector::new(entries, 3);
    let headings = intro.query(&Selector::kind(ElemKind::Heading));
    let locs: Vec<_> = headings.iter().map(|c| c.location).collect();
    assert_eq!(locs, vec![Some(Location::new(5)), Some(Location::new(8))]);
    assert!(intro.query(&Selector::kind(ElemKind::LineMarker)).is_empty());
    assert_eq!(intro.position(Location::new(6)), Position { page: 1, x: 10, y: 5 });
    let either = Selector::kind(ElemKind::Heading).or(Selector::kind(ElemKind::Figure));
    assert_eq!(intro.query(&either).len(), 3);
    let not_heading = Selector::kind(ElemKind::Heading).negate();
    assert_eq!(intro.query(&not_heading).len(), 1);
    let both = Selector::kind(ElemKind::Heading).and(Selector::Location(Location::new(8)));
    assert_eq!(intro.query(&both).len(), 1);
    // Re-querying gives the same result.
    assert_eq!(intro.query(&either), intro.query(&either));
    assert_eq!(intro.revision(), 3);
    assert_eq!(intro.len(), 4);
}

#[test]
fn field_selectors_compare_values() {
    let c = Content::new(ElemKind::Metadata).with_field("value".to_string(), Value::Int(3));
    assert!(Selector::kind_where(ElemKind::Metadata, "value".to_string(), Value::Int(3)).matches(&c));
    assert!(!Selector::kind_where(ElemKind::Metadata, "value".to_string(), Value::Int(4)).matches(&c));
    assert!(!Selector::kind_where(ElemKind::Heading, "value".to_string(), Value::Int(3)).matches(&c));
    assert!(!Selector::kind_where(ElemKind::Metadata, "other".to_string(), Value::Int(3)).matches(&c));
}

#[test]
fn count_before_is_monotonic_in_layout_order() {
    let entries = vec![
        entry(Content::new(ElemKind::Heading), 1, 1, 0),
        text(2, 1, 5),
        entry(Content::new(ElemKind::Heading), 3, 1, 10),
        text(4, 2, 0),
        entry(Content::new(ElemKind::Heading), 5, 2, 5),
        text(6, 2, 10),
    ];
    let intro = Introspector::new(entries, 1);
    let sel = Selector::kind(ElemKind::Heading);
    let counts: Vec<usize> = (1..=6).map(|l| intro.query_count_before(&sel, Location::new(l))).collect();
    assert_eq!(counts, vec![0, 1, 1, 2, 2, 3]);
    for w in counts.windows(2) {
        assert!(w[0] <= w[1]);
    }
    assert_eq!(intro.query_count_before(&sel, Location::new(77)), 3);
}

#[test]
fn pages_and_positions() {
    let mut entries = vec![text(1, 1, 0), text(2, 3, 40)];
    entries[1].numbering = Some("i".to_string());
    let intro = Introspector::new(entries, 1);
    assert_eq!(Location::new(2).page(&intro), 3);
    assert_eq!(Location::new(2).position(&intro), Position { page: 3, x: 10, y: 40 });
    assert_eq!(Location::new(2).page_numbering(&intro), Some("i".to_string()));
    assert_eq!(Location::new(1).page_numbering(&intro), None);
    // Unknown locations lie at the origin of the first page.
    assert_eq!(Location::new(9).page(&intro), 1);
    assert_eq!(Location::new(9).position(&intro), Position { page: 1, x: 0, y: 0 });
}

#[test]
fn variants_are_deterministic_and_distinct() {
    let base = Location::new(0x1234_5678);
    assert_eq!(base.variant(1), base.variant(1));
    assert_ne!(base.variant(1), base.variant(2));
    assert_ne!(base.variant(1), base);
    assert_eq!(base.hash(), 0x1234_5678);
    assert_eq!(LocationKey::new(base), LocationKey(0x1234_5678));
    assert!(LocationKey::new(Location::new(1)) < LocationKey::new(Location::new(2)));
}

#[test]
fn update_markers_carry_key_and_update() {
    let m = StateUpdateElem::new("k".to_string(), StateUpdate::Replace(Value::Bool(true))).pack();
    assert_eq!(m.kind, ElemKind::StateUpdate);
    assert_eq!(m.update, Some(StateUpdate::Replace(Value::Bool(true))));
    assert!(State::select_any().matches(&m));
    let c = State::construct("k".to_string(), Value::Empty);
    assert_eq!(c, State::new("k".to_string(), Value::Empty));
}

#[test]
fn decisions_follow_the_budget() {
    let one = vec![Value::Int(1)];
    let two = vec![Value::Int(2)];
    assert_eq!(decide(1, None, &vec![]), PassDecision::Stable);
    assert_eq!(decide(1, None, &one), PassDecision::Retry);
    assert_eq!(decide(2, Some(&one), &one), PassDecision::Stable);
    assert_eq!(decide(2, Some(&one), &two), PassDecision::Retry);
    assert_eq!(decide(MAX_PASSES, Some(&one), &two), PassDecision::GiveUp);
    assert!(values_agree(&vec![Value::Str("a".to_string())], &vec![Value::Str("a".to_string())]));
    assert!(!values_agree(&one, &vec![Value::Int(1), Value::Int(1)]));
}

/// One pass of a document holding `#let y = state("y", 1)` and an update
/// of `y` to its own final value plus one.
fn self_referential_pass(previous: Introspector) -> (i64, Introspector, Vec<Value>) {
    let y = State::new("y".to_string(), Value::Int(1));
    let mut e = Engine::new(previous, Some(Location::new(50)), eval as fn(Func, Value) -> Value);
    let last = match y.final_(&mut e) {
        Ok(Value::Int(i)) => i,
        _ => 0,
    };
    let entries = vec![
        marker("y", StateUpdate::Replace(Value::Int(last + 1)), 1, 1, 0),
        text(50, 1, 10),
    ];
    (last, Introspector::new(entries, 0), vec![Value::Int(last)])
}

#[test]
fn self_reference_stops_within_the_budget() {
    let outcome = run_passes(&self_referential_pass);
    assert!(!outcome.converged);
    assert_eq!(outcome.passes, MAX_PASSES);
    assert!(outcome.output >= 1);
    // Each pass reads the index of the one before: the last of five sees four updates.
    assert_eq!(outcome.output, 5);
}

#[test]
fn settled_documents_stop_early() {
    let pass = |_previous: Introspector| (7u8, Introspector::new(vec![text(1, 1, 0)], 0), vec![Value::Auto]);
    let outcome = run_passes(&pass);
    assert!(outcome.converged);
    assert_eq!(outcome.passes, 2);
    assert_eq!(outcome.output, 7);
}

#[test]
fn a_new_pass_drops_the_memoized_sequences() {
    let x = State::new("x".to_string(), Value::Int(0));
    let mut e = engine(set_then_double_entries(), Some(102));
    assert_eq!(x.final_(&mut e), Ok(Value::Int(10)));
    let next = vec![marker("x", StateUpdate::Replace(Value::Int(1)), 1, 1, 0), text(102, 1, 10)];
    e.replace_introspector(Introspector::new(next, 2), Some(Location::new(102)));
    assert_eq!(x.final_(&mut e), Ok(Value::Int(1)));
    assert_eq!(x.get(&mut e), Ok(Value::Int(1)));
    assert_eq!(e.introspector.revision(), 2);
}

#[test]
fn each_pass_reads_the_index_of_the_pass_before() {
    let pass = |previous: Introspector| {
        let seen = previous.len();
        let entries: Vec<Entry> = (0..=seen as u128).map(|l| text(l + 1, 1, l as i64)).collect();
        (seen, Introspector::new(entries, 0), vec![Value::Int(seen as i64)])
    };
    let outcome = run_passes(&pass);
    assert!(!outcome.converged);
    assert_eq!(outcome.passes, MAX_PASSES);
    assert_eq!(outcome.output, MAX_PASSES - 1);
}

use vstd::prelude::*;

use crate::introspector::Introspector;
use crate::value::Value;

verus! {

/// How many layout passes a compilation may run at most.
pub const MAX_PASSES: usize = 5;

/// What to do after a layout pass.
#[derive(Debug, Clone, Copy, PartialEq, Eq, Hash, Structural)]
pub enum PassDecision {
    /// The resolved values settled: emit the output.
    Stable,
    /// The resolved values changed: run another pass.
    Retry,
    /// The values did not settle within the pass budget: emit the output
    /// as it is.
    GiveUp,
}

/// Whether two lists of resolved values agree element by element.
pub open spec fn agree(a: Seq<Value>, b: Seq<Value>) -> bool {
    a.len() == b.len() && forall|i: int| 0 <= i < a.len() ==> (#[trigger] a[i]).same_as(b[i])
}

/// Whether two lists of resolved values agree element by element.
pub fn values_agree(a: &Vec<Value>, b: &Vec<Value>) -> (r: bool)
    ensures
        r == agree(a@, b@),
{
    if a.len() != b.len() {
        return false;
    }
    let mut i: usize = 0;
    while i < a.len()
        invariant
            a@.len() == b@.len(),
            i <= a@.len(),
            forall|k: int| 0 <= k < i ==> (#[trigger] a@[k]).same_as(b@[k]),
        decreases a@.len() - i,
    {
        if !a[i].same(&b[i]) {
            return false;
        }
        i = i + 1;
    }
    true
}

/// The decision that follows a pass.
pub open spec fn decision_spec(pass: usize, previous: Option<Seq<Value>>, current: Seq<Value>) -> PassDecision {
    if current.len() == 0 {
        PassDecision::Stable
    } else if previous is Some && agree(previous->0, current) {
        PassDecision::Stable
    } else if pass >= MAX_PASSES {
        PassDecision::GiveUp
    } else {
        PassDecision::Retry
    }
}

/// Decides what follows pass number `pass` (counted from 1), given the
/// values that the previous pass resolved, if there was one, and those
/// that this pass resolved. A pass that resolved nothing, or the same
/// values as the pass before, is stable; otherwise another pass runs,
/// unless the budget is spent.
pub fn decide(pass: usize, previous: Option<&Vec<Value>>, current: &Vec<Value>) -> (r: PassDecision)
    ensures
        r == decision_spec(
            pass,
            match previous {
                Some(p) => Some(p@),
                None => None,
            },
            current@,
        ),
{
    if current.len() == 0 {
        return PassDecision::Stable;
    }
    let settled = match previous {
        Some(p) => values_agree(p, current),
        None => false,
    };
    if settled {
        PassDecision::Stable
    } else if pass >= MAX_PASSES {
        PassDecision::GiveUp
    } else {
        PassDecision::Retry
    }
}

/// The result of a compilation: the output of the last pass, how many
/// passes ran, and whether the resolved values settled.
pub struct PassOutcome<T> {
    pub output: T,
    pub passes: usize,
    pub converged: bool,
}

/// One pass as it ran: the index it was given and what it returned.
pub type PassRun<T> = (Introspector, (T, Introspector, Vec<Value>));

/// Whether `runs` is a chain of passes: the first given an empty index of
/// revision 0, each later one given the index that the pass before it
/// returned, and each returning what `pass` may return for its index.
pub open spec fn pass_chain<T, F: Fn(Introspector) -> (T, Introspector, Vec<Value>)>(
    pass: F,
    runs: Seq<PassRun<T>>,
) -> bool {
    &&& runs.len() >= 1
    &&& runs[0].0@.len() == 0
    &&& runs[0].0.revision_spec() == 0
    &&& forall|i: int| 0 <= i < runs.len() ==> call_ensures(pass, (runs[i].0,), #[trigger] runs[i].1)
    &&& forall|i: int| 1 <= i < runs.len() ==> (#[trigger] runs[i]).0 == runs[i - 1].1.1
}

/// The decision that followed pass `i` of the chain (counted from 0): its
/// resolved values against those of the pass before, if any.
pub open spec fn decision_at<T>(runs: Seq<PassRun<T>>, i: int) -> PassDecision {
    decision_spec(
        (i + 1) as usize,
        if i == 0 {
            None
        } else {
            Some(runs[i - 1].1.2@)
        },
        runs[i].1.2@,
    )
}

/// Runs layout passes until the resolved values settle or the budget is
/// spent. Each pass takes the index of the one before (an empty one at
/// first) and returns its output, its own index, and the values it
/// resolved. After each pass `decide` compares its values with those of the
/// pass before: every pass but the last was followed by a retry, and the
/// last one by a stable result (`converged`) or by giving up. The output is
/// that of the last pass. The run always ends, after at most `MAX_PASSES`
/// passes.
pub fn run_passes<T, F>(pass: &F) -> (r: PassOutcome<T>)
    where
        F: Fn(Introspector) -> (T, Introspector, Vec<Value>),
    requires
        forall|i: Introspector| i.wf() ==> call_requires(*pass, (i,)),
        forall|i: Introspector, o: (T, Introspector, Vec<Value>)|
            call_ensures(*pass, (i,), o) ==> o.1.wf(),
    ensures
        1 <= r.passes <= MAX_PASSES,
        !r.converged ==> r.passes == MAX_PASSES,
        exists|runs: Seq<PassRun<T>>|
            {
                &&& pass_chain(*pass, runs)
                &&& runs.len() == r.passes
                &&& r.output == runs.last().1.0
                &&& forall|i: int|
                    0 <= i < runs.len() - 1 ==> #[trigger] decision_at(runs, i)
                        == PassDecision::Retry
                &&& decision_at(runs, runs.len() - 1) != PassDecision::Retry
                &&& r.converged == (decision_at(runs, runs.len() - 1) == PassDecision::Stable)
            },
{
    let empty = Introspector::empty(0);
    let ghost first_in = empty;
    let first = pass(empty);
    let ghost first_run = first;
    let (first_output, first_index, first_values) = first;
    let ghost mut runs: Seq<PassRun<T>> = seq![(first_in, first_run)];
    let mut output = first_output;
    let mut index = first_index;
    let mut previous = first_values;
    let mut passes: usize = 1;
    let mut decision = decide(passes, None, &previous);
    while decision == PassDecision::Retry
        invariant
            1 <= passes <= MAX_PASSES,
            decision == PassDecision::Retry ==> passes < MAX_PASSES,
            decision == PassDecision::GiveUp ==> passes == MAX_PASSES,
            index.wf(),
            forall|i: Introspector| i.wf() ==> call_requires(*pass, (i,)),
            forall|i: Introspector, o: (T, Introspector, Vec<Value>)|
                call_ensures(*pass, (i,), o) ==> o.1.wf(),
            pass_chain(*pass, runs),
            runs.len() == passes,
            output == runs.last().1.0,
            index == runs.last().1.1,
            previous@ == runs.last().1.2@,
            decision == decision_at(runs, runs.len() - 1),
            forall|i: int|
                0 <= i < runs.len() - 1 ==> #[trigger] decision_at(runs, i) == PassDecision::Retry,
        decreases MAX_PASSES - passes,
    {
        let ghost given = index;
        let next = pass(index);
        let ghost next_run = next;
        let ghost before = runs;
        proof {
            runs = runs.push((given, next_run));
            assert forall|i: int| 0 <= i < runs.len() - 1 implies #[trigger] decision_at(runs, i)
                == PassDecision::Retry by {
                if i < before.len() - 1 {
                    assert(decision_at(before, i) == PassDecision::Retry);
                    assert(runs[i] == before[i]);
                    if i > 0 {
                        assert(runs[i - 1] == before[i - 1]);
                    }
                } else {
                    assert(runs[i] == before[i]);
                    if i > 0 {
                        assert(runs[i - 1] == before[i - 1]);
                    }
                }
            }
            assert forall|i: int| 0 <= i < runs.len() implies call_ensures(
                *pass,
                (runs[i].0,),
                #[trigger] runs[i].1,
            ) by {
                if i < before.len() {
                    assert(runs[i] == before[i]);
                }
            }
            assert forall|i: int| 1 <= i < runs.len() implies (#[trigger] runs[i]).0 == runs[i
                - 1].1.1 by {
                if i < before.len() {
                    assert(runs[i] == before[i]);
                }
                assert(runs[i - 1] == before[i - 1]);
            }
        }
        let (next_output, next_index, values) = next;
        passes = passes + 1;
        decision = decide(passes, Some(&previous), &values);
        output = next_output;
        index = next_index;
        previous = values;
    }
    assert(pass_chain(*pass, runs));
    PassOutcome { output, passes, converged: decision == PassDecision::Stable }
}

} // verus!

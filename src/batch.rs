use vstd::prelude::*;
use vstd::seq_lib::{to_multiset_build, to_multiset_contains, to_multiset_len, to_multiset_remove};

verus! {

/// What one unit of a batch came to, as its task reports it.
#[derive(Debug, PartialEq, Eq)]
pub enum UnitEvent {
    /// The unit compiled; the path of its artifact.
    Compiled(String),
    /// The directory, or one of its entries, could not be read; the cause.
    ReadFailed(String),
    /// The toolchain rejected the unit; the cause.
    CompileFailed(String),
}

/// What the driver does in answer to an event.
#[derive(Debug, PartialEq, Eq)]
pub enum UnitAction {
    /// Print this artifact path as one line of output.
    Print(String),
    /// Stop the whole batch with a failure status, reporting this cause.
    Abort(String),
    /// Nothing: the batch has already stopped.
    Ignore,
}

/// Where a batch run stands.
#[derive(Clone, Copy, Debug, PartialEq, Eq, Structural)]
pub enum BatchState {
    Running,
    Aborted,
}

/// The outcome of a batch: the lines it printed, in order, and whether it
/// finished without error.
#[derive(Debug, PartialEq, Eq)]
pub struct BatchReport {
    pub lines: Vec<String>,
    pub succeeded: bool,
}

/// Whether every event of `evs` is a successful compile.
pub open spec fn failure_free(evs: Seq<UnitEvent>) -> bool {
    forall|i: int| 0 <= i < evs.len() ==> (#[trigger] evs[i]) is Compiled
}

/// The lines a batch prints when its events arrive in the order of `evs`:
/// the artifact path of each unit in turn, up to the first failure.
pub open spec fn printed_lines(evs: Seq<UnitEvent>) -> Seq<Seq<char>>
    decreases evs.len(),
{
    if evs.len() == 0 {
        seq![]
    } else {
        match evs[0] {
            UnitEvent::Compiled(path) => seq![path@] + printed_lines(evs.drop_first()),
            _ => seq![],
        }
    }
}

/// The text of each line.
pub open spec fn lines_view(lines: Seq<String>) -> Seq<Seq<char>> {
    lines.map_values(|s: String| s@)
}

/// The state a run is parked in after a fatal error. It takes nothing and
/// yields nothing but that state, and `step` never leaves it: a panicked
/// batch does no further work, whatever is reported to it.
pub fn panic() -> (r: BatchState)
    ensures
        r == BatchState::Aborted,
{
    BatchState::Aborted
}

/// Ends a batch on a fatal error: the run is over and the cause is reported.
pub fn abort_batch(cause: String) -> (r: (BatchState, UnitAction))
    ensures
        r.0 == BatchState::Aborted,
        r.1 == UnitAction::Abort(cause),
{
    (panic(), UnitAction::Abort(cause))
}

/// One decision of the driver: what to do with the next event that a task
/// reports, and where the batch then stands. A success is printed while the
/// batch runs; the first failure aborts it; after that, nothing more is done.
pub fn step(state: BatchState, event: &UnitEvent) -> (r: (BatchState, UnitAction))
    ensures
        state == BatchState::Aborted ==> r.0 == BatchState::Aborted && r.1 == UnitAction::Ignore,
        state == BatchState::Running ==> match *event {
            UnitEvent::Compiled(path) => r.0 == BatchState::Running && r.1 == UnitAction::Print(path),
            UnitEvent::ReadFailed(cause) => r.0 == BatchState::Aborted && r.1 == UnitAction::Abort(cause),
            UnitEvent::CompileFailed(cause) => r.0 == BatchState::Aborted && r.1 == UnitAction::Abort(cause),
        },
{
    match state {
        BatchState::Aborted => (BatchState::Aborted, UnitAction::Ignore),
        BatchState::Running => match event {
            UnitEvent::Compiled(path) => (BatchState::Running, UnitAction::Print(path.clone())),
            UnitEvent::ReadFailed(cause) => abort_batch(cause.clone()),
            UnitEvent::CompileFailed(cause) => abort_batch(cause.clone()),
        },
    }
}

proof fn lemma_printed_push(evs: Seq<UnitEvent>, e: UnitEvent)
    ensures
        printed_lines(evs.push(e)) == if failure_free(evs) && e is Compiled {
            printed_lines(evs).push(e->Compiled_0@)
        } else {
            printed_lines(evs)
        },
    decreases evs.len(),
{
    let pushed = evs.push(e);
    assert(pushed[0] == if evs.len() == 0 { e } else { evs[0] });
    if evs.len() == 0 {
        assert(pushed.drop_first().len() == 0);
        assert(printed_lines(pushed.drop_first()) == Seq::<Seq<char>>::empty());
        assert(printed_lines(evs) == Seq::<Seq<char>>::empty());
        if e is Compiled {
            assert(printed_lines(pushed) =~= printed_lines(evs).push(e->Compiled_0@));
        }
    } else {
        assert(pushed.drop_first() =~= evs.drop_first().push(e));
        lemma_printed_push(evs.drop_first(), e);
        if evs[0] is Compiled {
            let head = seq![evs[0]->Compiled_0@];
            let rest = printed_lines(evs.drop_first());
            assert((head + rest).push(e->Compiled_0@) =~= head + rest.push(e->Compiled_0@));
            lemma_failure_free_tail(evs);
        } else {
            lemma_failure_free_tail(evs);
        }
    }
}

/// Runs the driver's decisions over the events of a batch, in the order in
/// which its tasks reported them, and gives the lines printed and whether the
/// batch succeeded.
pub fn run_batch(events: Vec<UnitEvent>) -> (r: BatchReport)
    ensures
        lines_view(r.lines@) == printed_lines(events@),
        r.succeeded == failure_free(events@),
{
    let mut state = BatchState::Running;
    let mut lines: Vec<String> = Vec::new();
    let mut i: usize = 0;
    while i < events.len()
        invariant
            0 <= i <= events.len(),
            lines_view(lines@) == printed_lines(events@.take(i as int)),
            state == BatchState::Running <==> failure_free(events@.take(i as int)),
        decreases events.len() - i,
    {
        proof {
            lemma_printed_push(events@.take(i as int), events@[i as int]);
            assert(events@.take(i as int).push(events@[i as int]) =~= events@.take(i + 1));
            assert(failure_free(events@.take(i + 1)) <==> failure_free(events@.take(i as int))
                && events@[i as int] is Compiled) by {
                if failure_free(events@.take(i + 1)) {
                    assert(events@.take(i + 1)[i as int] == events@[i as int]);
                    assert forall|j: int| 0 <= j < i implies (#[trigger] events@.take(i as int)[j]) is Compiled by {
                        assert(events@.take(i as int)[j] == events@.take(i + 1)[j]);
                    }
                }
            }
        }
        let (next, action) = step(state, &events[i]);
        match action {
            UnitAction::Print(path) => {
                let ghost before = lines@;
                lines.push(path);
                proof {
                    assert(lines_view(lines@) =~= lines_view(before).push(path@));
                }
            },
            _ => {},
        }
        state = next;
        i = i + 1;
    }
    proof {
        assert(events@.take(events.len() as int) =~= events@);
    }
    BatchReport { lines, succeeded: state == BatchState::Running }
}

proof fn lemma_failure_free_tail(evs: Seq<UnitEvent>)
    requires
        evs.len() > 0,
    ensures
        failure_free(evs) <==> evs[0] is Compiled && failure_free(evs.drop_first()),
{
    if evs[0] is Compiled && failure_free(evs.drop_first()) {
        assert forall|i: int| 0 <= i < evs.len() implies (#[trigger] evs[i]) is Compiled by {
            if i > 0 {
                assert(evs[i] == evs.drop_first()[i - 1]);
            }
        }
    }
    if failure_free(evs) {
        assert(evs[0] is Compiled);
        assert forall|i: int| 0 <= i < evs.drop_first().len() implies
            (#[trigger] evs.drop_first()[i]) is Compiled by {
            assert(evs.drop_first()[i] == evs[i + 1]);
        }
    }
}

/// A batch whose units all compile prints one line per unit: the artifact
/// path of each, in the order the units finished, and it succeeds.
pub proof fn law_clean_batch_prints_every_artifact(evs: Seq<UnitEvent>)
    requires
        failure_free(evs),
    ensures
        printed_lines(evs).len() == evs.len(),
        forall|i: int| 0 <= i < evs.len() ==> printed_lines(evs)[i] == (#[trigger] evs[i])->Compiled_0@,
    decreases evs.len(),
{
    if evs.len() > 0 {
        lemma_failure_free_tail(evs);
        law_clean_batch_prints_every_artifact(evs.drop_first());
        assert forall|i: int| 0 <= i < evs.len() implies printed_lines(evs)[i] == (#[trigger] evs[i])->Compiled_0@ by {
            if i > 0 {
                assert(evs[i] == evs.drop_first()[i - 1]);
            }
        }
    }
}

/// A batch in which some unit fails does not succeed, and prints fewer lines
/// than it has units.
pub proof fn law_failed_batch_prints_fewer(evs: Seq<UnitEvent>)
    requires
        exists|k: int| 0 <= k < evs.len() && !((#[trigger] evs[k]) is Compiled),
    ensures
        !failure_free(evs),
        printed_lines(evs).len() < evs.len(),
    decreases evs.len(),
{
    let k = choose|k: int| 0 <= k < evs.len() && !((#[trigger] evs[k]) is Compiled);
    if evs[0] is Compiled {
        assert(k > 0);
        assert(evs.drop_first()[k - 1] == evs[k]);
        law_failed_batch_prints_fewer(evs.drop_first());
    }
}

/// An empty batch succeeds and prints nothing.
pub proof fn law_empty_batch(evs: Seq<UnitEvent>)
    requires
        evs.len() == 0,
    ensures
        failure_free(evs),
        printed_lines(evs).len() == 0,
{
}

/// Once a unit fails (an entry that cannot be read, a unit that does not
/// compile), nothing more is printed: the lines are those printed before it.
pub proof fn law_nothing_printed_after_failure(evs: Seq<UnitEvent>, k: int)
    requires
        0 <= k < evs.len(),
        !(evs[k] is Compiled),
    ensures
        printed_lines(evs) == printed_lines(evs.take(k)),
        printed_lines(evs).len() <= k,
    decreases k,
{
    if k == 0 {
        assert(evs.take(0).len() == 0);
    } else if evs[0] is Compiled {
        let df = evs.drop_first();
        assert(df[k - 1] == evs[k]);
        law_nothing_printed_after_failure(df, k - 1);
        assert(evs.take(k).drop_first() =~= df.take(k - 1));
        assert(evs.take(k)[0] == evs[0]);
    } else {
        assert(evs.take(k)[0] == evs[0]);
    }
}

proof fn lemma_map_keeps_multiset<A, B>(s1: Seq<A>, s2: Seq<A>, f: spec_fn(A) -> B)
    requires
        s1.to_multiset() == s2.to_multiset(),
    ensures
        s1.map_values(f).to_multiset() == s2.map_values(f).to_multiset(),
    decreases s1.len(),
{
    to_multiset_len(s1);
    to_multiset_len(s2);
    if s1.len() == 0 {
        assert(s1.map_values(f) =~= s2.map_values(f));
    } else {
        let x = s1.last();
        let rest1 = s1.drop_last();
        assert(rest1.push(x) =~= s1);
        to_multiset_build(rest1, x);
        assert(s1.to_multiset().count(x) > 0);
        to_multiset_contains(s2, x);
        let j = choose|j: int| 0 <= j < s2.len() && s2[j] == x;
        let rest2 = s2.remove(j);
        to_multiset_remove(s2, j);
        assert(rest1.to_multiset() =~= rest2.to_multiset());
        lemma_map_keeps_multiset(rest1, rest2, f);
        let m1 = s1.map_values(f);
        let m2 = s2.map_values(f);
        assert(rest1.map_values(f).push(f(x)) =~= m1);
        to_multiset_build(rest1.map_values(f), f(x));
        assert(m2.remove(j) =~= rest2.map_values(f));
        to_multiset_remove(m2, j);
        assert(m2[j] == f(x));
        assert(m2.to_multiset().count(f(x)) > 0) by {
            to_multiset_contains(m2, f(x));
        }
        assert(m1.to_multiset() =~= m2.to_multiset());
    }
}

/// The artifact path that a successful compile reports.
pub open spec fn artifact_of(e: UnitEvent) -> Seq<char> {
    e->Compiled_0@
}

/// Two clean runs over the same units, whose compiles report the same
/// artifact paths, print the same lines, whatever order the units finish in.
pub proof fn law_clean_runs_print_same_lines(run1: Seq<UnitEvent>, run2: Seq<UnitEvent>)
    requires
        failure_free(run1),
        failure_free(run2),
        run1.to_multiset() == run2.to_multiset(),
    ensures
        printed_lines(run1).to_multiset() == printed_lines(run2).to_multiset(),
{
    law_clean_batch_prints_every_artifact(run1);
    law_clean_batch_prints_every_artifact(run2);
    assert(printed_lines(run1) =~= run1.map_values(|e: UnitEvent| artifact_of(e)));
    assert(printed_lines(run2) =~= run2.map_values(|e: UnitEvent| artifact_of(e)));
    lemma_map_keeps_multiset(run1, run2, |e: UnitEvent| artifact_of(e));
}

} // verus!

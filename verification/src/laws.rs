//! What holds of every sequence of starts and stops.

use vstd::prelude::*;
use crate::machine::{step_spec, ActionView, AnswerView, StateView};
use crate::provider::{start_spec, stop_spec, try_start_spec, ProviderView};
use crate::types::{DataSource, ErrorView, EventView, ManifestView};

verus! {

/// One call that reaches the running set: a start whose manifest was resolved,
/// or a stop.
pub enum Call {
    Start(ManifestView),
    Stop(Seq<char>),
}

/// The call is a start of a manifest that names the deployment.
pub open spec fn is_start_of(c: Call, id: Seq<char>) -> bool {
    c matches Call::Start(m) && m.id == id
}

/// The call is a stop of the deployment.
pub open spec fn is_stop_of(c: Call, id: Seq<char>) -> bool {
    c == Call::Stop(id)
}

/// What one call makes of a provider, and how it ends.
pub open spec fn apply(s: ProviderView, c: Call) -> (ProviderView, Result<EventView, ErrorView>) {
    match c {
        Call::Start(m) => try_start_spec(s, m),
        Call::Stop(id) => stop_spec(s, id),
    }
}

/// The provider after the calls, made one after the other.
pub open spec fn run(s: ProviderView, calls: Seq<Call>) -> ProviderView
    decreases calls.len(),
{
    if calls.len() == 0 {
        s
    } else {
        apply(run(s, calls.drop_last()), calls.last()).0
    }
}

/// How the call at place `i` ends.
pub open spec fn outcome(s: ProviderView, calls: Seq<Call>, i: int) -> Result<EventView, ErrorView> {
    apply(run(s, calls.take(i)), calls[i]).1
}

/// The call at place `j` is a stop of `id` that succeeds.
pub open spec fn successful_stop(s: ProviderView, calls: Seq<Call>, id: Seq<char>, j: int) -> bool {
    is_stop_of(calls[j], id) && outcome(s, calls, j) is Ok
}

/// The call at place `i` is a start of `id` that succeeds, and no stop of `id`
/// behind it succeeds.
pub open spec fn live_start(s: ProviderView, calls: Seq<Call>, id: Seq<char>, i: int) -> bool {
    &&& 0 <= i < calls.len()
    &&& is_start_of(calls[i], id)
    &&& outcome(s, calls, i) is Ok
    &&& forall|j: int| i < j < calls.len() ==> !#[trigger] successful_stop(s, calls, id, j)
}

proof fn outcome_of_prefix(s: ProviderView, calls: Seq<Call>, i: int)
    requires
        0 <= i < calls.len(),
    ensures
        i < calls.len() - 1 ==> outcome(s, calls, i) == outcome(s, calls.drop_last(), i),
        i == calls.len() - 1 ==> outcome(s, calls, i) == apply(run(s, calls.drop_last()), calls.last()).1,
{
    if i < calls.len() - 1 {
        assert(calls.take(i) =~= calls.drop_last().take(i));
    } else {
        assert(calls.take(i) =~= calls.drop_last());
    }
}

proof fn running_without_stop(s: ProviderView, calls: Seq<Call>, id: Seq<char>)
    requires
        forall|k: int| 0 <= k < calls.len() ==> !is_stop_of(#[trigger] calls[k], id),
    ensures
        run(s, calls).running.contains(id) <==> (s.running.contains(id) || exists|j: int|
            0 <= j < calls.len() && is_start_of(#[trigger] calls[j], id)),
    decreases calls.len(),
{
    if calls.len() > 0 {
        let before = calls.drop_last();
        running_without_stop(s, before, id);
        if exists|j: int| 0 <= j < before.len() && is_start_of(#[trigger] before[j], id) {
            let j = choose|j: int| 0 <= j < before.len() && is_start_of(#[trigger] before[j], id);
            assert(is_start_of(calls[j], id));
        }
        if is_start_of(calls.last(), id) {
            assert(is_start_of(calls[calls.len() - 1], id));
        }
        if exists|j: int| 0 <= j < calls.len() && is_start_of(#[trigger] calls[j], id) {
            let j = choose|j: int| 0 <= j < calls.len() && is_start_of(#[trigger] calls[j], id);
            if j < before.len() {
                assert(is_start_of(before[j], id));
            }
        }
        assert(!is_stop_of(calls[calls.len() - 1], id));
    }
}

/// Among starts of one deployment with no stop of it between them, made on a
/// provider where it is not running, the first succeeds and every other one
/// ends with the error that it is running already. Calls for other
/// deployments may stand anywhere among them.
pub proof fn at_most_one_running(s: ProviderView, calls: Seq<Call>, id: Seq<char>, i: int)
    requires
        !s.running.contains(id),
        forall|k: int| 0 <= k < calls.len() ==> !is_stop_of(#[trigger] calls[k], id),
        0 <= i < calls.len(),
        is_start_of(calls[i], id),
    ensures
        (forall|j: int| 0 <= j < i ==> !is_start_of(#[trigger] calls[j], id)) ==> outcome(s, calls, i) is Ok,
        (exists|j: int| 0 <= j < i && is_start_of(#[trigger] calls[j], id)) ==> outcome(s, calls, i) == Err::<
            EventView,
            ErrorView,
        >(ErrorView::AlreadyRunning(id)),
{
    let before = calls.take(i);
    assert forall|k: int| 0 <= k < before.len() implies !is_stop_of(#[trigger] before[k], id) by {
        assert(before[k] == calls[k]);
    }
    running_without_stop(s, before, id);
    if exists|j: int| 0 <= j < i && is_start_of(#[trigger] calls[j], id) {
        let j = choose|j: int| 0 <= j < i && is_start_of(#[trigger] calls[j], id);
        assert(is_start_of(before[j], id));
    }
    if forall|j: int| 0 <= j < i ==> !is_start_of(#[trigger] calls[j], id) {
        assert forall|j: int| 0 <= j < before.len() implies !is_start_of(#[trigger] before[j], id) by {
            assert(before[j] == calls[j]);
        }
    }
}

/// After any calls on a provider where the deployment was not running, it is
/// running, which is to say that a stop of it succeeds, if and only if a start
/// of it has succeeded and no stop of it has succeeded since.
pub proof fn start_stop_symmetry(s: ProviderView, calls: Seq<Call>, id: Seq<char>)
    requires
        !s.running.contains(id),
    ensures
        run(s, calls).running.contains(id) <==> exists|i: int| live_start(s, calls, id, i),
        stop_spec(run(s, calls), id).1 is Ok <==> exists|i: int| live_start(s, calls, id, i),
    decreases calls.len(),
{
    if calls.len() > 0 {
        let before = calls.drop_last();
        let last = calls.len() - 1;
        start_stop_symmetry(s, before, id);
        assert forall|i: int| 0 <= i < calls.len() implies (i < last ==> outcome(s, calls, i) == outcome(
            s,
            before,
            i,
        )) && (i == last ==> #[trigger] outcome(s, calls, i) == apply(run(s, before), calls.last()).1) by {
            outcome_of_prefix(s, calls, i);
        }
        if exists|i: int| live_start(s, before, id, i) {
            let i = choose|i: int| live_start(s, before, id, i);
            assert(outcome(s, calls, i) == outcome(s, before, i));
            if !is_stop_of(calls.last(), id) {
                assert forall|j: int| i < j < calls.len() implies !#[trigger] successful_stop(s, calls, id, j) by {
                    if j < last {
                        assert(outcome(s, calls, j) == outcome(s, before, j));
                        assert(!successful_stop(s, before, id, j));
                    }
                }
                assert(live_start(s, calls, id, i));
            }
        }
        if exists|i: int| live_start(s, calls, id, i) {
            let i = choose|i: int| live_start(s, calls, id, i);
            if i < last {
                assert(outcome(s, calls, i) == outcome(s, before, i));
                assert forall|j: int| i < j < before.len() implies !#[trigger] successful_stop(s, before, id, j) by {
                    assert(outcome(s, calls, j) == outcome(s, before, j));
                    assert(!successful_stop(s, calls, id, j));
                }
                assert(live_start(s, before, id, i));
                if is_stop_of(calls.last(), id) {
                    assert(outcome(s, calls, last) == apply(run(s, before), calls.last()).1);
                    assert(successful_stop(s, calls, id, last));
                }
            } else {
                assert(outcome(s, calls, last) == apply(run(s, before), calls.last()).1);
            }
        }
        if is_start_of(calls.last(), id) && !run(s, before).running.contains(id) {
            assert(outcome(s, calls, last) == apply(run(s, before), calls.last()).1);
            assert(live_start(s, calls, id, last));
        }
    } else {
        assert forall|i: int| !live_start(s, calls, id, i) by {}
    }
}

/// A start that ends with an error leaves the provider as it was. So after an
/// error other than the one that says the deployment is running already, a
/// deployment that was not running is not running.
pub proof fn no_insert_on_failure(
    s: ProviderView,
    resolved: Result<ManifestView, Seq<char>>,
    loaded: Result<Seq<DataSource>, Seq<char>>,
    id: Seq<char>,
)
    requires
        start_spec(s, resolved, loaded).1 is Err,
    ensures
        start_spec(s, resolved, loaded).0 == s,
        !(start_spec(s, resolved, loaded).1 matches Err(ErrorView::AlreadyRunning(_))) && !s.running.contains(id)
            ==> !start_spec(s, resolved, loaded).0.running.contains(id),
{
}

/// How many of the first `n` calls succeed.
pub open spec fn successes(s: ProviderView, calls: Seq<Call>, n: int) -> int
    decreases n,
{
    if n <= 0 {
        0int
    } else {
        successes(s, calls, n - 1) + if outcome(s, calls, n - 1) is Ok {
            1int
        } else {
            0int
        }
    }
}

proof fn successes_grow(s: ProviderView, calls: Seq<Call>, i: int, n: int)
    requires
        0 <= i < n,
    ensures
        0 <= successes(s, calls, i),
        successes(s, calls, i) + (if outcome(s, calls, i) is Ok {
            1int
        } else {
            0int
        }) <= successes(s, calls, n),
    decreases n,
{
    if i < n - 1 {
        successes_grow(s, calls, i, n - 1);
    } else if i > 0 {
        successes_grow(s, calls, i - 1, i);
    }
}

proof fn events_after_prefix(s: ProviderView, calls: Seq<Call>, n: int, i: int)
    requires
        0 <= i < n <= calls.len(),
        outcome(s, calls, i) is Ok,
    ensures
        run(s, calls.take(n)).events.len() == s.events.len() + successes(s, calls, n),
        run(s, calls.take(n)).events[s.events.len() + successes(s, calls, i)] == outcome(s, calls, i)->Ok_0,
    decreases n,
{
    let upto = calls.take(n);
    assert(upto.drop_last() =~= calls.take(n - 1));
    assert(upto.last() == calls[n - 1]);
    events_length(s, calls, n - 1);
    events_length(s, calls, n);
    successes_grow(s, calls, i, n);
    let before = run(s, calls.take(n - 1));
    assert(run(s, upto) == apply(before, calls[n - 1]).0);
    if i < n - 1 {
        events_after_prefix(s, calls, n - 1, i);
        successes_grow(s, calls, i, n - 1);
    }
}

proof fn events_length(s: ProviderView, calls: Seq<Call>, n: int)
    requires
        0 <= n <= calls.len(),
    ensures
        run(s, calls.take(n)).events.len() == s.events.len() + successes(s, calls, n),
    decreases n,
{
    if n > 0 {
        let upto = calls.take(n);
        assert(upto.drop_last() =~= calls.take(n - 1));
        assert(upto.last() == calls[n - 1]);
        events_length(s, calls, n - 1);
    } else {
        assert(calls.take(0).len() == 0);
    }
}

/// Events are handed out in the order of the calls that succeed, starts and
/// stops of all deployments alike: the event of each successful call stands
/// behind the earlier events at the place that the number of successful
/// calls before it gives, so that of two successful calls the earlier one's
/// event comes first.
pub proof fn events_in_call_order(s: ProviderView, calls: Seq<Call>, i: int, j: int)
    requires
        0 <= i < j < calls.len(),
        outcome(s, calls, i) is Ok,
        outcome(s, calls, j) is Ok,
    ensures
        0 <= successes(s, calls, i) < successes(s, calls, j),
        s.events.len() + successes(s, calls, j) < run(s, calls).events.len(),
        run(s, calls).events[s.events.len() + successes(s, calls, i)] == outcome(s, calls, i)->Ok_0,
        run(s, calls).events[s.events.len() + successes(s, calls, j)] == outcome(s, calls, j)->Ok_0,
{
    let n: int = calls.len() as int;
    assert(calls.take(n) =~= calls);
    events_after_prefix(s, calls, n, i);
    events_after_prefix(s, calls, n, j);
    successes_grow(s, calls, i, j);
    successes_grow(s, calls, j, n);
}

/// Of two starts that succeed one after the other, the event of the first is
/// handed out before the event of the second, and both behind every earlier
/// event.
pub proof fn event_order(s: ProviderView, a: ManifestView, b: ManifestView)
    requires
        try_start_spec(s, a).1 is Ok,
        try_start_spec(try_start_spec(s, a).0, b).1 is Ok,
    ensures
        try_start_spec(try_start_spec(s, a).0, b).0.events == s.events + seq![EventView::Start(a), EventView::Start(b)],
{
    assert(s.events.push(EventView::Start(a)).push(EventView::Start(b)) =~= s.events + seq![
        EventView::Start(a),
        EventView::Start(b),
    ]);
}

/// A start driven through its state machine, each answer handed in when the
/// machine has asked for it: the provider afterwards, and the actions that
/// the machine asked for behind the first, in order.
pub open spec fn drive(
    s: ProviderView,
    id: Seq<char>,
    resolved: Result<ManifestView, Seq<char>>,
    loaded: Result<Seq<DataSource>, Seq<char>>,
    indexed: Result<(), Seq<char>>,
    reported: Result<(), Seq<char>>,
) -> (ProviderView, Seq<Option<ActionView>>) {
    let a = step_spec(s, id, StateView::Resolving, AnswerView::Resolved(resolved));
    if a.1 is Loading {
        let b = step_spec(a.0, id, a.1, AnswerView::Loaded(loaded));
        if b.1 is Indexing {
            let c = step_spec(b.0, id, b.1, AnswerView::Indexed(indexed));
            let d = step_spec(c.0, id, c.1, AnswerView::Sent);
            (d.0, seq![a.2, b.2, c.2, d.2])
        } else {
            let r = step_spec(b.0, id, b.1, AnswerView::Reported(reported));
            (r.0, seq![a.2, b.2, r.2])
        }
    } else {
        let r = step_spec(a.0, id, a.1, AnswerView::Reported(reported));
        (r.0, seq![a.2, r.2])
    }
}

/// The actions that a start with the given outcome calls for, behind the
/// fetch of the manifest.
pub open spec fn actions_of(
    id: Seq<char>,
    resolved: Result<ManifestView, Seq<char>>,
    outcome: Result<EventView, ErrorView>,
) -> Seq<Option<ActionView>> {
    match outcome {
        Ok(EventView::Start(m)) => seq![
            Some(ActionView::LoadDynamicDataSources(id)),
            Some(ActionView::BuildIndexes(m.id, m.schema)),
            Some(ActionView::Send(EventView::Start(m))),
            Some(ActionView::Return(Ok(()))),
        ],
        Ok(EventView::Stop(_)) => seq![],
        Err(e) => if resolved is Err {
            seq![Some(ActionView::MarkFailed(id)), Some(ActionView::Return(Err(e)))]
        } else {
            seq![
                Some(ActionView::LoadDynamicDataSources(id)),
                Some(ActionView::MarkFailed(id)),
                Some(ActionView::Return(Err(e))),
            ]
        },
    }
}

/// The state machine makes a start what a whole start is. It leaves the
/// provider as the start does. On success it asks for the load, the index
/// build and the send of the start event, in this order, and returns
/// success whether or not the indexes were built. On an error it asks for
/// the failure marker and returns that error whether or not the marker was
/// written.
pub proof fn machine_runs_a_start(
    s: ProviderView,
    id: Seq<char>,
    resolved: Result<ManifestView, Seq<char>>,
    loaded: Result<Seq<DataSource>, Seq<char>>,
    indexed: Result<(), Seq<char>>,
    reported: Result<(), Seq<char>>,
)
    ensures
        drive(s, id, resolved, loaded, indexed, reported).0 == start_spec(s, resolved, loaded).0,
        drive(s, id, resolved, loaded, indexed, reported).1 == actions_of(
            id,
            resolved,
            start_spec(s, resolved, loaded).1,
        ),
{
    assert(drive(s, id, resolved, loaded, indexed, reported).1 =~= actions_of(
        id,
        resolved,
        start_spec(s, resolved, loaded).1,
    ));
}

} // verus!

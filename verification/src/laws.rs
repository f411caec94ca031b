//! What holds of the counts and of the loop over any run of steps.

use crate::aggregate::{all_seen, bumped, count_in};
use crate::channel::Poll;
use crate::payload::{entry_text, is_body_of, lists_keys, object_text, Payload};
use crate::processor::{flush_finished, is_flush_of, steps, Action, FlushLoop};
use vstd::prelude::*;

verus! {

/// The counts after the evaluations in `events` were recorded, in their order.
pub open spec fn replay(counts: Map<u32, u32>, events: Seq<u32>) -> Map<u32, u32>
    decreases events.len(),
{
    if events.len() == 0 {
        counts
    } else {
        bumped(replay(counts, events.drop_last()), events.last())
    }
}

/// How many of `events` are evaluations of `id`.
pub open spec fn occurrences(events: Seq<u32>, id: u32) -> nat
    decreases events.len(),
{
    if events.len() == 0 {
        0
    } else {
        occurrences(events.drop_last(), id) + if events.last() == id {
            1nat
        } else {
            0nat
        }
    }
}

/// Recording a run of events raises the count of each identifier by the number
/// of its events in the run, as long as that count fits in a `u32`.
pub proof fn law_replay_counts(counts: Map<u32, u32>, events: Seq<u32>, id: u32)
    requires
        count_in(counts, id) + occurrences(events, id) <= u32::MAX,
    ensures
        count_in(replay(counts, events), id) == count_in(counts, id) + occurrences(events, id),
    decreases events.len(),
{
    if events.len() > 0 {
        law_replay_counts(counts, events.drop_last(), id);
    }
}

/// Of `n` events for one identifier, recorded since a flush, the counts hold
/// `n` for that identifier.
pub proof fn law_repeated_events(events: Seq<u32>, id: u32)
    requires
        events.len() <= u32::MAX,
        forall|i: int| 0 <= i < events.len() ==> events[i] == id,
    ensures
        count_in(replay(Map::<u32, u32>::empty(), events), id) == events.len(),
{
    lemma_all_occur(events, id);
    law_replay_counts(Map::<u32, u32>::empty(), events, id);
}

proof fn lemma_all_occur(events: Seq<u32>, id: u32)
    requires
        forall|i: int| 0 <= i < events.len() ==> events[i] == id,
    ensures
        occurrences(events, id) == events.len(),
    decreases events.len(),
{
    if events.len() > 0 {
        lemma_all_occur(events.drop_last(), id);
    }
}

/// After a run of events an identifier has an entry exactly if it had one
/// before or one of the events was for it.
pub proof fn law_entry_iff_seen(counts: Map<u32, u32>, events: Seq<u32>, id: u32)
    ensures
        replay(counts, events).contains_key(id) <==> counts.contains_key(id) || occurrences(
            events,
            id,
        ) > 0,
    decreases events.len(),
{
    if events.len() > 0 {
        law_entry_iff_seen(counts, events.drop_last(), id);
    }
}

/// Recording keeps the invariant of the counts.
pub proof fn law_bump_keeps_seen(counts: Map<u32, u32>, id: u32)
    requires
        all_seen(counts),
        count_in(counts, id) < u32::MAX,
    ensures
        all_seen(bumped(counts, id)),
{
}

/// A run of steps of the loop, each on one received event: `states` holds the
/// state before the first step and the state after each.
pub open spec fn is_run(
    states: Seq<FlushLoop>,
    events: Seq<u32>,
    times: Seq<i64>,
    actions: Seq<Action>,
) -> bool {
    &&& states.len() == events.len() + 1
    &&& times.len() == events.len()
    &&& actions.len() == events.len()
    &&& forall|i: int|
        0 <= i < events.len() ==> steps(
            states[i],
            Poll::Received(#[trigger] events[i]),
            times[i],
            states[i + 1],
            actions[i],
        )
}

/// The loop counts what it receives: after a run of steps of a running loop,
/// with no flush finished in between, the counts are those before the run
/// with every received event recorded.
pub proof fn law_run_records_events(
    states: Seq<FlushLoop>,
    events: Seq<u32>,
    times: Seq<i64>,
    actions: Seq<Action>,
)
    requires
        is_run(states, events, times, actions),
        !states[0].terminated,
    ensures
        !states.last().terminated,
        states.last().aggregate@ == replay(states[0].aggregate@, events),
    decreases events.len(),
{
    if events.len() > 0 {
        let n = events.len() - 1;
        let before = states.drop_last();
        let earlier = events.drop_last();
        assert forall|i: int| 0 <= i < earlier.len() implies steps(
            before[i],
            Poll::Received(#[trigger] earlier[i]),
            times.drop_last()[i],
            before[i + 1],
            actions.drop_last()[i],
        ) by {
            assert(earlier[i] == events[i]);
        }
        law_run_records_events(before, earlier, times.drop_last(), actions.drop_last());
        assert(before.last() == states[n]);
        assert(steps(states[n], Poll::Received(events[n]), times[n], states[n + 1], actions[n]));
    }
}

/// A window in which nothing was recorded sends nothing, and the loop goes on:
/// a step on an empty channel with no counts either idles or asks for a flush
/// without a body, and never stops.
pub proof fn law_empty_window_sends_nothing(
    pre: FlushLoop,
    now: i64,
    post: FlushLoop,
    action: Action,
)
    requires
        !pre.terminated,
        pre.aggregate@ == Map::<u32, u32>::empty(),
        steps(pre, Poll::Empty, now, post, action),
    ensures
        !post.terminated,
        post.aggregate@ == Map::<u32, u32>::empty(),
        pre.window.expired(now) ==> action == Action::Flush(Payload::Nothing),
        !pre.window.expired(now) ==> action is Idle,
{
}

/// A step that finds the channel disconnected stops the loop, whether or not
/// the window is over, and asks for no flush.
pub proof fn law_disconnection_stops(
    pre: FlushLoop,
    now: i64,
    post: FlushLoop,
    action: Action,
)
    requires
        steps(pre, Poll::Disconnected, now, post, action),
    ensures
        action is Stop,
        post.terminated,
        post.aggregate@ == pre.aggregate@,
{
}

/// Once stopped, the loop stays stopped: every later step asks for nothing and
/// leaves the counts and the window as they were.
pub proof fn law_stopped_stays_stopped(
    pre: FlushLoop,
    poll: Poll,
    now: i64,
    post: FlushLoop,
    action: Action,
)
    requires
        pre.terminated,
        steps(pre, poll, now, post, action),
    ensures
        action is Stop,
        post.terminated,
        post.aggregate@ == pre.aggregate@,
        post.window == pre.window,
{
}

/// The body for a single entry is one text: the entry between braces.
pub proof fn law_single_entry_body(text: Seq<char>, id: u32, count: u32)
    requires
        is_body_of(text, Map::<u32, u32>::empty().insert(id, count)),
    ensures
        text == seq!['{'] + entry_text(id, count) + seq!['}'],
{
    let counts = Map::<u32, u32>::empty().insert(id, count);
    let order = choose|order: Seq<u32>| #[trigger]
        lists_keys(order, counts) && text == object_text(order, counts);
    assert(counts.dom().contains(id));
    assert(order.to_set().contains(id));
    assert(order.contains(id));
    if order.len() >= 2 {
        assert(order.to_set().contains(order[0]));
        assert(order.to_set().contains(order[1]));
        assert(counts.dom().contains(order[0]));
        assert(counts.dom().contains(order[1]));
    }
    assert(order.len() == 1);
    assert(order.to_set().contains(order[0]));
    assert(counts.dom().contains(order[0]));
    assert(order[0] == id);
}

/// A flush attempt ends the window whatever became of the transmission. After
/// a step that asked for a flush, and the end of the attempt at a time not
/// before the step: the flush was of the counts as they stood after the
/// step, whole in one body unless there were none; there are no counts left, the next window starts at the end of the attempt,
/// which lies more than a window after the last start, and the loop runs on.
pub proof fn law_flush_attempt_resets(
    pre: FlushLoop,
    poll: Poll,
    now: i64,
    due: FlushLoop,
    action: Action,
    delivered: bool,
    end: i64,
    post: FlushLoop,
)
    requires
        steps(pre, poll, now, due, action),
        action is Flush,
        end >= now,
        flush_finished(due, end, post),
    ensures
        due.aggregate@ == pre.counts_after(poll),
        is_flush_of(action, due.aggregate@),
        post.aggregate@ == Map::<u32, u32>::empty(),
        post.window.last_flushed == end,
        post.window.duration == pre.window.duration,
        end - pre.window.last_flushed > pre.window.duration,
        !post.terminated,
{
}

/// At most one flush per window: a step that asks for a flush comes more than
/// a window after the end of the attempt that started its window.
pub proof fn law_one_flush_per_window(
    before: FlushLoop,
    started: i64,
    after: FlushLoop,
    pre: FlushLoop,
    poll: Poll,
    now: i64,
    post: FlushLoop,
    action: Action,
)
    requires
        flush_finished(before, started, after),
        pre.window == after.window,
        steps(pre, poll, now, post, action),
        action is Flush,
    ensures
        now - started > before.window.duration,
        post.window == after.window,
{
}

/// Two events for one identifier, the second received when the window is
/// over: the step asks for a flush whose body holds the count two for that
/// identifier and nothing else.
pub proof fn law_second_event_flushes_both(
    pre: FlushLoop,
    id: u32,
    first: i64,
    mid: FlushLoop,
    idle: Action,
    second: i64,
    post: FlushLoop,
    action: Action,
)
    requires
        !pre.terminated,
        pre.aggregate@ == Map::<u32, u32>::empty(),
        steps(pre, Poll::Received(id), first, mid, idle),
        steps(mid, Poll::Received(id), second, post, action),
        pre.window.expired(second),
    ensures
        count_in(post.aggregate@, id) == 2,
        action matches Action::Flush(Payload::Body(text)) && text@ == seq!['{'] + entry_text(id, 2)
            + seq!['}'],
{
    let counts = Map::<u32, u32>::empty().insert(id, 2u32);
    assert(post.aggregate@ =~= counts);
    assert(counts.contains_key(id));
    assert(counts != Map::<u32, u32>::empty());
    if let Action::Flush(Payload::Body(text)) = action {
        law_single_entry_body(text@, id, 2);
    }
}

} // verus!

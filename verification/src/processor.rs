//! The processor: the handle that callers record evaluations through, and the
//! state of the loop that counts them and flushes the counts.

use crate::aggregate::{bumped, count_in, Aggregate};
use crate::channel::{offer, open_channel, take, Poll, SendOutcome, CHANNEL_CAPACITY};
use crate::clock::now_millis;
use crate::payload::{is_body_of, Payload};
use crate::window::{duration_for, FlushWindow};
use std::sync::mpsc::{Receiver, SyncSender};
use vstd::prelude::*;
use vstd::string::*;

verus! {

/// What the loop's driver does after one step.
#[derive(Debug)]
pub enum Action {
    /// Nothing; poll again.
    Idle,
    /// The window is over. Transmit the payload's body, if it has one, then
    /// finish the flush whether or not the transmission succeeded.
    Flush(Payload),
    /// Leave the loop for good.
    Stop,
}

/// Why an evaluation could not be recorded.
#[derive(Clone, Copy, Debug, PartialEq, Eq, Structural)]
pub enum TrackError {
    /// The loop that counts the events no longer exists.
    Disconnected,
}

/// The sending side, held by the callers.
#[derive(Clone, Debug)]
pub struct AnalyticsProcessor {
    pub tx: SyncSender<u32>,
}

/// The state of the counting loop.
#[derive(Debug)]
pub struct FlushLoop {
    pub aggregate: Aggregate,
    pub window: FlushWindow,
    /// Where the bodies are sent.
    pub endpoint: String,
    /// Set once the channel was found disconnected.
    pub terminated: bool,
}

/// What a caller of `track_feature` is told for each outcome of the send: a
/// full channel loses the event without a word, a disconnected one is an
/// error.
pub fn send_result(outcome: SendOutcome) -> (result: Result<(), TrackError>)
    ensures
        result == match outcome {
            SendOutcome::Sent => Ok::<(), TrackError>(()),
            SendOutcome::Full => Ok::<(), TrackError>(()),
            SendOutcome::Disconnected => Err::<(), TrackError>(TrackError::Disconnected),
        },
{
    match outcome {
        SendOutcome::Sent => Ok(()),
        SendOutcome::Full => Ok(()),
        SendOutcome::Disconnected => Err(TrackError::Disconnected),
    }
}

/// `action` is a flush of `counts`: nothing to send where there are no
/// counts, and else a body that encodes them.
pub open spec fn is_flush_of(action: Action, counts: Map<u32, u32>) -> bool {
    &&& action matches Action::Flush(payload)
    &&& if counts == Map::<u32, u32>::empty() {
        payload is Nothing
    } else {
        payload matches Payload::Body(text) && is_body_of(text@, counts)
    }
}

/// The end of a flush attempt at time `now`: from `pre` to `post`.
pub open spec fn flush_finished(pre: FlushLoop, now: i64, post: FlushLoop) -> bool {
    &&& post.aggregate@ == Map::<u32, u32>::empty()
    &&& post.window.last_flushed == now
    &&& post.window.duration == pre.window.duration
    &&& post.endpoint@ == pre.endpoint@
    &&& post.terminated == pre.terminated
}

/// One step of the loop: from `pre`, on `poll` at time `now`, to `post` and
/// `action`.
pub open spec fn steps(pre: FlushLoop, poll: Poll, now: i64, post: FlushLoop, action: Action) -> bool {
    &&& post.terminated == pre.stops(poll)
    &&& post.aggregate@ == pre.counts_after(poll)
    &&& post.window == pre.window
    &&& post.endpoint@ == pre.endpoint@
    &&& if pre.stops(poll) {
        action is Stop
    } else if pre.window.expired(now) {
        is_flush_of(action, post.aggregate@)
    } else {
        action is Idle
    }
}

impl AnalyticsProcessor {
    /// Opens the channel and starts a flush window at the current time.
    /// Returns the handle for the callers, and the receiving end and the
    /// loop's state for the driver of the loop.
    pub fn new(api_url: String, timer: Option<u64>) -> (parts: (
        AnalyticsProcessor,
        Receiver<u32>,
        FlushLoop,
    ))
        ensures
            parts.2.wf(),
            parts.2.aggregate@ == Map::<u32, u32>::empty(),
            parts.2.window.duration == duration_for(timer),
            parts.2.endpoint@ == api_url@ + "analytics/flags/"@,
            !parts.2.terminated,
    {
        let (tx, rx) = open_channel(CHANNEL_CAPACITY);
        let state = FlushLoop::starting_at(api_url, timer, now_millis());
        (AnalyticsProcessor { tx }, rx, state)
    }

    /// Offers one evaluation of `feature_id` to the loop without waiting. Fails
    /// only where the loop is gone; an event that finds the channel full is
    /// dropped.
    pub fn track_feature(&self, feature_id: u32) -> (result: Result<(), TrackError>)
        ensures
            result is Err ==> result == Err::<(), TrackError>(TrackError::Disconnected),
    {
        send_result(offer(&self.tx, feature_id))
    }
}

impl FlushLoop {
    pub open spec fn wf(&self) -> bool {
        self.aggregate.wf()
    }

    /// The step on `poll` leaves the loop.
    pub open spec fn stops(self, poll: Poll) -> bool {
        self.terminated || poll is Disconnected
    }

    /// The counts after the step on `poll`.
    pub open spec fn counts_after(self, poll: Poll) -> Map<u32, u32> {
        match poll {
            Poll::Received(id) if !self.terminated => bumped(self.aggregate@, id),
            _ => self.aggregate@,
        }
    }

    /// The step on `poll` can be taken without a count passing `u32::MAX`.
    pub open spec fn has_room_for(self, poll: Poll) -> bool {
        poll matches Poll::Received(id) ==> self.terminated || count_in(self.aggregate@, id)
            < u32::MAX
    }

    /// A running loop with no counts, whose window starts at `now`.
    pub fn starting_at(api_url: String, timer: Option<u64>, now: i64) -> (state: FlushLoop)
        ensures
            state.wf(),
            state.aggregate@ == Map::<u32, u32>::empty(),
            state.window.last_flushed == now,
            state.window.duration == duration_for(timer),
            state.endpoint@ == api_url@ + "analytics/flags/"@,
            !state.terminated,
    {
        FlushLoop {
            aggregate: Aggregate::new(),
            window: FlushWindow::new(timer, now),
            endpoint: api_url.concat("analytics/flags/"),
            terminated: false,
        }
    }

    /// One iteration: counts the polled event, or stops on disconnection, then
    /// asks for a flush where the window is over.
    pub fn on_poll(&mut self, poll: Poll, now: i64) -> (action: Action)
        requires
            old(self).wf(),
            old(self).has_room_for(poll),
        ensures
            final(self).wf(),
            steps(*old(self), poll, now, *final(self), action),
    {
        if self.terminated {
            return Action::Stop;
        }
        match poll {
            Poll::Received(id) => {
                self.aggregate.record(id);
            },
            Poll::Empty => {},
            Poll::Disconnected => {
                self.terminated = true;
                return Action::Stop;
            },
        }
        if self.window.is_due(now) {
            Action::Flush(self.aggregate.payload())
        } else {
            Action::Idle
        }
    }

    /// Ends a flush attempt at `now`, whatever became of the transmission: the
    /// counts are dropped and the next window starts.
    pub fn finish_flush_at(&mut self, now: i64)
        ensures
            final(self).wf(),
            flush_finished(*old(self), now, *final(self)),
    {
        self.aggregate.clear();
        self.window.restart(now);
    }

    /// Ends a flush attempt at the current time.
    pub fn finish_flush(&mut self)
        ensures
            final(self).wf(),
            final(self).aggregate@ == Map::<u32, u32>::empty(),
            final(self).window.duration == old(self).window.duration,
            final(self).endpoint@ == old(self).endpoint@,
            final(self).terminated == old(self).terminated,
    {
        self.finish_flush_at(now_millis());
    }

    /// One iteration where it can be taken: as `on_poll`, but none, with the
    /// state untouched, exactly where the polled event would take its count
    /// past `u32::MAX`.
    pub fn step(&mut self, poll: Poll, now: i64) -> (taken: Option<Action>)
        requires
            old(self).wf(),
        ensures
            final(self).wf(),
            taken is None <==> !old(self).has_room_for(poll),
            match taken {
                Some(action) => steps(*old(self), poll, now, *final(self), action),
                None => *final(self) == *old(self),
            },
    {
        let fits: bool = match poll {
            Poll::Received(id) => self.terminated || self.aggregate.has_room(id),
            _ => true,
        };
        if fits {
            Some(self.on_poll(poll, now))
        } else {
            None
        }
    }

    /// Polls the channel, reads the clock and takes one step on what they
    /// gave. Returns none, with the state untouched, where the polled event
    /// would take its count past `u32::MAX`: that can only be where the loop
    /// runs and some count stands at that limit.
    pub fn tick(&mut self, rx: &Receiver<u32>) -> (taken: Option<Action>)
        requires
            old(self).wf(),
        ensures
            final(self).wf(),
            match taken {
                Some(action) => exists|poll: Poll, now: i64|
                    old(self).has_room_for(poll) && #[trigger] steps(
                        *old(self),
                        poll,
                        now,
                        *final(self),
                        action,
                    ),
                None => {
                    &&& *final(self) == *old(self)
                    &&& !old(self).terminated
                    &&& exists|id: u32| #[trigger] count_in(old(self).aggregate@, id) == u32::MAX
                },
            },
    {
        let poll = take(rx);
        let now: i64 = now_millis();
        let taken = self.step(poll, now);
        proof {
            if let Poll::Received(id) = poll {
                if taken is None {
                    assert(count_in(old(self).aggregate@, id) == u32::MAX);
                }
            }
        }
        taken
    }
}

} // verus!

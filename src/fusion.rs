//! The hand-off from the range-polling worker to the main cycle: a channel
//! that holds only the latest unread sample, and the worker's decisions.

use vstd::prelude::*;
use crate::baseline::RangeSample;

verus! {

/// What an attempt to send into the channel came to.
#[derive(Clone, Copy, Debug, PartialEq, Eq, Structural)]
pub enum SendOutcome {
    /// The sample is now the latest unread one.
    Delivered,
    /// The receiving end is gone; nothing was stored.
    Closed,
}

/// What the worker does with a sensor failure.
#[derive(Clone, Copy, Debug, PartialEq, Eq, Structural)]
pub enum FailurePolicy {
    /// Stop at the first failure.
    FailStop,
    /// Drop the failed poll and poll again.
    SkipAndContinue,
}

/// What one blocking poll of the range sensor gave.
#[derive(Clone, Copy, Debug, PartialEq, Eq, Structural)]
pub enum PollOutcome {
    Sample(RangeSample),
    Failed,
}

/// The worker's next step.
#[derive(Clone, Copy, Debug, PartialEq, Eq, Structural)]
pub enum WorkerAction {
    /// Send this sample into the channel.
    Send(RangeSample),
    /// Poll the sensor again.
    Poll,
    /// Leave the loop; the worker ends.
    Stop,
}

/// What a channel holds: the latest unread sample, and whether its
/// receiving end still exists.
pub ghost struct ChannelView {
    pub pending: Option<RangeSample>,
    pub open: bool,
}

/// The channel after a send of `s`: an open one keeps `s` in place of any
/// unread sample; a closed one is left as it was.
pub open spec fn after_send(c: ChannelView, s: RangeSample) -> ChannelView {
    if c.open {
        ChannelView { pending: Some(s), ..c }
    } else {
        c
    }
}

pub open spec fn send_outcome(c: ChannelView) -> SendOutcome {
    if c.open {
        SendOutcome::Delivered
    } else {
        SendOutcome::Closed
    }
}

/// The channel after a non-blocking receive: nothing is left unread.
pub open spec fn after_receive(c: ChannelView) -> ChannelView {
    ChannelView { pending: None, ..c }
}

/// The channel once its receiving end is dropped.
pub open spec fn after_close(c: ChannelView) -> ChannelView {
    ChannelView { pending: None, open: false }
}

pub open spec fn action_after_poll(p: FailurePolicy, o: PollOutcome) -> WorkerAction {
    match o {
        PollOutcome::Sample(s) => WorkerAction::Send(s),
        PollOutcome::Failed => match p {
            FailurePolicy::FailStop => WorkerAction::Stop,
            FailurePolicy::SkipAndContinue => WorkerAction::Poll,
        },
    }
}

pub open spec fn action_after_send(o: SendOutcome) -> WorkerAction {
    match o {
        SendOutcome::Delivered => WorkerAction::Poll,
        SendOutcome::Closed => WorkerAction::Stop,
    }
}

/// A single-slot channel with "latest value wins" semantics. It never holds
/// more than one sample, so it applies no backpressure and accumulates
/// nothing; a receive never waits.
pub struct FusionChannel {
    pending: Option<RangeSample>,
    open: bool,
}

impl View for FusionChannel {
    type V = ChannelView;

    closed spec fn view(&self) -> ChannelView {
        ChannelView { pending: self.pending, open: self.open }
    }
}

impl FusionChannel {
    /// An open channel with nothing unread.
    pub fn new() -> (r: FusionChannel)
        ensures
            r@ == (ChannelView { pending: None, open: true }),
    {
        FusionChannel { pending: None, open: true }
    }

    /// Offers a sample; fails once the receiving end is gone.
    pub fn send(&mut self, sample: RangeSample) -> (r: SendOutcome)
        ensures
            r == send_outcome(old(self)@),
            final(self)@ == after_send(old(self)@, sample),
    {
        if self.open {
            self.pending = Some(sample);
            SendOutcome::Delivered
        } else {
            SendOutcome::Closed
        }
    }

    /// Takes the latest unread sample, if there is one, without waiting.
    pub fn try_receive(&mut self) -> (r: Option<RangeSample>)
        ensures
            r == old(self)@.pending,
            final(self)@ == after_receive(old(self)@),
    {
        let r = self.pending;
        self.pending = None;
        r
    }

    /// Drops the receiving end: every later send fails.
    pub fn close(&mut self)
        ensures
            final(self)@ == after_close(old(self)@),
    {
        self.pending = None;
        self.open = false;
    }

    pub fn is_open(&self) -> (r: bool)
        ensures
            r == self@.open,
    {
        self.open
    }
}

/// The worker's step after a poll: a sample is sent; a failure stops the
/// worker or is skipped, as the policy says.
pub fn worker_after_poll(policy: FailurePolicy, outcome: PollOutcome) -> (r: WorkerAction)
    ensures
        r == action_after_poll(policy, outcome),
{
    match outcome {
        PollOutcome::Sample(s) => WorkerAction::Send(s),
        PollOutcome::Failed => match policy {
            FailurePolicy::FailStop => WorkerAction::Stop,
            FailurePolicy::SkipAndContinue => WorkerAction::Poll,
        },
    }
}

/// The worker's step after a send: it polls again while the channel is
/// open, and stops once a send fails, which is its only way to end.
pub fn worker_after_send(outcome: SendOutcome) -> (r: WorkerAction)
    ensures
        r == action_after_send(outcome),
{
    match outcome {
        SendOutcome::Delivered => WorkerAction::Poll,
        SendOutcome::Closed => WorkerAction::Stop,
    }
}

/// Once the receiving end is dropped, the worker's next successful poll
/// leads to a send that fails and leaves the channel unchanged, and the
/// worker stops right after it: it ends within one poll cycle.
pub proof fn lemma_worker_stops_once_closed(
    c: ChannelView,
    policy: FailurePolicy,
    sample: RangeSample,
)
    ensures
        action_after_poll(policy, PollOutcome::Sample(sample)) == WorkerAction::Send(sample),
        send_outcome(after_close(c)) == SendOutcome::Closed,
        after_send(after_close(c), sample) == after_close(c),
        action_after_send(send_outcome(after_close(c))) == WorkerAction::Stop,
{
}

/// Of several samples sent between two receives, the receive sees the last
/// one only, and a second receive sees none: nothing is replayed.
pub proof fn lemma_latest_sample_wins(c: ChannelView, first: RangeSample, second: RangeSample)
    requires
        c.open,
    ensures
        after_send(after_send(c, first), second).pending == Some(second),
        after_receive(after_send(after_send(c, first), second)).pending is None,
{
}

} // verus!

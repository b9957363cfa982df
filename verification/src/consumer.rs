//! The frame consumer: it keeps the preview close to real time by dropping
//! a backlog down to its newest frame, folds pending option updates into
//! its snapshot, and sorts each frame under that snapshot.

use vstd::prelude::*;
use crate::channel::{pending, take_pending};
use crate::frame::Frame;
use crate::options::{ConfigUpdate, TransformOptions};
use crate::sorter::{transform, transformed};

verus! {

/// The consumer has fallen behind when more frames than this are waiting.
pub const BACKLOG_THRESHOLD: usize = 3;

/// How many of `depth` waiting frames are dropped: none while the depth is
/// within the threshold, otherwise all but the newest.
pub open spec fn discard_count(depth: nat) -> nat {
    if depth > BACKLOG_THRESHOLD {
        (depth - 1) as nat
    } else {
        0
    }
}

/// The number of waiting frames to drop, oldest first, at the given depth.
/// The newest waiting frame is never among them.
pub fn frames_to_discard(depth: usize) -> (count: usize)
    ensures
        count == discard_count(depth as nat),
        depth > 0 ==> count < depth,
{
    if depth > BACKLOG_THRESHOLD {
        depth - 1
    } else {
        0
    }
}

/// What one inspection of the frame channel found and did.
#[derive(Clone, Copy, Debug, PartialEq, Eq, Structural)]
pub struct BacklogReport {
    /// Frames waiting when the channel was inspected.
    pub depth: usize,
    /// Frames taken from the channel and dropped.
    pub discarded: usize,
    /// Whether the channel had nothing more to give before the policy's
    /// count was reached.
    pub ran_dry: bool,
}

impl BacklogReport {
    /// The number of frames that the policy drops at the inspected depth.
    pub open spec fn goal(self) -> nat {
        discard_count(self.depth as nat)
    }

    /// More frames are to be taken: the policy's count is not reached and
    /// the channel has not yet failed to give one.
    pub open spec fn unsettled(self) -> bool {
        self.discarded < self.goal() && !self.ran_dry
    }

    /// What holds of a report while frames are taken: never more dropped
    /// than the policy counts, and the channel ran dry only short of that
    /// count.
    pub open spec fn consistent(self) -> bool {
        &&& self.discarded <= self.goal()
        &&& self.ran_dry ==> self.discarded < self.goal()
    }

    /// A finished report that the policy allows: never more frames dropped
    /// than the policy counts at the inspected depth, and fewer exactly when
    /// the channel ran dry.
    pub open spec fn within_policy(self) -> bool {
        &&& self.discarded <= self.goal()
        &&& self.ran_dry <==> self.discarded < self.goal()
    }

    /// The report after the channel answered one more attempt to take a
    /// frame: a frame taken is a frame dropped, a failure to take one means
    /// that the channel ran dry. A settled report takes no further answer.
    pub open spec fn after(self, took: bool) -> BacklogReport {
        if !self.unsettled() {
            self
        } else if took {
            BacklogReport { depth: self.depth, discarded: (self.discarded + 1) as usize, ran_dry: false }
        } else {
            BacklogReport { depth: self.depth, discarded: self.discarded, ran_dry: true }
        }
    }

    /// The report of an inspection that found `depth` frames waiting, before
    /// any is dropped.
    pub fn inspected(depth: usize) -> (report: BacklogReport)
        ensures
            report == (BacklogReport { depth, discarded: 0, ran_dry: false }),
    {
        BacklogReport { depth, discarded: 0, ran_dry: false }
    }

    /// Whether another frame is to be taken from the channel.
    pub fn wants_more(&self) -> (more: bool)
        ensures
            more == self.unsettled(),
    {
        self.discarded < frames_to_discard(self.depth) && !self.ran_dry
    }

    /// Records the channel's answer to one attempt to take a frame.
    pub fn record(self, took: bool) -> (next: BacklogReport)
        ensures
            next == self.after(took),
    {
        if !self.wants_more() {
            self
        } else if took {
            BacklogReport { depth: self.depth, discarded: self.discarded + 1, ran_dry: false }
        } else {
            BacklogReport { depth: self.depth, discarded: self.discarded, ran_dry: true }
        }
    }
}

/// Inspects the frame channel and drops the backlog, oldest frames first:
/// it takes frames until the policy's count at the inspected depth is
/// reached or the channel has none to give. Whatever the channel answers,
/// the report is finished and within the policy.
pub fn relieve_backlog<T>(frames: &flume::Receiver<T>) -> (report: BacklogReport)
    ensures
        report.within_policy(),
{
    let mut report = BacklogReport::inspected(pending(frames));
    while report.wants_more()
        invariant
            report.consistent(),
        decreases report.goal() - report.discarded + if report.ran_dry { 0int } else { 1int },
    {
        let took = take_pending(frames).is_some();
        report = report.record(took);
    }
    report
}

/// Takes the option updates that wait in the channel, in arrival order,
/// without blocking: at most as many as were waiting at the first look.
fn pending_updates(updates: &flume::Receiver<ConfigUpdate>) -> (batch: Vec<ConfigUpdate>) {
    let limit = pending(updates);
    let mut batch: Vec<ConfigUpdate> = Vec::new();
    let mut open = true;
    while batch.len() < limit && open
        invariant
            batch.len() <= limit,
        decreases limit - batch.len() + if open { 1int } else { 0int },
    {
        match take_pending(updates) {
            Some(update) => {
                batch.push(update);
            },
            None => {
                open = false;
            },
        }
    }
    batch
}

/// The consumer's state: the one current snapshot of the options.
#[derive(Clone, Copy, Debug, PartialEq, Eq, Structural)]
pub struct FrameConsumer {
    pub options: TransformOptions,
}

impl FrameConsumer {
    /// A consumer that starts from the given options.
    pub fn new(options: TransformOptions) -> (consumer: FrameConsumer)
        ensures
            consumer.options == options,
    {
        FrameConsumer { options }
    }

    /// Folds `updates` into the snapshot, in arrival order, and sorts
    /// `frame` under the snapshot that results. Every later frame is sorted
    /// under that snapshot too, until further updates arrive.
    pub fn process(&mut self, frame: Frame, updates: &Vec<ConfigUpdate>) -> (out: Frame)
        ensures
            final(self).options == old(self).options.fold(updates@),
            out@ == transformed(frame@, final(self).options),
    {
        self.options.apply_updates(updates);
        transform(frame, &self.options)
    }

    /// One turn of the consumer on a received frame: takes the updates that
    /// wait in `updates`, then processes the frame as `process` does. The
    /// updates taken are returned beside the sorted frame.
    pub fn turn(&mut self, frame: Frame, updates: &flume::Receiver<ConfigUpdate>) -> (done: (
        Frame,
        Vec<ConfigUpdate>,
    ))
        ensures
            final(self).options == old(self).options.fold(done.1@),
            done.0@ == transformed(frame@, final(self).options),
    {
        let batch = pending_updates(updates);
        let out = self.process(frame, &batch);
        (out, batch)
    }
}

} // verus!

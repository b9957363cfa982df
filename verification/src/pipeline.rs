//! A model of the frame path from capture device to presentation sink, and
//! the laws of order and freshness that hold of every run.
//!
//! The frame channel is an unbounded first-in first-out queue. The producer
//! appends; the consumer inspects the queue, drops what the backlog policy
//! counts, and then receives the oldest frame left. Frames that arrive
//! while the consumer is dropping stand behind the frames it drops, so an
//! inspection together with its drops acts on the queue as one step.

use vstd::prelude::*;
use crate::consumer::discard_count;

verus! {

/// What can happen to the frame path.
pub enum PipelineEvent<T> {
    /// The capture device yielded a frame and the source sent it.
    Produced(T),
    /// The consumer inspected the channel and dropped the backlog.
    Inspected,
    /// The consumer received the oldest waiting frame and presented it. With
    /// nothing waiting the consumer blocks, and nothing changes.
    Received,
}

/// The frame path at one moment.
pub struct Pipeline<T> {
    /// Every frame that the source has sent, in the order of capture.
    pub produced: Seq<T>,
    /// The frames that wait in the channel, oldest first.
    pub queue: Seq<T>,
    /// The frames that reached the sink, in the order of presentation.
    pub presented: Seq<T>,
}

/// `at` places each element of `part`, in order, at a position of `whole`
/// that holds the same element, at strictly increasing positions.
pub open spec fn embeds<T>(part: Seq<T>, whole: Seq<T>, at: Seq<int>) -> bool {
    &&& at.len() == part.len()
    &&& forall|i: int| 0 <= i < at.len() ==> 0 <= #[trigger] at[i] < whole.len() && part[i] == whole[at[i]]
    &&& forall|i: int, j: int| 0 <= i < j < at.len() ==> at[i] < at[j]
}

/// `part` can be had from `whole` by leaving elements out, keeping the
/// order of those that stay.
pub open spec fn is_subsequence<T>(part: Seq<T>, whole: Seq<T>) -> bool {
    exists|at: Seq<int>| embeds(part, whole, at)
}

impl<T> Pipeline<T> {
    /// The frame path before anything happened.
    pub open spec fn start() -> Pipeline<T> {
        Pipeline { produced: Seq::empty(), queue: Seq::empty(), presented: Seq::empty() }
    }

    /// The queue after an inspection: the backlog policy's count of frames
    /// has left it from the front.
    pub open spec fn queue_after_inspection(self) -> Seq<T> {
        self.queue.skip(discard_count(self.queue.len()) as int)
    }

    /// The frame path after one event.
    pub open spec fn step(self, event: PipelineEvent<T>) -> Pipeline<T> {
        match event {
            PipelineEvent::Produced(frame) => Pipeline {
                produced: self.produced.push(frame),
                queue: self.queue.push(frame),
                presented: self.presented,
            },
            PipelineEvent::Inspected => Pipeline {
                produced: self.produced,
                queue: self.queue_after_inspection(),
                presented: self.presented,
            },
            PipelineEvent::Received => if self.queue.len() > 0 {
                Pipeline {
                    produced: self.produced,
                    queue: self.queue.skip(1),
                    presented: self.presented.push(self.queue[0]),
                }
            } else {
                self
            },
        }
    }

    /// The frame path after a run of events, from the start.
    pub open spec fn run(events: Seq<PipelineEvent<T>>) -> Pipeline<T>
        decreases events.len(),
    {
        if events.len() == 0 {
            Self::start()
        } else {
            Self::run(events.drop_last()).step(events.last())
        }
    }

    /// The number of produced frames that have left the queue.
    pub open spec fn consumed(self) -> int {
        self.produced.len() - self.queue.len()
    }

    /// The queue is the tail of what was produced, and the presented frames
    /// sit, in order, among the produced frames that have left the queue.
    pub open spec fn ordered(self, at: Seq<int>) -> bool {
        &&& 0 <= self.consumed()
        &&& self.queue == self.produced.skip(self.consumed())
        &&& embeds(self.presented, self.produced, at)
        &&& forall|i: int| 0 <= i < at.len() ==> #[trigger] at[i] < self.consumed()
    }

    /// One event keeps the frame path ordered.
    proof fn lemma_step_ordered(self, event: PipelineEvent<T>, at: Seq<int>) -> (next_at: Seq<int>)
        requires
            self.ordered(at),
        ensures
            self.step(event).ordered(next_at),
    {
        let next = self.step(event);
        match event {
            PipelineEvent::Produced(frame) => {
                assert(next.queue =~= next.produced.skip(next.consumed()));
                at
            },
            PipelineEvent::Inspected => {
                assert(next.queue =~= next.produced.skip(next.consumed()));
                at
            },
            PipelineEvent::Received => {
                if self.queue.len() > 0 {
                    let next_at = at.push(self.consumed());
                    assert(next.queue =~= next.produced.skip(next.consumed()));
                    assert(self.queue[0] == self.produced[self.consumed()]);
                    assert forall|i: int| 0 <= i < next_at.len() implies 0 <= #[trigger] next_at[i]
                        < next.produced.len() && next.presented[i] == next.produced[next_at[i]] by {
                        if i < at.len() {
                            assert(next_at[i] == at[i]);
                        }
                    }
                    assert forall|i: int, j: int| 0 <= i < j < next_at.len() implies next_at[i]
                        < next_at[j] by {
                        assert(next_at[i] == at[i]);
                        if j < at.len() {
                            assert(next_at[j] == at[j]);
                        }
                    }
                    assert forall|i: int| 0 <= i < next_at.len() implies #[trigger] next_at[i]
                        < next.consumed() by {
                        if i < at.len() {
                            assert(next_at[i] == at[i]);
                        }
                    }
                    next_at
                } else {
                    at
                }
            },
        }
    }

    /// Every run leaves the frame path ordered.
    proof fn lemma_run_ordered(events: Seq<PipelineEvent<T>>) -> (at: Seq<int>)
        ensures
            Self::run(events).ordered(at),
        decreases events.len(),
    {
        if events.len() == 0 {
            let at = Seq::<int>::empty();
            assert(Self::start().queue =~= Self::start().produced.skip(0));
            at
        } else {
            let before = Self::lemma_run_ordered(events.drop_last());
            Self::run(events.drop_last()).lemma_step_ordered(events.last(), before)
        }
    }

    /// Frame ordering: in every run, the frames that the sink has seen are a
    /// subsequence of the frames that the capture device produced, in the
    /// same relative order.
    pub proof fn lemma_presented_in_capture_order(events: Seq<PipelineEvent<T>>)
        ensures
            is_subsequence(Self::run(events).presented, Self::run(events).produced),
    {
        let at = Self::lemma_run_ordered(events);
        assert(embeds(Self::run(events).presented, Self::run(events).produced, at));
    }

    /// In every run, the waiting frames are the most recently produced ones,
    /// in the order of capture: the channel neither reorders nor repeats.
    pub proof fn lemma_queue_is_tail_of_produced(events: Seq<PipelineEvent<T>>)
        ensures
            Self::run(events).queue.len() <= Self::run(events).produced.len(),
            Self::run(events).queue == Self::run(events).produced.skip(Self::run(events).consumed()),
    {
        Self::lemma_run_ordered(events);
    }

    /// The backlog policy never drops the newest waiting frame: after an
    /// inspection of a channel that holds a frame, the channel still holds
    /// one, the newest is the same as before, and what left is a strict
    /// prefix of what was waiting.
    pub proof fn lemma_newest_frame_survives(self)
        requires
            self.queue.len() > 0,
        ensures
            self.queue_after_inspection().len() > 0,
            self.queue_after_inspection().last() == self.queue.last(),
            discard_count(self.queue.len()) < self.queue.len(),
            self.queue == self.queue.take(discard_count(self.queue.len()) as int)
                + self.queue_after_inspection(),
    {
        let dropped = discard_count(self.queue.len()) as int;
        assert(self.queue =~= self.queue.take(dropped) + self.queue.skip(dropped));
    }

    /// Beyond the threshold only the newest waiting frame is left; within it
    /// the queue is untouched.
    pub proof fn lemma_inspection_keeps_latest(self)
        ensures
            self.queue.len() > 3 ==> self.queue_after_inspection() == seq![self.queue.last()],
            self.queue.len() <= 3 ==> self.queue_after_inspection() == self.queue,
    {
        if self.queue.len() > 3 {
            assert(self.queue_after_inspection() =~= seq![self.queue.last()]);
        } else {
            assert(self.queue_after_inspection() =~= self.queue);
        }
    }
}

} // verus!

//! The capture source: one sequential state machine that publishes the
//! device list, waits for the operator to select a device, opens it at the
//! fixed capture profile and then forwards every frame it reads.
//!
//! The machine decides; its driver performs. The driver carries out the
//! action that a step returns (query the platform, wait on the command
//! channel, open the device, read a frame, send a frame) and hands the
//! outcome back as the next event.

use vstd::prelude::*;
use crate::device::{CameraIndex, Command, DeviceDescriptor, Response};
use crate::frame::Frame;

verus! {

/// Width of every captured frame, in pixels.
pub const CAPTURE_WIDTH: u32 = 640;

/// Height of every captured frame, in pixels.
pub const CAPTURE_HEIGHT: u32 = 480;

/// Frames per second asked of the device.
pub const CAPTURE_FPS: u32 = 10;

/// The size and rate at which a device is opened.
#[derive(Clone, Copy, Debug, PartialEq, Eq, Structural)]
pub struct CaptureProfile {
    pub width: u32,
    pub height: u32,
    pub fps: u32,
}

/// Why a capture source gave up.
#[derive(Clone, Copy, Debug, PartialEq, Eq, Structural)]
pub enum Fault {
    /// The platform's capture devices could not be queried at all.
    Startup,
    /// An open device stopped yielding frames.
    Stream,
    /// A message was missing or out of place.
    Protocol,
}

/// Where a capture source stands.
#[derive(Clone, Copy, Debug, PartialEq, Eq, Structural)]
pub enum CaptureState {
    /// Before the device list is known.
    Starting,
    /// The device list is published; no device is open.
    AwaitingSelection,
    /// The operator selected a device and its opening is under way; no
    /// device is open yet.
    Opening(CameraIndex),
    /// The one open device, yielding frames.
    Streaming(CameraIndex),
    /// The consumer is gone: a clean end.
    Closed,
    /// The source gave up.
    Failed(Fault),
}

/// What the driver observed.
pub enum SourceEvent {
    /// The platform listed its capture devices.
    DevicesFound(Vec<DeviceDescriptor>),
    /// The platform could not be queried.
    EnumerationFailed,
    /// A command arrived from the control surface.
    Received(Command),
    /// The command channel closed, or carried something that is no command.
    CommandMissing,
    /// The selected device opened.
    Opened,
    /// The selected device did not open.
    OpenFailed,
    /// The open device yielded a frame.
    Captured(Frame),
    /// The open device failed to yield a frame.
    ReadFailed,
    /// The frame channel has no receiver any more.
    ConsumerGone,
}

/// What the driver does next.
pub enum SourceAction {
    /// Query the platform for its capture devices.
    Enumerate,
    /// Send the response to the control surface, then wait for a command.
    Publish(Response),
    /// Wait for a command.
    AwaitCommand,
    /// Open the device at the profile.
    Open(CameraIndex, CaptureProfile),
    /// Release the open device, then open the given one at the profile.
    Switch(CameraIndex, CaptureProfile),
    /// Read the next frame from the open device.
    Read,
    /// Send the frame into the frame channel, then read the next one.
    Deliver(Frame),
    /// Release the device, if one is open, and end the loop.
    Stop,
}

/// The one profile that devices are opened at.
pub open spec fn fixed_profile() -> CaptureProfile {
    CaptureProfile { width: CAPTURE_WIDTH, height: CAPTURE_HEIGHT, fps: CAPTURE_FPS }
}

impl CaptureState {
    /// A state from which the source takes no further step.
    pub open spec fn is_final(self) -> bool {
        self is Closed || self is Failed
    }

    /// Whether a capture stream is open.
    pub open spec fn holds_device(self) -> bool {
        self is Streaming
    }

    /// The state that follows `self` on `event`.
    ///
    /// A failed open returns the source to awaiting a selection. A
    /// selection that arrives while a device streams has that device
    /// released before the new one is opened. A failed read, a failed
    /// enumeration and a missing command end the source with their fault; a
    /// frame channel without receiver ends it cleanly. An event that the
    /// state does not wait for is a breach of protocol.
    pub open spec fn next(self, event: SourceEvent) -> CaptureState {
        match (self, event) {
            (CaptureState::Closed, _) => CaptureState::Closed,
            (CaptureState::Failed(fault), _) => CaptureState::Failed(fault),
            (CaptureState::Starting, SourceEvent::DevicesFound(_)) => CaptureState::AwaitingSelection,
            (CaptureState::Starting, SourceEvent::EnumerationFailed) => CaptureState::Failed(
                Fault::Startup,
            ),
            (
                CaptureState::AwaitingSelection,
                SourceEvent::Received(Command::CameraChanged(index)),
            ) => CaptureState::Opening(index),
            (CaptureState::Opening(index), SourceEvent::Opened) => CaptureState::Streaming(index),
            (CaptureState::Opening(_), SourceEvent::OpenFailed) => CaptureState::AwaitingSelection,
            (CaptureState::Streaming(index), SourceEvent::Captured(_)) => CaptureState::Streaming(
                index,
            ),
            (
                CaptureState::Streaming(_),
                SourceEvent::Received(Command::CameraChanged(index)),
            ) => CaptureState::Opening(index),
            (CaptureState::Streaming(_), SourceEvent::ReadFailed) => CaptureState::Failed(
                Fault::Stream,
            ),
            (CaptureState::Streaming(_), SourceEvent::ConsumerGone) => CaptureState::Closed,
            _ => CaptureState::Failed(Fault::Protocol),
        }
    }

    /// The action that the driver performs after `event` arrived in `self`.
    pub open spec fn action(self, event: SourceEvent) -> SourceAction {
        match (self, event) {
            (CaptureState::Starting, SourceEvent::DevicesFound(devices)) => SourceAction::Publish(
                Response::Devices(devices),
            ),
            (
                CaptureState::AwaitingSelection,
                SourceEvent::Received(Command::CameraChanged(index)),
            ) => SourceAction::Open(index, fixed_profile()),
            (CaptureState::Opening(_), SourceEvent::Opened) => SourceAction::Read,
            (CaptureState::Opening(_), SourceEvent::OpenFailed) => SourceAction::AwaitCommand,
            (CaptureState::Streaming(_), SourceEvent::Captured(frame)) => SourceAction::Deliver(
                frame,
            ),
            (
                CaptureState::Streaming(_),
                SourceEvent::Received(Command::CameraChanged(index)),
            ) => SourceAction::Switch(index, fixed_profile()),
            _ => SourceAction::Stop,
        }
    }

    /// The state after a run of events.
    pub open spec fn run(self, events: Seq<SourceEvent>) -> CaptureState
        decreases events.len(),
    {
        if events.len() == 0 {
            self
        } else {
            self.run(events.drop_last()).next(events.last())
        }
    }

    /// The frames that the driver was told to deliver during a run, in the
    /// order of the steps.
    pub open spec fn delivered(self, events: Seq<SourceEvent>) -> Seq<Frame>
        decreases events.len(),
    {
        if events.len() == 0 {
            Seq::empty()
        } else {
            let earlier = self.delivered(events.drop_last());
            match self.run(events.drop_last()).action(events.last()) {
                SourceAction::Deliver(frame) => earlier.push(frame),
                _ => earlier,
            }
        }
    }

    /// A source at its start, and the first thing its driver does.
    pub fn start() -> (begin: (CaptureState, SourceAction))
        ensures
            begin.0 == CaptureState::Starting,
            begin.1 == SourceAction::Enumerate,
    {
        (CaptureState::Starting, SourceAction::Enumerate)
    }

    /// Takes one step: the state that follows and the action to perform.
    pub fn step(self, event: SourceEvent) -> (then: (CaptureState, SourceAction))
        ensures
            then.0 == self.next(event),
            then.1 == self.action(event),
    {
        match self {
            CaptureState::Closed => (CaptureState::Closed, SourceAction::Stop),
            CaptureState::Failed(fault) => (CaptureState::Failed(fault), SourceAction::Stop),
            CaptureState::Starting => match event {
                SourceEvent::DevicesFound(devices) => (
                    CaptureState::AwaitingSelection,
                    SourceAction::Publish(Response::Devices(devices)),
                ),
                SourceEvent::EnumerationFailed => (
                    CaptureState::Failed(Fault::Startup),
                    SourceAction::Stop,
                ),
                _ => (CaptureState::Failed(Fault::Protocol), SourceAction::Stop),
            },
            CaptureState::AwaitingSelection => match event {
                SourceEvent::Received(Command::CameraChanged(index)) => (
                    CaptureState::Opening(index),
                    SourceAction::Open(
                        index,
                        CaptureProfile { width: CAPTURE_WIDTH, height: CAPTURE_HEIGHT, fps: CAPTURE_FPS },
                    ),
                ),
                _ => (CaptureState::Failed(Fault::Protocol), SourceAction::Stop),
            },
            CaptureState::Opening(index) => match event {
                SourceEvent::Opened => (CaptureState::Streaming(index), SourceAction::Read),
                SourceEvent::OpenFailed => (
                    CaptureState::AwaitingSelection,
                    SourceAction::AwaitCommand,
                ),
                _ => (CaptureState::Failed(Fault::Protocol), SourceAction::Stop),
            },
            CaptureState::Streaming(index) => match event {
                SourceEvent::Captured(frame) => (
                    CaptureState::Streaming(index),
                    SourceAction::Deliver(frame),
                ),
                SourceEvent::Received(Command::CameraChanged(next)) => (
                    CaptureState::Opening(next),
                    SourceAction::Switch(
                        next,
                        CaptureProfile { width: CAPTURE_WIDTH, height: CAPTURE_HEIGHT, fps: CAPTURE_FPS },
                    ),
                ),
                SourceEvent::ReadFailed => (CaptureState::Failed(Fault::Stream), SourceAction::Stop),
                SourceEvent::ConsumerGone => (CaptureState::Closed, SourceAction::Stop),
                _ => (CaptureState::Failed(Fault::Protocol), SourceAction::Stop),
            },
        }
    }

    /// Whether the source has ended.
    pub fn finished(&self) -> (ended: bool)
        ensures
            ended == self.is_final(),
    {
        match self {
            CaptureState::Closed => true,
            CaptureState::Failed(_) => true,
            _ => false,
        }
    }
}

/// The events of selecting each device of `tries` in turn and seeing it fail
/// to open.
pub open spec fn failed_selections(tries: Seq<CameraIndex>) -> Seq<SourceEvent>
    decreases tries.len(),
{
    if tries.len() == 0 {
        Seq::empty()
    } else {
        failed_selections(tries.drop_last()).push(
            SourceEvent::Received(Command::CameraChanged(tries.last())),
        ).push(SourceEvent::OpenFailed)
    }
}

/// The events of the open device yielding each frame of `frames` in turn.
pub open spec fn captures(frames: Seq<Frame>) -> Seq<SourceEvent> {
    Seq::new(frames.len(), |i: int| SourceEvent::Captured(frames[i]))
}

/// Selecting devices that fail to open, however often and whichever they
/// are, leaves the source awaiting a selection: it opens no stream, does not
/// end, and after every failure its driver waits for the next command.
pub proof fn lemma_failed_selections_keep_awaiting(tries: Seq<CameraIndex>)
    ensures
        CaptureState::AwaitingSelection.run(failed_selections(tries)) == CaptureState::AwaitingSelection,
        CaptureState::AwaitingSelection.delivered(failed_selections(tries)) == Seq::<Frame>::empty(),
        forall|n: int|
            0 <= n <= failed_selections(tries).len() ==> {
                let state = #[trigger] CaptureState::AwaitingSelection.run(
                    failed_selections(tries).take(n),
                );
                !state.holds_device() && !state.is_final()
            },
        forall|n: int|
            0 < n <= failed_selections(tries).len() && n % 2 == 0 ==> #[trigger] CaptureState::AwaitingSelection.run(
                failed_selections(tries).take(n - 1),
            ).action(failed_selections(tries)[n - 1]) == SourceAction::AwaitCommand,
    decreases tries.len(),
{
    let start = CaptureState::AwaitingSelection;
    let events = failed_selections(tries);
    if tries.len() == 0 {
        assert forall|n: int| 0 <= n <= events.len() implies {
            let state = #[trigger] start.run(events.take(n));
            !state.holds_device() && !state.is_final()
        } by {
            assert(events.take(n) =~= Seq::<SourceEvent>::empty());
        }
    } else {
        let before = failed_selections(tries.drop_last());
        lemma_failed_selections_keep_awaiting(tries.drop_last());
        let select = SourceEvent::Received(Command::CameraChanged(tries.last()));
        let middle = before.push(select);
        assert(events == middle.push(SourceEvent::OpenFailed));
        assert(events.drop_last() =~= middle);
        assert(middle.drop_last() =~= before);
        assert(events.last() == SourceEvent::OpenFailed);
        assert(middle.last() == select);
        assert(start.run(middle) == CaptureState::Opening(tries.last()));
        assert(start.run(events) == CaptureState::AwaitingSelection);
        assert(start.delivered(middle) == start.delivered(before));
        assert(start.delivered(events) == start.delivered(middle));
        lemma_failed_selections_len(tries);
        lemma_failed_selections_len(tries.drop_last());
        assert forall|n: int| 0 <= n <= events.len() implies {
            let state = #[trigger] start.run(events.take(n));
            !state.holds_device() && !state.is_final()
        } by {
            if n <= before.len() {
                assert(events.take(n) =~= before.take(n));
            } else if n == middle.len() {
                assert(events.take(n) =~= middle);
            } else {
                assert(events.take(n) =~= events);
            }
        }
        assert forall|n: int| 0 < n <= events.len() && n % 2 == 0 implies #[trigger] start.run(
            events.take(n - 1),
        ).action(events[n - 1]) == SourceAction::AwaitCommand by {
            if n <= before.len() {
                assert(events.take(n - 1) =~= before.take(n - 1));
                assert(events[n - 1] == before[n - 1]);
            } else {
                assert(n == events.len());
                assert(events.take(n - 1) =~= middle);
            }
        }
    }
}

/// Each failed selection is two events.
pub proof fn lemma_failed_selections_len(tries: Seq<CameraIndex>)
    ensures
        failed_selections(tries).len() == 2 * tries.len(),
    decreases tries.len(),
{
    if tries.len() > 0 {
        lemma_failed_selections_len(tries.drop_last());
    }
}

/// A streaming source forwards frames in the order of capture: after the
/// device yielded `frames`, the source still streams from the same device,
/// and the frames it had delivered are exactly `frames`, none missing, none
/// twice, none out of place.
pub proof fn lemma_streaming_delivers_in_order(index: CameraIndex, frames: Seq<Frame>)
    ensures
        CaptureState::Streaming(index).run(captures(frames)) == CaptureState::Streaming(index),
        CaptureState::Streaming(index).delivered(captures(frames)) == frames,
    decreases frames.len(),
{
    let start = CaptureState::Streaming(index);
    if frames.len() == 0 {
        assert(start.delivered(captures(frames)) =~= frames);
    } else {
        lemma_streaming_delivers_in_order(index, frames.drop_last());
        assert(captures(frames).drop_last() =~= captures(frames.drop_last()));
        assert(captures(frames).last() == SourceEvent::Captured(frames.last()));
        assert(start.delivered(captures(frames)) =~= frames.drop_last().push(frames.last()));
        assert(frames.drop_last().push(frames.last()) =~= frames);
    }
}

/// A device is opened only on the operator's selection and at the fixed
/// profile; while one streams, the next is opened only after the first was
/// released: so at most one capture stream exists at any time.
pub proof fn lemma_opens_only_when_idle(state: CaptureState, event: SourceEvent)
    ensures
        state.action(event) is Open ==> state == CaptureState::AwaitingSelection && event
            == SourceEvent::Received(Command::CameraChanged(state.action(event)->Open_0))
            && state.action(event)->Open_1 == fixed_profile(),
        state.action(event) is Switch ==> state.holds_device() && event == SourceEvent::Received(
            Command::CameraChanged(state.action(event)->Switch_0),
        ) && state.action(event)->Switch_1 == fixed_profile(),
        state.action(event) is Open || state.action(event) is Switch ==> !state.next(
            event,
        ).holds_device(),
        state.next(event).holds_device() ==> state.holds_device() || (state is Opening && event is Opened),
        state.is_final() ==> state.next(event) == state && state.action(event) == SourceAction::Stop,
{
}

/// The device list is published once, before any capture: only the first
/// step of a source publishes, and no step leads back to the start.
pub proof fn lemma_publishes_only_at_start(state: CaptureState, event: SourceEvent)
    ensures
        state.action(event) is Publish ==> state == CaptureState::Starting && event
            == SourceEvent::DevicesFound(state.action(event)->Publish_0.devices_vec()),
        !(state.action(event) is Enumerate),
        state.next(event) != CaptureState::Starting,
{
}

} // verus!

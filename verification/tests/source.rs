use endnaut::device::{CameraIndex, Command, DeviceDescriptor};
use endnaut::frame::Frame;
use endnaut::source::{
    CaptureProfile, CaptureState, Fault, SourceAction, SourceEvent, CAPTURE_FPS, CAPTURE_HEIGHT,
    CAPTURE_WIDTH,
};

fn select(index: usize) -> SourceEvent {
    SourceEvent::Received(Command::CameraChanged(CameraIndex(index)))
}

fn tiny_frame(shade: u8) -> Frame {
    Frame::new(1, 1, vec![shade, shade, shade]).unwrap()
}

#[test]
fn a_source_starts_by_enumerating() {
    let (state, action) = CaptureState::start();
    assert_eq!(CaptureState::Starting, state);
    assert!(matches!(action, SourceAction::Enumerate));
    assert!(!state.finished());
}

#[test]
fn the_capture_profile_is_fixed() {
    assert_eq!(640, CAPTURE_WIDTH);
    assert_eq!(480, CAPTURE_HEIGHT);
    assert_eq!(10, CAPTURE_FPS);
}

#[test]
fn a_failed_enumeration_is_a_startup_fault() {
    let (state, _) = CaptureState::start();
    let (state, action) = state.step(SourceEvent::EnumerationFailed);
    assert_eq!(CaptureState::Failed(Fault::Startup), state);
    assert!(matches!(action, SourceAction::Stop));
    assert!(state.finished());
}

#[test]
fn a_missing_command_is_a_protocol_fault() {
    let (state, action) = CaptureState::AwaitingSelection.step(SourceEvent::CommandMissing);
    assert_eq!(CaptureState::Failed(Fault::Protocol), state);
    assert!(matches!(action, SourceAction::Stop));
}

#[test]
fn an_event_out_of_place_is_a_protocol_fault() {
    let (state, _) = CaptureState::AwaitingSelection.step(SourceEvent::Captured(tiny_frame(1)));
    assert_eq!(CaptureState::Failed(Fault::Protocol), state);
    let (state, _) = CaptureState::Starting.step(select(0));
    assert_eq!(CaptureState::Failed(Fault::Protocol), state);
    let (state, _) = CaptureState::Streaming(CameraIndex(0)).step(SourceEvent::Opened);
    assert_eq!(CaptureState::Failed(Fault::Protocol), state);
    let (state, _) = CaptureState::Opening(CameraIndex(0)).step(SourceEvent::ReadFailed);
    assert_eq!(CaptureState::Failed(Fault::Protocol), state);
}

#[test]
fn a_failed_read_is_a_stream_fault() {
    let (state, action) = CaptureState::Streaming(CameraIndex(2)).step(SourceEvent::ReadFailed);
    assert_eq!(CaptureState::Failed(Fault::Stream), state);
    assert!(matches!(action, SourceAction::Stop));
}

#[test]
fn a_vanished_consumer_ends_the_source_cleanly() {
    let (state, action) = CaptureState::Streaming(CameraIndex(2)).step(SourceEvent::ConsumerGone);
    assert_eq!(CaptureState::Closed, state);
    assert!(matches!(action, SourceAction::Stop));
    assert!(state.finished());
}

#[test]
fn an_ended_source_stays_ended() {
    for ended in [CaptureState::Closed, CaptureState::Failed(Fault::Stream)] {
        let (state, action) = ended.step(select(0));
        assert_eq!(ended, state);
        assert!(matches!(action, SourceAction::Stop));
        let (state, action) = ended.step(SourceEvent::Opened);
        assert_eq!(ended, state);
        assert!(matches!(action, SourceAction::Stop));
    }
}

#[test]
fn a_selection_opens_the_device_at_the_fixed_profile() {
    let (state, action) = CaptureState::AwaitingSelection.step(select(3));
    assert_eq!(CaptureState::Opening(CameraIndex(3)), state);
    match action {
        SourceAction::Open(index, profile) => {
            assert_eq!(CameraIndex(3), index);
            assert_eq!(CaptureProfile { width: 640, height: 480, fps: 10 }, profile);
        }
        _ => panic!("the device was not opened"),
    }
}

#[test]
fn a_selection_while_streaming_switches_the_device() {
    let (state, action) = CaptureState::Streaming(CameraIndex(0)).step(select(1));
    assert_eq!(CaptureState::Opening(CameraIndex(1)), state);
    match action {
        SourceAction::Switch(index, profile) => {
            assert_eq!(CameraIndex(1), index);
            assert_eq!(CaptureProfile { width: 640, height: 480, fps: 10 }, profile);
        }
        _ => panic!("the device was not switched"),
    }
    let (state, action) = state.step(SourceEvent::OpenFailed);
    assert_eq!(CaptureState::AwaitingSelection, state);
    assert!(matches!(action, SourceAction::AwaitCommand));
}

#[test]
fn repeated_failures_to_open_keep_the_source_awaiting() {
    let mut state = CaptureState::AwaitingSelection;
    for round in 0..50 {
        let (opening, action) = state.step(select(round % 3));
        assert_eq!(CaptureState::Opening(CameraIndex(round % 3)), opening);
        assert!(matches!(action, SourceAction::Open(_, _)));
        let (back, action) = opening.step(SourceEvent::OpenFailed);
        assert_eq!(CaptureState::AwaitingSelection, back);
        assert!(matches!(action, SourceAction::AwaitCommand));
        assert!(!back.finished());
        state = back;
    }
}

#[test]
fn the_device_list_is_published_as_found() {
    let found = vec![
        DeviceDescriptor { index: 0, name: "Built-in".to_string(), description: "front".to_string() },
        DeviceDescriptor { index: 1, name: "USB-cam".to_string(), description: "desk".to_string() },
    ];
    let (state, _) = CaptureState::start();
    let (state, action) = state.step(SourceEvent::DevicesFound(found));
    assert_eq!(CaptureState::AwaitingSelection, state);
    match action {
        SourceAction::Publish(endnaut::device::Response::Devices(devices)) => {
            assert_eq!(2, devices.len());
            assert_eq!(0, devices[0].index);
            assert_eq!("Built-in", devices[0].name);
            assert_eq!(1, devices[1].index);
            assert_eq!("USB-cam", devices[1].name);
            assert_eq!("USB-cam desk", devices[1].caption());
        }
        _ => panic!("the device list was not published"),
    }
}

#[test]
fn a_streaming_source_delivers_what_it_captured() {
    let state = CaptureState::Streaming(CameraIndex(1));
    let (state, action) = state.step(SourceEvent::Captured(tiny_frame(9)));
    assert_eq!(CaptureState::Streaming(CameraIndex(1)), state);
    match action {
        SourceAction::Deliver(frame) => assert_eq!(&vec![9, 9, 9], frame.pixels()),
        _ => panic!("the frame was not delivered"),
    }
}

#[test]
fn device_labels_are_decimal() {
    assert_eq!("device 0", CameraIndex(0).label());
    assert_eq!("device 7", CameraIndex(7).label());
    assert_eq!("device 12", CameraIndex(12).label());
    assert_eq!("device 4096", CameraIndex(4096).label());
}

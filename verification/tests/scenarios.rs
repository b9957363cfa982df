use endnaut::consumer::{relieve_backlog, FrameConsumer};
use endnaut::control::{App, Controls, Outgoing};
use endnaut::device::{CameraIndex, Command, DeviceDescriptor, Response};
use endnaut::frame::Frame;
use endnaut::options::{ConfigUpdate, Threshold, TransformOptions};
use endnaut::sorter::transform;
use endnaut::source::{CaptureProfile, CaptureState, SourceAction, SourceEvent};

fn column(values: &[u8]) -> Frame {
    let mut pixels = Vec::new();
    for value in values {
        pixels.push(*value);
        pixels.push(0);
        pixels.push(0);
    }
    Frame::new(1, values.len() as u32, pixels).unwrap()
}

fn red_channel(frame: &Frame) -> Vec<u8> {
    frame.pixels().iter().step_by(3).copied().collect()
}

fn two_devices() -> Vec<DeviceDescriptor> {
    vec![
        DeviceDescriptor { index: 0, name: "Built-in".to_string(), description: "".to_string() },
        DeviceDescriptor { index: 1, name: "USB-cam".to_string(), description: "".to_string() },
    ]
}

fn select(index: usize) -> SourceEvent {
    SourceEvent::Received(Command::CameraChanged(CameraIndex(index)))
}

#[test]
fn five_frames_from_the_second_device_reach_the_sink_in_order() {
    let (frames_tx, frames_rx) = flume::unbounded();
    let (_config_tx, config_rx) = flume::unbounded();

    let (state, action) = CaptureState::start();
    assert!(matches!(action, SourceAction::Enumerate));
    let (state, action) = state.step(SourceEvent::DevicesFound(two_devices()));
    let mut app = App::new(TransformOptions::default());
    match action {
        SourceAction::Publish(response) => app.setup(response),
        _ => panic!("the device list was not published"),
    }
    assert_eq!(2, app.devices.len());
    assert_eq!((0, "Built-in"), (app.devices[0].index, app.devices[0].name.as_str()));
    assert_eq!((1, "USB-cam"), (app.devices[1].index, app.devices[1].name.as_str()));

    let shown = Controls {
        camera: CameraIndex(1),
        black: app.black,
        brightness: app.brightness,
        white: app.white,
        direction: app.options.direction,
    };
    let sent = app.update(shown);
    assert_eq!(vec![Outgoing::ToCamera(Command::CameraChanged(CameraIndex(1)))], sent);

    let (state, action) = state.step(SourceEvent::Received(Command::CameraChanged(CameraIndex(1))));
    match action {
        SourceAction::Open(index, profile) => {
            assert_eq!(CameraIndex(1), index);
            assert_eq!(CaptureProfile { width: 640, height: 480, fps: 10 }, profile);
        }
        _ => panic!("the device was not opened"),
    }
    let (mut state, action) = state.step(SourceEvent::Opened);
    assert!(matches!(action, SourceAction::Read));
    assert_eq!(CaptureState::Streaming(CameraIndex(1)), state);

    let mut consumer = FrameConsumer::new(TransformOptions::default());
    let mut sink = Vec::new();
    for n in 0..5u8 {
        let captured = column(&[200 + n, 100 + n, 150 + n, 250]);
        let (next, action) = state.step(SourceEvent::Captured(captured));
        state = next;
        match action {
            SourceAction::Deliver(frame) => frames_tx.send(frame).unwrap(),
            _ => panic!("the frame was not delivered"),
        }
        let report = relieve_backlog(&frames_rx);
        assert_eq!(0, report.discarded);
        let frame = frames_rx.recv().unwrap();
        let (out, taken) = consumer.turn(frame, &config_rx);
        assert!(taken.is_empty());
        sink.push(out);
    }
    assert_eq!(CaptureState::Streaming(CameraIndex(1)), state);
    assert_eq!(TransformOptions::default(), consumer.options);
    assert_eq!(5, sink.len());
    for n in 0..5u8 {
        assert_eq!(vec![100 + n, 150 + n, 200 + n, 250], red_channel(&sink[n as usize]));
    }
}

#[test]
fn a_device_that_fails_to_open_leaves_the_source_waiting_for_another() {
    let state = CaptureState::AwaitingSelection;
    let (state, action) = state.step(select(0));
    assert!(matches!(action, SourceAction::Open(CameraIndex(0), _)));
    assert_eq!(CaptureState::Opening(CameraIndex(0)), state);

    let (state, action) = state.step(SourceEvent::OpenFailed);
    assert_eq!(CaptureState::AwaitingSelection, state);
    assert!(matches!(action, SourceAction::AwaitCommand));

    let (state, action) = state.step(select(1));
    assert!(matches!(action, SourceAction::Open(CameraIndex(1), _)));
    let (state, action) = state.step(SourceEvent::Opened);
    assert_eq!(CaptureState::Streaming(CameraIndex(1)), state);
    assert!(matches!(action, SourceAction::Read));

    let (state, action) = state.step(SourceEvent::Captured(column(&[1])));
    assert_eq!(CaptureState::Streaming(CameraIndex(1)), state);
    assert!(matches!(action, SourceAction::Deliver(_)));
}

#[test]
fn six_waiting_frames_leave_only_the_sixth_to_present() {
    let (frames_tx, frames_rx) = flume::unbounded();
    let (_config_tx, config_rx) = flume::unbounded();
    for n in 1..=6u8 {
        frames_tx.send(column(&[n])).unwrap();
    }
    assert_eq!(6, frames_rx.len());

    let report = relieve_backlog(&frames_rx);
    assert_eq!(6, report.depth);
    assert_eq!(5, report.discarded);
    assert!(!report.ran_dry);

    let mut consumer = FrameConsumer::new(TransformOptions::default());
    let frame = frames_rx.recv().unwrap();
    let (out, _) = consumer.turn(frame, &config_rx);
    assert_eq!(vec![6, 0, 0], out.into_raw());
    assert!(frames_rx.is_empty());
}

#[test]
fn a_threshold_update_takes_effect_from_the_next_frame_on() {
    let (config_tx, config_rx) = flume::unbounded();
    let mut consumer = FrameConsumer::new(TransformOptions::default());
    let shot = [200, 130, 140, 100];

    let (frame_n, taken) = consumer.turn(column(&shot), &config_rx);
    assert!(taken.is_empty());
    assert_eq!(vec![130, 140, 200, 100], red_channel(&frame_n));
    assert_eq!(60, consumer.options.brightness);

    config_tx.send(ConfigUpdate::Threshold(Threshold::Brightness(120))).unwrap();

    let (frame_n1, taken) = consumer.turn(column(&shot), &config_rx);
    assert_eq!(vec![ConfigUpdate::Threshold(Threshold::Brightness(120))], taken);
    assert_eq!(vec![130, 200, 140, 100], red_channel(&frame_n1));

    for _ in 0..3 {
        let (later, taken) = consumer.turn(column(&shot), &config_rx);
        assert!(taken.is_empty());
        assert_eq!(vec![130, 200, 140, 100], red_channel(&later));
        assert_eq!(120, consumer.options.brightness);
    }

    let old = transform(column(&shot), &TransformOptions::default());
    assert_eq!(red_channel(&frame_n), red_channel(&old));
}

#[test]
fn the_sink_sees_a_subsequence_of_what_was_captured() {
    let (frames_tx, frames_rx) = flume::unbounded();
    let (_config_tx, config_rx) = flume::unbounded();
    let mut consumer = FrameConsumer::new(TransformOptions::default());
    let mut state = CaptureState::Streaming(CameraIndex(0));
    let mut seen = Vec::new();
    let mut shade = 0u8;
    for burst in [1usize, 2, 5, 3, 4, 7, 1, 6] {
        for _ in 0..burst {
            shade += 1;
            let (next, action) = state.step(SourceEvent::Captured(column(&[shade])));
            state = next;
            if let SourceAction::Deliver(frame) = action {
                frames_tx.send(frame).unwrap();
            }
        }
        relieve_backlog(&frames_rx);
        let (out, _) = consumer.turn(frames_rx.recv().unwrap(), &config_rx);
        seen.push(out.into_raw()[0]);
    }
    assert_eq!(vec![1, 2, 8, 9, 15, 22, 23, 29], seen);
    for pair in seen.windows(2) {
        assert!(pair[0] < pair[1]);
    }
}

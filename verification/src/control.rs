//! The control surface: what the operator has set, and the messages that
//! follow when a pass over the widgets changed it.
//!
//! Drawing the widgets is not done here. After each pass the drawing code
//! hands over the values that the widgets hold, and `update` decides what
//! is sent to the capture source and to the consumer.

use vstd::prelude::*;
use crate::device::{CameraIndex, Command, DeviceDescriptor, Response};
use crate::options::{ConfigUpdate, Direction, Mode, Threshold, TransformOptions};
use crate::scale::{map_fn, map_fn_r, scale_value};
use crate::sorter::{default_black, default_brightness, default_white};
use crate::sorter::{DEFAULT_BLACK_RAW, DEFAULT_BRIGHTNESS_LEVEL, DEFAULT_WHITE_RAW};

verus! {

/// The right end of the two colour sliders; their left end is 0.
pub const SLIDER_MAX: u16 = 1000;

/// The packed colour at the left end of a colour slider: opaque black.
pub const COLOR_MIN: i32 = -16_777_216;

/// The packed colour at the right end of a colour slider: opaque white.
pub const COLOR_MAX: i32 = -1;

/// The packed colour that a colour slider at `position` stands for.
pub open spec fn slider_color(position: u16) -> int {
    scale_value(0, SLIDER_MAX as int, COLOR_MIN as int, COLOR_MAX as int, position as int)
}

/// The position of a colour slider that stands for the packed colour `raw`.
pub open spec fn color_slider(raw: i32) -> int {
    scale_value(COLOR_MIN as int, COLOR_MAX as int, 0, SLIDER_MAX as int, raw as int)
}

/// The values that the widgets hold after a pass.
#[derive(Clone, Copy, Debug, PartialEq, Eq, Structural)]
pub struct Controls {
    pub camera: CameraIndex,
    pub black: u16,
    pub brightness: u8,
    pub white: u16,
    pub direction: Direction,
}

/// A message that leaves the control surface.
#[derive(Clone, Copy, Debug, PartialEq, Eq, Structural)]
pub enum Outgoing {
    /// For the capture source.
    ToCamera(Command),
    /// For the consumer.
    ToPreview(ConfigUpdate),
}

/// The state of the control surface.
#[derive(Clone, Debug)]
pub struct App {
    /// The devices that the capture source found.
    pub devices: Vec<DeviceDescriptor>,
    pub selected_camera: CameraIndex,
    /// The options as the consumer has them once it folded what was sent.
    pub options: TransformOptions,
    pub black: u16,
    pub brightness: u8,
    pub white: u16,
}

/// The option updates among `messages`, in order.
pub open spec fn preview_updates(messages: Seq<Outgoing>) -> Seq<ConfigUpdate>
    decreases messages.len(),
{
    if messages.len() == 0 {
        Seq::empty()
    } else {
        match messages.last() {
            Outgoing::ToPreview(update) => preview_updates(messages.drop_last()).push(update),
            Outgoing::ToCamera(_) => preview_updates(messages.drop_last()),
        }
    }
}

/// Formats a device's caption with `std::format!`.
///
/// Trusted: `{}` on a `String` writes its characters unchanged, and the
/// literal space of the format string stands between the two.
#[verifier::external_body]
fn format_caption(name: &String, description: &String) -> (text: String)
    ensures
        text@ == name@ + " "@ + description@,
{
    format!("{} {}", name, description)
}

impl DeviceDescriptor {
    /// The line that stands for this device in the device list: its name, a
    /// space and its description.
    pub fn caption(&self) -> (text: String)
        ensures
            text@ == self.name@ + " "@ + self.description@,
    {
        format_caption(&self.name, &self.description)
    }
}

impl App {
    /// The values that the widgets show for this state.
    pub open spec fn controls(self) -> Controls {
        Controls {
            camera: self.selected_camera,
            black: self.black,
            brightness: self.brightness,
            white: self.white,
            direction: self.options.direction,
        }
    }

    /// Sent when the selected device changed.
    pub open spec fn camera_part(self, shown: Controls) -> Seq<Outgoing> {
        if shown.camera != self.selected_camera {
            seq![Outgoing::ToCamera(Command::CameraChanged(shown.camera))]
        } else {
            Seq::empty()
        }
    }

    /// Sent when the black slider moved: its colour, then the black mode.
    pub open spec fn black_part(self, shown: Controls) -> Seq<Outgoing> {
        if shown.black != self.black {
            threshold_messages(Threshold::Black(slider_color(shown.black) as i32))
        } else {
            Seq::empty()
        }
    }

    /// Sent when the brightness slider moved: its level, then the brightness
    /// mode.
    pub open spec fn brightness_part(self, shown: Controls) -> Seq<Outgoing> {
        if shown.brightness != self.brightness {
            threshold_messages(Threshold::Brightness(shown.brightness))
        } else {
            Seq::empty()
        }
    }

    /// Sent when the white slider moved: its colour, then the white mode.
    pub open spec fn white_part(self, shown: Controls) -> Seq<Outgoing> {
        if shown.white != self.white {
            threshold_messages(Threshold::White(slider_color(shown.white) as i32))
        } else {
            Seq::empty()
        }
    }

    /// Sent when the direction changed.
    pub open spec fn direction_part(self, shown: Controls) -> Seq<Outgoing> {
        if shown.direction != self.options.direction {
            seq![Outgoing::ToPreview(ConfigUpdate::Direction(shown.direction))]
        } else {
            Seq::empty()
        }
    }

    /// What a pass that left the widgets at `shown` sends, in order: the
    /// selected device if it changed; then, for each threshold slider that
    /// moved, its threshold and the switch to its mode, black before
    /// brightness before white; then the direction if it changed.
    pub open spec fn emitted(self, shown: Controls) -> Seq<Outgoing> {
        self.camera_part(shown) + self.black_part(shown) + self.brightness_part(shown)
            + self.white_part(shown) + self.direction_part(shown)
    }

    /// The title of the control surface's window.
    pub fn name(&self) -> (title: &'static str)
        ensures
            title@ == "ctrl | ENDNAUT"@,
    {
        "ctrl | ENDNAUT"
    }

    /// The control surface before the first pass: no devices yet, device 0
    /// selected, and the sliders at the sorter's default thresholds.
    pub fn new(options: TransformOptions) -> (app: App)
        ensures
            app.devices@ == Seq::<DeviceDescriptor>::empty(),
            app.selected_camera == CameraIndex(0),
            app.options == options,
            app.black == color_slider(DEFAULT_BLACK_RAW),
            app.brightness == DEFAULT_BRIGHTNESS_LEVEL,
            app.white == color_slider(DEFAULT_WHITE_RAW),
    {
        let scale = map_fn_r((COLOR_MIN, COLOR_MAX), (0, SLIDER_MAX));
        App {
            devices: Vec::new(),
            selected_camera: CameraIndex(0),
            options,
            black: scale(default_black()),
            brightness: default_brightness(),
            white: scale(default_white()),
        }
    }

    /// Takes the device list that the capture source published.
    pub fn setup(&mut self, response: Response)
        ensures
            final(self).devices@ == response.devices(),
            final(self).selected_camera == old(self).selected_camera,
            final(self).options == old(self).options,
            final(self).controls() == old(self).controls(),
    {
        match response {
            Response::Devices(devices) => {
                self.devices = devices;
            },
        }
    }

    /// Takes the values that the widgets hold after a pass and returns the
    /// messages to send, in order. The state then shows these values, and
    /// its options are what the consumer reaches by folding the option
    /// updates among the messages.
    pub fn update(&mut self, shown: Controls) -> (messages: Vec<Outgoing>)
        ensures
            messages@ == old(self).emitted(shown),
            final(self).controls() == shown,
            final(self).devices == old(self).devices,
            final(self).options == old(self).options.fold(preview_updates(messages@)),
    {
        let ghost before = *self;
        let ghost base = self.options;
        let mut messages: Vec<Outgoing> = Vec::new();
        let scale = map_fn((0, SLIDER_MAX), (COLOR_MIN, COLOR_MAX));

        if shown.camera != self.selected_camera {
            self.selected_camera = shown.camera;
            messages.push(Outgoing::ToCamera(Command::CameraChanged(shown.camera)));
        }
        let ghost sent_1 = messages@;
        proof {
            assert(sent_1 =~= before.camera_part(shown));
            lemma_preview_updates_of_camera(sent_1);
        }

        if shown.black != self.black {
            let color = scale(shown.black);
            self.black = shown.black;
            send_threshold(&mut self.options, &mut messages, Threshold::Black(color), Ghost(base));
        }
        let ghost sent_2 = messages@;
        assert(sent_2 =~= sent_1 + before.black_part(shown));

        if shown.brightness != self.brightness {
            self.brightness = shown.brightness;
            send_threshold(
                &mut self.options,
                &mut messages,
                Threshold::Brightness(shown.brightness),
                Ghost(base),
            );
        }
        let ghost sent_3 = messages@;
        assert(sent_3 =~= sent_2 + before.brightness_part(shown));

        if shown.white != self.white {
            let color = scale(shown.white);
            self.white = shown.white;
            send_threshold(&mut self.options, &mut messages, Threshold::White(color), Ghost(base));
        }
        let ghost sent_4 = messages@;
        assert(sent_4 =~= sent_3 + before.white_part(shown));

        if shown.direction != self.options.direction {
            send_update(
                &mut self.options,
                &mut messages,
                ConfigUpdate::Direction(shown.direction),
                Ghost(base),
            );
        }
        assert(messages@ =~= sent_4 + before.direction_part(shown));
        messages
    }
}

/// The two messages of a moved threshold slider: the threshold, then the
/// switch to the mode that it belongs to.
pub open spec fn threshold_messages(threshold: Threshold) -> Seq<Outgoing> {
    seq![
        Outgoing::ToPreview(ConfigUpdate::Threshold(threshold)),
        Outgoing::ToPreview(ConfigUpdate::Mode(threshold.mode())),
    ]
}

/// Applies an update to the surface's own options and queues it for the
/// consumer.
fn send_update(
    options: &mut TransformOptions,
    messages: &mut Vec<Outgoing>,
    update: ConfigUpdate,
    Ghost(base): Ghost<TransformOptions>,
)
    requires
        *old(options) == base.fold(preview_updates(old(messages)@)),
    ensures
        final(messages)@ == old(messages)@.push(Outgoing::ToPreview(update)),
        *final(options) == old(options).apply(update),
        *final(options) == base.fold(preview_updates(final(messages)@)),
{
    proof {
        lemma_preview_updates_push(messages@, update);
        lemma_fold_push(base, preview_updates(messages@), update);
    }
    options.apply_update(update);
    messages.push(Outgoing::ToPreview(update));
}

/// Applies and queues a moved threshold and the switch to its mode.
fn send_threshold(
    options: &mut TransformOptions,
    messages: &mut Vec<Outgoing>,
    threshold: Threshold,
    Ghost(base): Ghost<TransformOptions>,
)
    requires
        *old(options) == base.fold(preview_updates(old(messages)@)),
    ensures
        final(messages)@ == old(messages)@ + threshold_messages(threshold),
        final(options).direction == old(options).direction,
        *final(options) == base.fold(preview_updates(final(messages)@)),
{
    let mode = match threshold {
        Threshold::Black(_) => Mode::Black,
        Threshold::Brightness(_) => Mode::Brightness,
        Threshold::White(_) => Mode::White,
    };
    send_update(options, messages, ConfigUpdate::Threshold(threshold), Ghost(base));
    send_update(options, messages, ConfigUpdate::Mode(mode), Ghost(base));
    assert(messages@ =~= old(messages)@ + threshold_messages(threshold));
}

/// Messages for the capture source alone carry no option update.
proof fn lemma_preview_updates_of_camera(messages: Seq<Outgoing>)
    requires
        forall|i: int| 0 <= i < messages.len() ==> #[trigger] messages[i] is ToCamera,
    ensures
        preview_updates(messages) == Seq::<ConfigUpdate>::empty(),
    decreases messages.len(),
{
    if messages.len() > 0 {
        assert(messages.last() == messages[messages.len() - 1]);
        lemma_preview_updates_of_camera(messages.drop_last());
    }
}

/// An option update appended to the messages is appended to their updates.
proof fn lemma_preview_updates_push(messages: Seq<Outgoing>, update: ConfigUpdate)
    ensures
        preview_updates(messages.push(Outgoing::ToPreview(update))) == preview_updates(messages).push(
            update,
        ),
{
    let longer = messages.push(Outgoing::ToPreview(update));
    assert(longer.drop_last() =~= messages);
    assert(longer.last() == Outgoing::ToPreview(update));
}

/// Folding one more update is applying it to the fold of the others.
proof fn lemma_fold_push(options: TransformOptions, updates: Seq<ConfigUpdate>, update: ConfigUpdate)
    ensures
        options.fold(updates.push(update)) == options.fold(updates).apply(update),
{
    assert(updates.push(update).drop_last() =~= updates);
}

} // verus!

//! Capture devices as the control surface sees them, and the messages that
//! travel between the control surface and the capture source.

use vstd::prelude::*;

verus! {

/// Identifier of the capture device that the operator selected.
#[derive(Clone, Copy, Debug, PartialEq, Eq, Structural)]
pub struct CameraIndex(pub usize);

/// One capture device found at startup.
#[derive(Clone, Debug)]
pub struct DeviceDescriptor {
    pub index: usize,
    pub name: String,
    pub description: String,
}

/// What the control surface asks of the capture source.
#[derive(Clone, Copy, Debug, PartialEq, Eq, Structural)]
pub enum Command {
    CameraChanged(CameraIndex),
}

/// What the capture source tells the control surface, once, before any frame
/// is captured.
#[derive(Clone, Debug)]
pub enum Response {
    Devices(Vec<DeviceDescriptor>),
}

/// The character of the decimal digit `d`.
pub open spec fn digit_char(d: nat) -> char
    recommends
        d < 10,
{
    if d == 0 {
        '0'
    } else if d == 1 {
        '1'
    } else if d == 2 {
        '2'
    } else if d == 3 {
        '3'
    } else if d == 4 {
        '4'
    } else if d == 5 {
        '5'
    } else if d == 6 {
        '6'
    } else if d == 7 {
        '7'
    } else if d == 8 {
        '8'
    } else {
        '9'
    }
}

/// The decimal digits of `n`, most significant first, without padding.
pub open spec fn decimal_digits(n: nat) -> Seq<char>
    decreases n,
{
    if n < 10 {
        seq![digit_char(n)]
    } else {
        decimal_digits(n / 10).push(digit_char(n % 10))
    }
}

/// The text shown for the selected device: the word `device`, a space and
/// the index in decimal.
pub open spec fn device_label(index: nat) -> Seq<char> {
    "device "@ + decimal_digits(index)
}

/// Formats a device label with `std::format!`.
///
/// Trusted: `{}` on a `usize` writes its decimal digits without sign,
/// padding or separators, after the literal text of the format string.
#[verifier::external_body]
fn format_label(index: usize) -> (text: String)
    ensures
        text@ == device_label(index as nat),
{
    format!("device {}", index)
}

impl CameraIndex {
    /// The text that stands for this selection in the control surface.
    pub fn label(&self) -> (text: String)
        ensures
            text@ == device_label(self.0 as nat),
    {
        format_label(self.0)
    }
}

impl Response {
    /// The devices that a response carries.
    pub open spec fn devices(self) -> Seq<DeviceDescriptor> {
        self.devices_vec()@
    }

    /// The list that a response carries, as it was handed in.
    pub open spec fn devices_vec(self) -> Vec<DeviceDescriptor> {
        match self {
            Response::Devices(devices) => devices,
        }
    }
}

} // verus!

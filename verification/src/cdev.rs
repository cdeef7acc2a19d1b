//! The character-device GPIO backend: pins read through the kernel's GPIO
//! character device (e.g. `/dev/gpiochip0`) via the `gpio_cdev` crate.
//!
//! Only the calls into `gpio_cdev` are trusted; the polarity inversion that
//! turns a raw electrical level into the logical key level is verified code
//! here.

use vstd::prelude::*;
use crate::backend::DigitalInput;
use crate::backend::GpioBackend;
use crate::errors::IoError;
use crate::errors::OpenError;

verus! {

#[verifier::external_type_specification]
#[verifier::external_body]
pub struct ExChip(gpio_cdev::Chip);

#[verifier::external_type_specification]
#[verifier::external_body]
pub struct ExLine(gpio_cdev::Line);

#[verifier::external_type_specification]
#[verifier::external_body]
pub struct ExLineHandle(gpio_cdev::LineHandle);

#[verifier::external_type_specification]
#[verifier::external_body]
pub struct ExGpioError(gpio_cdev::errors::Error);

/// Relies on gpio_cdev::Chip::new: opens the GPIO character device at
/// `path`. Whether it succeeds depends on the machine, so nothing is
/// promised of the outcome.
#[verifier::external_body]
fn chip_open(path: &str) -> (r: Result<gpio_cdev::Chip, gpio_cdev::errors::Error>) {
    gpio_cdev::Chip::new(path)
}

/// Relies on gpio_cdev::Chip::get_line: looks up the line at `offset` on
/// the chip; fails if the offset is out of range for the chip.
#[verifier::external_body]
fn chip_get_line(chip: &mut gpio_cdev::Chip, offset: u32) -> (r: Result<
    gpio_cdev::Line,
    gpio_cdev::errors::Error,
>) {
    chip.get_line(offset)
}

/// Relies on gpio_cdev::Line::request: requests the line as an input with
/// the given consumer label; fails, among else, if the line is already in
/// use.
#[verifier::external_body]
fn line_request_input(line: &gpio_cdev::Line, consumer: &str) -> (r: Result<
    gpio_cdev::LineHandle,
    gpio_cdev::errors::Error,
>) {
    line.request(gpio_cdev::LineRequestFlags::INPUT, 0, consumer)
}

/// Relies on gpio_cdev::LineHandle::get_value: reads the line's current
/// raw level from the kernel. What comes back depends on the hardware, so
/// nothing is promised of the value.
#[verifier::external_body]
fn handle_get_value(handle: &gpio_cdev::LineHandle) -> (r: Result<u8, gpio_cdev::errors::Error>) {
    handle.get_value()
}

/// The logical key level corresponding to a raw electrical level: the
/// keypad is wired active-low (pull-up with the switch to ground), so a
/// raw low reads as "pressed".
pub open spec fn logical_level(raw: u8) -> bool {
    raw == 0
}

/// The active-low polarity inversion every backend owes its callers:
/// `true` (pressed) exactly when the raw level is 0.
pub fn level_from_raw(raw: u8) -> (b: bool)
    ensures
        b == logical_level(raw),
{
    raw == 0
}

/// One open character-device line, polarity-corrected on read.
pub struct CdevInput {
    /// The kernel line handle, requested as an input.
    pub handle: gpio_cdev::LineHandle,
}

impl DigitalInput for CdevInput {
    /// The kernel may fail any read, so success is never promised.
    open spec fn sure_read(&self) -> bool {
        false
    }

    /// A read leaves the line handle itself unchanged; which result comes
    /// back is the hardware's to decide, so nothing is said of it.
    open spec fn read_rel(pre: Self, post: Self, r: Result<bool, IoError>) -> bool {
        post == pre
    }

    /// Reads the raw level and applies the active-low inversion; any
    /// kernel error surfaces as `IoError`.
    fn read_level(&mut self) -> (r: Result<bool, IoError>) {
        match handle_get_value(&self.handle) {
            Ok(raw) => Ok(level_from_raw(raw)),
            Err(_) => Err(IoError),
        }
    }
}

/// A GPIO backend reading pins through one GPIO character device.
pub struct CdevBackend {
    /// The open GPIO chip the lines are looked up on.
    pub chip: gpio_cdev::Chip,
}

impl CdevBackend {
    /// Open the GPIO character device at `path` (e.g. `/dev/gpiochip0`).
    pub fn new(path: &str) -> (r: Result<CdevBackend, OpenError>) {
        match chip_open(path) {
            Ok(chip) => Ok(CdevBackend { chip }),
            Err(_) => Err(OpenError),
        }
    }
}

impl GpioBackend for CdevBackend {
    type Input = CdevInput;

    /// The kernel may refuse any line request, so success is never
    /// promised.
    open spec fn sure_open(&self, pin: u32) -> bool {
        false
    }

    /// Both the looked-up chip state and the request's outcome are the
    /// kernel's to decide, so nothing is said of either.
    open spec fn open_rel(pre: Self, post: Self, pin: u32, r: Result<CdevInput, OpenError>) -> bool {
        true
    }

    /// Looks up the line at `pin` and requests it as an input. A line
    /// already held elsewhere fails here, which is what keeps two handles
    /// from sharing one pin.
    fn open(&mut self, pin: u32) -> (r: Result<CdevInput, OpenError>) {
        let line = match chip_get_line(&mut self.chip, pin) {
            Ok(l) => l,
            Err(_) => {
                return Err(OpenError);
            },
        };
        match line_request_input(&line, "keybow") {
            Ok(h) => Ok(CdevInput { handle: h }),
            Err(_) => Err(OpenError),
        }
    }
}

} // verus!

//! The buttons of the case, and what a press of each leads to.

use crate::commands::AudioCmd;
use crate::gamepie::BUTTON_BLANK_DURATION;
use crate::gamepie::MENU_FRAME_DURATION;
use vstd::prelude::*;

verus! {

/// Pin of button A.
pub const BUTTON_A: u8 = 5;

/// Pin of button B.
pub const BUTTON_B: u8 = 6;

/// Pin of button X.
pub const BUTTON_X: u8 = 16;

/// Pin of button Y.
pub const BUTTON_Y: u8 = 24;

/// Pin of the backlight of the display.
pub const LED_BACKLIGHT: u8 = 13;

/// Pin that enables the audio amplifier.
pub const AUDIO_ENABLE: u8 = 25;

/// Number of interrupts from the keyboard after which the frontend ends
/// at once instead of asking its main loop to end.
pub const FORCE_EXIT_AFTER: u8 = 3;

/// Which buttons of the case are down.
#[derive(Clone, Copy, Debug, PartialEq, Eq, Structural)]
pub struct GpioValue {
    pub a: bool,
    pub b: bool,
    pub x: bool,
    pub y: bool,
}

/// What a reading of the buttons leads to.
#[derive(Clone, Copy, Debug, PartialEq, Eq, Structural)]
pub enum GpioAction {
    /// Send this command to the audio channel.
    Audio(AudioCmd),
    /// Ask the frontend to go back.
    Back,
    Nothing,
}

impl GpioValue {
    pub fn any(self) -> (r: bool)
        ensures
            r == (self.a || self.b || self.x || self.y),
    {
        self.a || self.b || self.x || self.y
    }

    /// The reading of the four pins, each of which is low while its
    /// button is down.
    pub fn read(a_low: bool, b_low: bool, x_low: bool, y_low: bool) -> (r: GpioValue)
        ensures
            r == (GpioValue { a: a_low, b: b_low, x: x_low, y: y_low }),
    {
        GpioValue { a: a_low, b: b_low, x: x_low, y: y_low }
    }

    /// What the reading leads to: B turns the volume down, else A turns
    /// it up, else X asks to go back.
    pub fn action(&self) -> (r: GpioAction)
        ensures
            r == if self.b {
                GpioAction::Audio(AudioCmd::VolumeDown)
            } else if self.a {
                GpioAction::Audio(AudioCmd::VolumeUp)
            } else if self.x {
                GpioAction::Back
            } else {
                GpioAction::Nothing
            },
    {
        if self.b {
            GpioAction::Audio(AudioCmd::VolumeDown)
        } else if self.a {
            GpioAction::Audio(AudioCmd::VolumeUp)
        } else if self.x {
            // Set request_back if pressed
            GpioAction::Back
        } else {
            GpioAction::Nothing
        }
    }

    /// How long to wait before the next reading, in nanoseconds. As a
    /// very basic form of debouncing, the wait is long after a press;
    /// a button that is held repeats at that pace.
    pub fn pause(&self) -> (r: u64)
        ensures
            r == if self.a || self.b || self.x || self.y {
                BUTTON_BLANK_DURATION
            } else {
                MENU_FRAME_DURATION
            },
    {
        if self.any() {
            BUTTON_BLANK_DURATION
        } else {
            MENU_FRAME_DURATION
        }
    }
}

/// Whether an interrupt from the keyboard ends the frontend at once,
/// given how many came before it.
pub fn force_exit(attempts: u8) -> (r: bool)
    ensures
        r == (attempts > FORCE_EXIT_AFTER),
{
    attempts > FORCE_EXIT_AFTER
}

} // verus!

//! Transient notifications for the overlay.

use crate::colour::error_colour;
use crate::colour::info_colour;
use vstd::prelude::*;

verus! {

/// How long an error toast stays, in nanoseconds.
pub const ERROR_DURATION: u64 = 3_000_000_000;

/// How long an informational toast stays, in nanoseconds: slightly under
/// the button debounce, so that popups do not build up.
pub const INFO_DURATION: u64 = 440_000_000;

/// What a toast says. A volume toast carries the volume setting, the
/// divisor applied to the samples.
#[derive(Debug)]
pub enum ScreenMessage {
    VolumeUp(i16),
    VolumeDown(i16),
    AudioIssue,
    Unstable,
    VideoIssue,
    Message(String),
}

/// What a screen message says.
pub enum ScreenMessageView {
    VolumeUp(i16),
    VolumeDown(i16),
    AudioIssue,
    Unstable,
    VideoIssue,
    Message(Seq<char>),
}

impl View for ScreenMessage {
    type V = ScreenMessageView;

    open spec fn view(&self) -> ScreenMessageView {
        match self {
            ScreenMessage::VolumeUp(v) => ScreenMessageView::VolumeUp(*v),
            ScreenMessage::VolumeDown(v) => ScreenMessageView::VolumeDown(*v),
            ScreenMessage::AudioIssue => ScreenMessageView::AudioIssue,
            ScreenMessage::Unstable => ScreenMessageView::Unstable,
            ScreenMessage::VideoIssue => ScreenMessageView::VideoIssue,
            ScreenMessage::Message(m) => ScreenMessageView::Message(m@),
        }
    }
}

/// A time-boxed overlay notification. The time at which it was first shown
/// is kept by whoever shows it.
#[derive(Debug)]
pub struct ScreenToast {
    message: ScreenMessage,
    duration: u64,
    colour: u16,
}

/// What a toast holds: its message, how long it stays in nanoseconds, and
/// its colour as a packed 16-bit value.
pub struct ScreenToastView {
    pub message: ScreenMessageView,
    pub duration: u64,
    pub colour: u16,
}

impl ScreenToastView {
    /// The error toast with the given message.
    pub open spec fn error(message: ScreenMessageView) -> ScreenToastView {
        ScreenToastView { message, duration: ERROR_DURATION, colour: 0xF800 }
    }

    /// The informational toast with the given message.
    pub open spec fn info(message: ScreenMessageView) -> ScreenToastView {
        ScreenToastView { message, duration: INFO_DURATION, colour: 0xFFFF }
    }
}

impl View for ScreenToast {
    type V = ScreenToastView;

    closed spec fn view(&self) -> ScreenToastView {
        ScreenToastView { message: self.message@, duration: self.duration, colour: self.colour }
    }
}

impl ScreenToast {
    pub fn new(message: ScreenMessage, duration: u64, colour: u16) -> (t: Self)
        ensures
            t@ == (ScreenToastView { message: message@, duration, colour }),
    {
        ScreenToast { message, duration, colour }
    }

    pub fn info(message: ScreenMessage) -> (t: Self)
        ensures
            t@ == ScreenToastView::info(message@),
    {
        ScreenToast { message, duration: INFO_DURATION, colour: info_colour() }
    }

    pub fn error(message: ScreenMessage) -> (t: Self)
        ensures
            t@ == ScreenToastView::error(message@),
    {
        ScreenToast { message, duration: ERROR_DURATION, colour: error_colour() }
    }

    /// Whether a toast that has been on screen for `shown` nanoseconds has
    /// outstayed its duration.
    pub fn elapsed(&self, shown: u64) -> (r: bool)
        ensures
            r == (shown > self@.duration),
    {
        shown > self.duration
    }

    pub fn message(&self) -> (m: &ScreenMessage)
        ensures
            m@ == self@.message,
    {
        &self.message
    }

    pub fn duration(&self) -> (d: u64)
        ensures
            d == self@.duration,
    {
        self.duration
    }

    pub fn colour(&self) -> (c: u16)
        ensures
            c == self@.colour,
    {
        self.colour
    }

    /// Whether the toast reports trouble, as opposed to a volume change or
    /// a message of the core.
    pub fn is_warning(&self) -> (r: bool)
        ensures
            r == (self@.message is AudioIssue || self@.message is VideoIssue
                || self@.message is Unstable),
    {
        match &self.message {
            ScreenMessage::VolumeUp(_) => false,
            ScreenMessage::VolumeDown(_) => false,
            ScreenMessage::AudioIssue => true,
            ScreenMessage::VideoIssue => true,
            ScreenMessage::Unstable => true,
            ScreenMessage::Message(_) => false,
        }
    }
}

} // verus!

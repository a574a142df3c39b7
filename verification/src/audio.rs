//! The decisions of the audio consumer: the volume, what becomes of each
//! message, and when a failure is reported.

use crate::colour::error_colour;
use crate::commands::AudioCmd;
use crate::commands::AudioMsg;
use crate::commands::ScreenMessage;
use crate::commands::ScreenMessageView;
use crate::commands::ScreenToast;
use crate::commands::ScreenToastView;
use crate::problem::Problem;
use crate::problem::ProblemView;
use vstd::prelude::*;

verus! {

// Volume is inverse as this is the divisor
/// The volume that the consumer starts with.
pub const VOL_DEFAULT: i16 = 4;

/// The loudest volume.
pub const VOL_MAX: i16 = 0;

/// The quietest volume.
pub const VOL_MIN: i16 = 15;

/// The time for which a failure is not reported again, in nanoseconds.
pub const ERROR_REPEAT_TIMEOUT: u64 = 4_000_000_000;

/// How long the toast of an audio failure stays, in nanoseconds.
pub const AUDIO_ERROR_TIME: u64 = 1_000_000_000;

/// Number of channels of the audio device.
pub const AUDIO_CHANNELS: u8 = 2;

/// Number of samples that the audio device buffers.
pub const AUDIO_SAMPLES: u16 = 2048;

/// The samples, each shifted right by the volume.
pub open spec fn scaled(data: Seq<i16>, volume: i16) -> Seq<i16> {
    Seq::new(data.len(), |i: int| data[i] >> volume)
}

/// The volume one step quieter, at most the quietest.
pub open spec fn quieter(volume: i16) -> i16 {
    if volume >= VOL_MIN {
        VOL_MIN
    } else {
        (volume + 1) as i16
    }
}

/// The volume one step louder, at most the loudest.
pub open spec fn louder(volume: i16) -> i16 {
    if volume <= VOL_MAX {
        VOL_MAX
    } else {
        (volume - 1) as i16
    }
}

/// The consumer of audio messages, as far as it decides.
#[derive(Clone, Copy, Debug)]
pub struct Audio {
    device: bool,
    volume: i16,
    last_error: Option<u64>,
}

/// The state of the consumer: whether a device is open, the volume, and
/// when a failure was last reported.
pub struct AudioView {
    pub device: bool,
    pub volume: i16,
    pub last_error: Option<u64>,
}

impl View for Audio {
    type V = AudioView;

    closed spec fn view(&self) -> AudioView {
        AudioView { device: self.device, volume: self.volume, last_error: self.last_error }
    }
}

/// What the consumer does on a message.
pub struct AudioStep {
    /// Pause and clear the open device.
    pub clear: bool,
    /// Close the device.
    pub close: bool,
    /// Open a device at this rate, and report whether it opened.
    pub open: Option<i32>,
    /// Queue these samples, and report where that fails.
    pub queue: Option<Vec<i16>>,
    /// Show this toast.
    pub toast: Option<ScreenToast>,
    /// Raise this problem.
    pub problem: Option<Problem>,
}

/// What the consumer does on a message, as plain values.
pub struct AudioStepView {
    pub clear: bool,
    pub close: bool,
    pub open: Option<i32>,
    pub queue: Option<Seq<i16>>,
    pub toast: Option<ScreenToastView>,
    pub problem: Option<ProblemView>,
}

impl View for AudioStep {
    type V = AudioStepView;

    open spec fn view(&self) -> AudioStepView {
        AudioStepView {
            clear: self.clear,
            close: self.close,
            open: self.open,
            queue: match self.queue {
                Some(q) => Some(q@),
                None => None,
            },
            toast: match self.toast {
                Some(t) => Some(t@),
                None => None,
            },
            problem: match self.problem {
                Some(p) => Some(p@),
                None => None,
            },
        }
    }
}

impl AudioStepView {
    /// Nothing is done.
    pub open spec fn idle() -> AudioStepView {
        AudioStepView {
            clear: false,
            close: false,
            open: None,
            queue: None,
            toast: None,
            problem: None,
        }
    }
}

/// The problem that reports an audio failure.
pub open spec fn audio_problem() -> ProblemView {
    ProblemView::Warn(
        ScreenToastView {
            message: ScreenMessageView::AudioIssue,
            duration: AUDIO_ERROR_TIME,
            colour: 0xF800,
        },
    )
}

impl AudioView {
    /// A failure is reported where none was reported before, or the last
    /// report is longer ago than the repeat timeout.
    pub open spec fn reports(self, now: u64) -> bool {
        match self.last_error {
            None => true,
            Some(time) => now - time > ERROR_REPEAT_TIMEOUT,
        }
    }

    /// The state after a failure at the time `now`.
    pub open spec fn erred(self, now: u64) -> AudioView {
        if self.reports(now) {
            AudioView { last_error: Some(now), ..self }
        } else {
            self
        }
    }

    /// The problem to raise for a failure at the time `now`, if any.
    pub open spec fn complaint(self, now: u64) -> Option<ProblemView> {
        if self.reports(now) {
            Some(audio_problem())
        } else {
            None
        }
    }

    /// The state after a message, and what is done on it. A start with a
    /// device open, a stop without one, and samples without one are
    /// failures.
    pub open spec fn handled(self, msg: AudioMsg, now: u64) -> (AudioView, AudioStepView) {
        match msg {
            AudioMsg::Command(AudioCmd::Start(freq)) => if self.device {
                (
                    self.erred(now),
                    AudioStepView {
                        clear: true,
                        open: Some(freq),
                        problem: self.complaint(now),
                        ..AudioStepView::idle()
                    },
                )
            } else {
                (self, AudioStepView { open: Some(freq), ..AudioStepView::idle() })
            },
            AudioMsg::Command(AudioCmd::Stop) => if self.device {
                (
                    AudioView { device: false, ..self },
                    AudioStepView { clear: true, close: true, ..AudioStepView::idle() },
                )
            } else {
                (
                    self.erred(now),
                    AudioStepView { problem: self.complaint(now), ..AudioStepView::idle() },
                )
            },
            AudioMsg::Command(AudioCmd::VolumeDown) => (
                AudioView { volume: quieter(self.volume), ..self },
                AudioStepView {
                    toast: Some(
                        ScreenToastView::info(ScreenMessageView::VolumeDown(quieter(self.volume))),
                    ),
                    ..AudioStepView::idle()
                },
            ),
            AudioMsg::Command(AudioCmd::VolumeUp) => (
                AudioView { volume: louder(self.volume), ..self },
                AudioStepView {
                    toast: Some(
                        ScreenToastView::info(ScreenMessageView::VolumeUp(louder(self.volume))),
                    ),
                    ..AudioStepView::idle()
                },
            ),
            AudioMsg::Data(data) => if self.device {
                (
                    self,
                    AudioStepView {
                        queue: Some(scaled(data@, self.volume)),
                        ..AudioStepView::idle()
                    },
                )
            } else {
                (
                    self.erred(now),
                    AudioStepView { problem: self.complaint(now), ..AudioStepView::idle() },
                )
            },
        }
    }

}

impl Audio {
    #[verifier::type_invariant]
    closed spec fn inv(self) -> bool {
        VOL_MAX <= self.volume <= VOL_MIN
    }

    /// The state in which the consumer starts: no device, the default
    /// volume, no failure reported.
    pub fn new() -> (r: Self)
        ensures
            r@ == (AudioView { device: false, volume: VOL_DEFAULT, last_error: None }),
    {
        Audio { device: false, volume: VOL_DEFAULT, last_error: None }
    }

    /// The volume: the number of bits by which samples are shifted down.
    pub fn volume(&self) -> (v: i16)
        ensures
            v == self@.volume,
            VOL_MAX <= v <= VOL_MIN,
    {
        proof {
            use_type_invariant(self);
        }
        self.volume
    }

    /// Whether a device is open.
    pub fn has_device(&self) -> (d: bool)
        ensures
            d == self@.device,
    {
        self.device
    }

    fn problem() -> (p: Problem)
        ensures
            p@ == audio_problem(),
    {
        Problem::warn(ScreenToast::new(ScreenMessage::AudioIssue, AUDIO_ERROR_TIME, error_colour()))
    }

    /// Notes a failure at the time `now`, and returns the problem to
    /// raise unless one was raised a short while ago.
    pub fn send_error_check(&mut self, now: u64) -> (r: Option<Problem>)
        ensures
            final(self)@ == old(self)@.erred(now),
            match r {
                Some(p) => old(self)@.complaint(now) == Some(p@),
                None => old(self)@.complaint(now) is None,
            },
    {
        proof {
            use_type_invariant(&*self);
        }
        let should_send = match self.last_error {
            None => true,
            Some(time) => now > time && now - time > ERROR_REPEAT_TIMEOUT,
        };
        if should_send {
            self.last_error = Some(now);
            Some(Self::problem())
        } else {
            None
        }
    }

    /// The samples at the volume of the consumer.
    pub fn scale(&self, data: &Vec<i16>) -> (r: Vec<i16>)
        ensures
            r@ == scaled(data@, self@.volume),
    {
        proof {
            use_type_invariant(self);
        }
        let mut new_vec: Vec<i16> = Vec::new();
        let mut i: usize = 0;
        while i < data.len()
            invariant
                i <= data@.len(),
                0 <= self.volume <= VOL_MIN,
                new_vec@ == scaled(data@, self@.volume).subrange(0, i as int),
            decreases data@.len() - i,
        {
            let ghost before = new_vec@;
            new_vec.push(data[i] >> self.volume);
            assert(new_vec@ =~= scaled(data@, self@.volume).subrange(0, i + 1));
            i += 1;
        }
        assert(scaled(data@, self@.volume).subrange(0, i as int) =~= scaled(data@, self@.volume));
        new_vec
    }

    /// Takes a message at the time `now`, and says what is to be done.
    pub fn handle(&mut self, msg: AudioMsg, now: u64) -> (r: AudioStep)
        ensures
            (final(self)@, r@) == old(self)@.handled(msg, now),
    {
        proof {
            use_type_invariant(&*self);
        }
        let mut step = AudioStep {
            clear: false,
            close: false,
            open: None,
            queue: None,
            toast: None,
            problem: None,
        };
        match msg {
            AudioMsg::Command(cmd) => match cmd {
                AudioCmd::Start(freq) => {
                    if self.device {
                        step.clear = true;
                        step.problem = self.send_error_check(now);
                    }
                    step.open = Some(freq);
                },
                AudioCmd::Stop => {
                    if self.device {
                        step.clear = true;
                        step.close = true;
                    } else {
                        step.problem = self.send_error_check(now);
                    }
                    self.device = false;
                },
                AudioCmd::VolumeDown => {
                    let new_volume = if self.volume >= VOL_MIN {
                        VOL_MIN
                    } else {
                        self.volume + 1
                    };
                    self.volume = new_volume;
                    step.toast = Some(ScreenToast::info(ScreenMessage::VolumeDown(new_volume)));
                },
                AudioCmd::VolumeUp => {
                    let new_volume = if self.volume <= VOL_MAX {
                        VOL_MAX
                    } else {
                        self.volume - 1
                    };
                    self.volume = new_volume;
                    step.toast = Some(ScreenToast::info(ScreenMessage::VolumeUp(new_volume)));
                },
            },
            AudioMsg::Data(data) => {
                if self.device {
                    step.queue = Some(self.scale(&data));
                } else {
                    step.problem = self.send_error_check(now);
                }
            },
        }
        step
    }

    /// Takes note of whether the device that was asked for opened. Where
    /// it did not, the consumer goes on with the device it had, and the
    /// failure is reported.
    pub fn opened(&mut self, ok: bool, now: u64) -> (r: Option<Problem>)
        ensures
            final(self)@ == if ok {
                AudioView { device: true, ..old(self)@ }
            } else {
                old(self)@.erred(now)
            },
            match r {
                Some(p) => !ok && old(self)@.complaint(now) == Some(p@),
                None => ok || old(self)@.complaint(now) is None,
            },
    {
        proof {
            use_type_invariant(&*self);
        }
        if ok {
            self.device = true;
            None
        } else {
            self.send_error_check(now)
        }
    }

    /// Takes note that the device did not take the samples.
    pub fn queue_failed(&mut self, now: u64) -> (r: Option<Problem>)
        ensures
            final(self)@ == old(self)@.erred(now),
            match r {
                Some(p) => old(self)@.complaint(now) == Some(p@),
                None => old(self)@.complaint(now) is None,
            },
    {
        self.send_error_check(now)
    }
}

/// The volume stays between the loudest and the quietest, and a step in
/// one direction is undone by a step in the other, except at the ends.
pub proof fn law_volume_range(volume: i16)
    requires
        VOL_MAX <= volume <= VOL_MIN,
    ensures
        VOL_MAX <= quieter(volume) <= VOL_MIN,
        VOL_MAX <= louder(volume) <= VOL_MIN,
        volume < VOL_MIN ==> louder(quieter(volume)) == volume,
        volume > VOL_MAX ==> quieter(louder(volume)) == volume,
        quieter(VOL_MIN) == VOL_MIN,
        louder(VOL_MAX) == VOL_MAX,
{
}

} // verus!

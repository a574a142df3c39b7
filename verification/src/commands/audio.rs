//! Messages to the audio channel.

use vstd::prelude::*;

verus! {

/// Commands to control an audio channel
#[derive(Clone, Copy, Debug, PartialEq, Eq, Structural)]
pub enum AudioCmd {
    /// Start the audio channel at the specified frequency
    Start(i32),
    VolumeUp,
    VolumeDown,
    /// Stop the audio channel
    Stop,
}

/// The format of a message to the audio channel, which can contain a command
/// or audio samples.
#[derive(Debug)]
pub enum AudioMsg {
    Command(AudioCmd),
    Data(Vec<i16>),
}

/// What an audio message says.
pub enum AudioMsgView {
    Command(AudioCmd),
    Data(Seq<i16>),
}

impl View for AudioMsg {
    type V = AudioMsgView;

    open spec fn view(&self) -> AudioMsgView {
        match self {
            AudioMsg::Command(c) => AudioMsgView::Command(*c),
            AudioMsg::Data(d) => AudioMsgView::Data(d@),
        }
    }
}

} // verus!

//! The faults that the frontend can show to the user.

use vstd::prelude::*;

verus! {

/// Every fault that can interrupt the frontend.
#[derive(Clone, Copy, Debug, PartialEq, Eq, Structural)]
pub enum GamepieError {
    /// No games found
    NoGames,
    /// Error loading game into emulator
    GameLoadError,
    /// No core found that supports game
    NoCore,
    /// Internal System Error
    System,
    /// Corrupted (wrong length) save data
    MismatchSave,
    /// Unsupported video mode
    UnsupportedVideo,
    /// Audio error
    NoAudio,
    /// Video error
    NoVideo,
    /// String error
    String,
}

impl GamepieError {
    /// The text shown on the error screen for this fault.
    pub open spec fn text(self) -> Seq<char> {
        match self {
            GamepieError::NoGames => "no games found"@,
            GamepieError::GameLoadError => "game load error"@,
            GamepieError::NoCore => "no compatible core"@,
            GamepieError::System => "internal system error"@,
            GamepieError::MismatchSave => "mismatched save"@,
            GamepieError::UnsupportedVideo => "unsupported video"@,
            GamepieError::NoAudio => "audio error"@,
            GamepieError::NoVideo => "video error"@,
            GamepieError::String => "string error"@,
        }
    }

    /// Renders the fault as the text shown on the error screen.
    pub fn message(&self) -> (s: String)
        ensures
            s@ == self.text(),
    {
        match self {
            GamepieError::NoGames => String::from_str("no games found"),
            GamepieError::GameLoadError => String::from_str("game load error"),
            GamepieError::NoCore => String::from_str("no compatible core"),
            GamepieError::System => String::from_str("internal system error"),
            GamepieError::MismatchSave => String::from_str("mismatched save"),
            GamepieError::UnsupportedVideo => String::from_str("unsupported video"),
            GamepieError::NoAudio => String::from_str("audio error"),
            GamepieError::NoVideo => String::from_str("video error"),
            GamepieError::String => String::from_str("string error"),
        }
    }
}

} // verus!

//! Messages between the host runtime and its collaborators.

pub mod audio;
pub mod screen;

pub use audio::AudioCmd;
pub use audio::AudioMsg;
pub use audio::AudioMsgView;
pub use screen::ScreenMessage;
pub use screen::ScreenMessageView;
pub use screen::ScreenToast;
pub use screen::ScreenToastView;

//! Host runtime for a handheld console frontend that drives emulator cores
//! through the libretro callback protocol: the table of options of a core,
//! the mediator that a core calls into, the answers to the commands of a
//! core, the life of a loaded core, and the states of the frontend itself.
//!
//! What the runtime decides is proved here. What it decides about, the
//! cores, the display, the audio device and the buttons, is reached by the
//! program round this library, which carries out the steps that the
//! library names.

use vstd::prelude::*;

pub mod audio;
pub mod callbacks;
pub mod colour;
pub mod commands;
pub mod controller;
pub mod enums;
pub mod error;
pub mod gamepie;
pub mod gpio;
pub mod lifecycle;
pub mod logging;
pub mod mapping;
pub mod menu;
pub mod paths;
pub mod portable;
pub mod problem;
pub mod proxy;
pub mod screen;
pub mod types;
pub mod vars;

verus! {

/// Unwraps a result that cannot be an error. The error type has no
/// values; as that is not known to the proofs, they ask for it.
pub fn discard_error<T>(r: Result<T, std::convert::Infallible>) -> (t: T)
    requires
        r is Ok,
    ensures
        r == Ok::<T, std::convert::Infallible>(t),
{
    r.unwrap()
}

/// The result of a step that went well.
pub fn ok_res() -> (r: Result<(), error::GamepieError>)
    ensures
        r == Ok::<(), error::GamepieError>(()),
{
    Ok(())
}

} // verus!

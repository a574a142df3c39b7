//! The colours of the frontend, as the 16-bit values that the display takes.

use embedded_graphics::pixelcolor::IntoStorage;
use embedded_graphics::pixelcolor::Rgb565;
use vstd::prelude::*;

verus! {

/// The packed form of a colour: five bits of red, six of green, five of
/// blue, from the top. Bits of a channel that do not fit are dropped.
pub open spec fn rgb565_bits(r: u8, g: u8, b: u8) -> u16 {
    (((r & 31) as u16) << 11) | (((g & 63) as u16) << 5) | ((b & 31) as u16)
}

/// `Rgb565::new` followed by `into_storage`: the channels, each cut to its
/// width, packed into one 16-bit value.
#[verifier::external_body]
fn rgb565(r: u8, g: u8, b: u8) -> (c: u16)
    ensures
        c == rgb565_bits(r, g, b),
{
    Rgb565::new(r, g, b).into_storage()
}

/// Colour of error toasts: red.
pub fn error_colour() -> (c: u16)
    ensures
        c == 0xF800,
{
    assert(rgb565_bits(31, 0, 0) == 0xF800u16) by (bit_vector);
    rgb565(31, 0, 0)
}

/// Colour of informational toasts: white.
pub fn info_colour() -> (c: u16)
    ensures
        c == 0xFFFF,
{
    assert(rgb565_bits(31, 63, 31) == 0xFFFFu16) by (bit_vector);
    rgb565(31, 63, 31)
}

/// Background of the menu, and of the border round a small frame.
pub fn background_colour() -> (c: u16)
    ensures
        c == 0x98D5,
{
    assert(rgb565_bits(19, 6, 21) == 0x98D5u16) by (bit_vector);
    rgb565(19, 6, 21)
}

/// Background of the error screen.
pub fn error_background_colour() -> (c: u16)
    ensures
        c == 0x03DA,
{
    assert(rgb565_bits(0, 30, 26) == 0x03DAu16) by (bit_vector);
    rgb565(0, 30, 26)
}

/// Colour of menu text.
pub fn text_colour() -> (c: u16)
    ensures
        c == 0xF6D7,
{
    assert(rgb565_bits(30, 54, 23) == 0xF6D7u16) by (bit_vector);
    rgb565(30, 54, 23)
}

/// Colour of the selected menu entry.
pub fn text_sel_colour() -> (c: u16)
    ensures
        c == 0xF5CF,
{
    assert(rgb565_bits(30, 46, 15) == 0xF5CFu16) by (bit_vector);
    rgb565(30, 46, 15)
}

/// Colour of the text on the error screen: white.
pub fn error_text_colour() -> (c: u16)
    ensures
        c == 0xFFFF,
{
    assert(rgb565_bits(31, 63, 31) == 0xFFFFu16) by (bit_vector);
    rgb565(31, 63, 31)
}

} // verus!

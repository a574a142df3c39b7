//! What the events of an input device mean for the joypad that the core
//! sees. Each supported device has its own table.

use crate::enums::RetroPadButton;
use vstd::prelude::*;

verus! {

/// The keys of an input device that the tables know.
#[derive(Clone, Copy, Debug, PartialEq, Eq, Structural)]
pub enum Key {
    South,
    East,
    C,
    North,
    West,
    Z,
    Tl,
    Tr,
    Tl2,
    Tr2,
    Select,
    Start,
    Mode,
    ThumbL,
    /// Any other key.
    Other,
}

/// The axes of an input device that the tables know.
#[derive(Clone, Copy, Debug, PartialEq, Eq, Structural)]
pub enum Axis {
    X,
    Y,
    Z,
    Rz,
    Hat0X,
    Hat0Y,
    /// Any other axis.
    Other,
}

/// What an event is about.
#[derive(Clone, Copy, Debug, PartialEq, Eq, Structural)]
pub enum EventCode {
    Key(Key),
    Abs(Axis),
    /// A synchronisation marker.
    Syn,
    /// A miscellaneous event.
    Msc,
    /// Anything else.
    Other,
}

/// An event of an input device.
#[derive(Clone, Copy, Debug, PartialEq, Eq, Structural)]
pub struct InputEvent {
    pub event_code: EventCode,
    pub value: i32,
}

/// The devices that have a table.
#[derive(Clone, Copy, Debug, PartialEq, Eq, Structural)]
pub enum Mapping {
    Bitdo,
    SwitchWired,
    /// The table of no device: every event means nothing.
    Empty,
}

/// The two buttons of a direction with the axis at its low end.
pub open spec fn axis_low(low: RetroPadButton, high: RetroPadButton) -> Seq<(RetroPadButton, i16)> {
    seq![(low, 1i16), (high, 0i16)]
}

/// The two buttons of a direction with the axis in the middle.
pub open spec fn axis_mid(low: RetroPadButton, high: RetroPadButton) -> Seq<(RetroPadButton, i16)> {
    seq![(low, 0i16), (high, 0i16)]
}

/// The two buttons of a direction with the axis at its high end.
pub open spec fn axis_high(low: RetroPadButton, high: RetroPadButton) -> Seq<
    (RetroPadButton, i16),
> {
    seq![(low, 0i16), (high, 1i16)]
}

/// A key event sets its button to the value of the event, where the key
/// has a button and the value fits.
pub open spec fn key_event(id: Option<RetroPadButton>, value: i32) -> Seq<(RetroPadButton, i16)> {
    match id {
        Some(b) => if i16::MIN <= value <= i16::MAX {
            seq![(b, value as i16)]
        } else {
            Seq::empty()
        },
        None => Seq::empty(),
    }
}

/// The button of a key on the wired pad.
pub open spec fn switchwired_button(key: Key) -> Option<RetroPadButton> {
    match key {
        Key::C => Some(RetroPadButton::A),
        Key::East => Some(RetroPadButton::B),
        Key::North => Some(RetroPadButton::X),
        Key::South => Some(RetroPadButton::Y),
        Key::Z => Some(RetroPadButton::R),
        Key::Tr => Some(RetroPadButton::R2),
        Key::Start => Some(RetroPadButton::R3),
        Key::West => Some(RetroPadButton::L),
        Key::Tl => Some(RetroPadButton::L2),
        Key::Select => Some(RetroPadButton::L3),
        Key::Tl2 => Some(RetroPadButton::Select),
        Key::Tr2 => Some(RetroPadButton::Start),
        Key::ThumbL => Some(RetroPadButton::Select),
        Key::Mode => Some(RetroPadButton::Start),
        Key::Other => None,
    }
}

/// The button of a key on the wireless pad.
pub open spec fn bitdo_button(key: Key) -> Option<RetroPadButton> {
    match key {
        Key::Tr => Some(RetroPadButton::Start),
        Key::Tl => Some(RetroPadButton::Select),
        Key::East => Some(RetroPadButton::A),
        Key::South => Some(RetroPadButton::B),
        Key::West => Some(RetroPadButton::L),
        Key::Z => Some(RetroPadButton::R),
        Key::North => Some(RetroPadButton::X),
        Key::C => Some(RetroPadButton::Y),
        _ => None,
    }
}

/// A hat reports -1, 0 or 1.
pub open spec fn hat_event(value: i32, low: RetroPadButton, high: RetroPadButton) -> Seq<
    (RetroPadButton, i16),
> {
    if value == -1 {
        axis_low(low, high)
    } else if value == 0 {
        axis_mid(low, high)
    } else if value == 1 {
        axis_high(low, high)
    } else {
        Seq::empty()
    }
}

/// A stick of the wired pad reports 0 to 255; the lowest quarter is one
/// end, the highest quarter the other.
pub open spec fn stick_event(value: i32, low: RetroPadButton, high: RetroPadButton) -> Seq<
    (RetroPadButton, i16),
> {
    let upper_bits = (value >> 6) & 0x3;
    if upper_bits == 0 {
        axis_low(low, high)
    } else if upper_bits == 3 {
        axis_high(low, high)
    } else {
        axis_mid(low, high)
    }
}

/// The pad of the wireless device reports 0, 32768 or 65535.
pub open spec fn pad_event(value: i32, low: RetroPadButton, high: RetroPadButton) -> Seq<
    (RetroPadButton, i16),
> {
    if value == 0 {
        axis_low(low, high)
    } else if value == 32768 {
        axis_mid(low, high)
    } else if value == 65535 {
        axis_high(low, high)
    } else {
        Seq::empty()
    }
}

/// What an event of the wired pad means.
pub open spec fn switchwired_events(event: InputEvent) -> Seq<(RetroPadButton, i16)> {
    match event.event_code {
        EventCode::Key(key) => key_event(switchwired_button(key), event.value),
        EventCode::Abs(Axis::Hat0Y) => hat_event(
            event.value,
            RetroPadButton::Up,
            RetroPadButton::Down,
        ),
        EventCode::Abs(Axis::Hat0X) => hat_event(
            event.value,
            RetroPadButton::Left,
            RetroPadButton::Right,
        ),
        EventCode::Abs(Axis::X) => stick_event(
            event.value,
            RetroPadButton::Left,
            RetroPadButton::Right,
        ),
        EventCode::Abs(Axis::Y) => stick_event(
            event.value,
            RetroPadButton::Up,
            RetroPadButton::Down,
        ),
        _ => Seq::empty(),
    }
}

/// What an event of the wireless pad means.
pub open spec fn bitdo_events(event: InputEvent) -> Seq<(RetroPadButton, i16)> {
    match event.event_code {
        EventCode::Key(key) => key_event(bitdo_button(key), event.value),
        EventCode::Abs(Axis::Y) => pad_event(event.value, RetroPadButton::Up, RetroPadButton::Down),
        EventCode::Abs(Axis::X) => pad_event(
            event.value,
            RetroPadButton::Left,
            RetroPadButton::Right,
        ),
        _ => Seq::empty(),
    }
}

/// The table of the device with the given vendor and product numbers.
pub open spec fn mapping_of(vid: u16, pid: u16) -> Option<Mapping> {
    if vid == 0x45e && pid == 0x2e0 {
        Some(Mapping::Bitdo)
    } else if vid == 0x20d6 && pid == 0xa711 {
        Some(Mapping::SwitchWired)
    } else {
        None
    }
}

/// Picks the table for a device, if it is one that is supported.
pub fn get_mapping(vid: u16, pid: u16) -> (r: Option<Mapping>)
    ensures
        r == mapping_of(vid, pid),
{
    match (vid, pid) {
        (0x45e, 0x2e0) => Some(Mapping::Bitdo),
        (0x20d6, 0xa711) => Some(Mapping::SwitchWired),
        _ => None,
    }
}

/// Sets the two buttons of a direction.
fn push_pair(
    result: &mut Vec<(RetroPadButton, i16)>,
    low: RetroPadButton,
    low_value: i16,
    high: RetroPadButton,
    high_value: i16,
)
    ensures
        final(result)@ == old(result)@ + seq![(low, low_value), (high, high_value)],
{
    result.push((low, low_value));
    result.push((high, high_value));
    assert(result@ =~= old(result)@ + seq![(low, low_value), (high, high_value)]);
}

/// Sets a button to the value of a key event, where the value fits.
fn push_key(result: &mut Vec<(RetroPadButton, i16)>, id: Option<RetroPadButton>, value: i32)
    ensures
        final(result)@ == old(result)@ + key_event(id, value),
{
    match id {
        Some(id) => {
            if value >= -32768 && value <= 32767 {
                result.push((id, value as i16));
                assert(result@ =~= old(result)@ + key_event(Some(id), value));
            } else {
                assert(result@ =~= old(result)@ + key_event(Some(id), value));
            }
        },
        None => {
            assert(result@ =~= old(result)@ + key_event(None, value));
        },
    }
}

pub fn map_switchwired(event: InputEvent) -> (r: Vec<(RetroPadButton, i16)>)
    ensures
        r@ == switchwired_events(event),
{
    let mut result: Vec<(RetroPadButton, i16)> = Vec::new();
    match event.event_code {
        EventCode::Key(key) => {
            let id = match key {
                Key::C => Some(RetroPadButton::A),
                Key::East => Some(RetroPadButton::B),
                Key::North => Some(RetroPadButton::X),
                Key::South => Some(RetroPadButton::Y),
                Key::Z => Some(RetroPadButton::R),
                Key::Tr => Some(RetroPadButton::R2),
                Key::Start => Some(RetroPadButton::R3),
                Key::West => Some(RetroPadButton::L),
                Key::Tl => Some(RetroPadButton::L2),
                Key::Select => Some(RetroPadButton::L3),
                Key::Tl2 => Some(RetroPadButton::Select),
                Key::Tr2 => Some(RetroPadButton::Start),
                Key::ThumbL => Some(RetroPadButton::Select),
                Key::Mode => Some(RetroPadButton::Start),
                Key::Other => None,
            };
            push_key(&mut result, id, event.value);
        },
        EventCode::Abs(abs) => match abs {
            Axis::Hat0Y => match event.value {
                -1 => push_pair(&mut result, RetroPadButton::Up, 1, RetroPadButton::Down, 0),
                0 => push_pair(&mut result, RetroPadButton::Up, 0, RetroPadButton::Down, 0),
                1 => push_pair(&mut result, RetroPadButton::Up, 0, RetroPadButton::Down, 1),
                _ => {},
            },
            Axis::Hat0X => match event.value {
                -1 => push_pair(&mut result, RetroPadButton::Left, 1, RetroPadButton::Right, 0),
                0 => push_pair(&mut result, RetroPadButton::Left, 0, RetroPadButton::Right, 0),
                1 => push_pair(&mut result, RetroPadButton::Left, 0, RetroPadButton::Right, 1),
                _ => {},
            },
            Axis::X => {
                // Axis is from 0 to 255
                let upper_bits = (event.value >> 6) & 0x3;
                if upper_bits == 0 {
                    push_pair(&mut result, RetroPadButton::Left, 1, RetroPadButton::Right, 0);
                } else if upper_bits == 3 {
                    push_pair(&mut result, RetroPadButton::Left, 0, RetroPadButton::Right, 1);
                } else {
                    push_pair(&mut result, RetroPadButton::Left, 0, RetroPadButton::Right, 0);
                }
            },
            Axis::Y => {
                let upper_bits = (event.value >> 6) & 0x3;
                if upper_bits == 0 {
                    push_pair(&mut result, RetroPadButton::Up, 1, RetroPadButton::Down, 0);
                } else if upper_bits == 3 {
                    push_pair(&mut result, RetroPadButton::Up, 0, RetroPadButton::Down, 1);
                } else {
                    push_pair(&mut result, RetroPadButton::Up, 0, RetroPadButton::Down, 0);
                }
            },
            Axis::Z => {
                // Z-Axis unused
            },
            Axis::Rz => {
                // RZ-Axis unused
            },
            Axis::Other => {},
        },
        EventCode::Syn => {},
        EventCode::Msc => {},
        EventCode::Other => {},
    }
    assert(result@ =~= switchwired_events(event));
    result
}

pub fn map_8bitdo(event: InputEvent) -> (r: Vec<(RetroPadButton, i16)>)
    ensures
        r@ == bitdo_events(event),
{
    let mut result: Vec<(RetroPadButton, i16)> = Vec::new();
    match event.event_code {
        EventCode::Key(key) => {
            let id = match key {
                Key::Tr => Some(RetroPadButton::Start),
                Key::Tl => Some(RetroPadButton::Select),
                Key::East => Some(RetroPadButton::A),
                Key::South => Some(RetroPadButton::B),
                Key::West => Some(RetroPadButton::L),
                Key::Z => Some(RetroPadButton::R),
                Key::North => Some(RetroPadButton::X),
                Key::C => Some(RetroPadButton::Y),
                _ => None,
            };
            push_key(&mut result, id, event.value);
        },
        EventCode::Abs(abs) => match abs {
            Axis::Y => match event.value {
                0 => push_pair(&mut result, RetroPadButton::Up, 1, RetroPadButton::Down, 0),
                32768 => push_pair(&mut result, RetroPadButton::Up, 0, RetroPadButton::Down, 0),
                65535 => push_pair(&mut result, RetroPadButton::Up, 0, RetroPadButton::Down, 1),
                _ => {},
            },
            Axis::X => match event.value {
                0 => push_pair(&mut result, RetroPadButton::Left, 1, RetroPadButton::Right, 0),
                32768 => push_pair(&mut result, RetroPadButton::Left, 0, RetroPadButton::Right, 0),
                65535 => push_pair(&mut result, RetroPadButton::Left, 0, RetroPadButton::Right, 1),
                _ => {},
            },
            _ => {},
        },
        EventCode::Syn => {},
        EventCode::Msc => {},
        EventCode::Other => {},
    }
    assert(result@ =~= bitdo_events(event));
    result
}

pub fn map_empty(event: InputEvent) -> (r: Vec<(RetroPadButton, i16)>)
    ensures
        r@ == Seq::<(RetroPadButton, i16)>::empty(),
{
    Vec::new()
}

/// What an event means under the given table.
pub open spec fn mapped_events(mapping: Mapping, event: InputEvent) -> Seq<(RetroPadButton, i16)> {
    match mapping {
        Mapping::Bitdo => bitdo_events(event),
        Mapping::SwitchWired => switchwired_events(event),
        Mapping::Empty => Seq::empty(),
    }
}

impl Mapping {
    /// Reads an event under this table.
    pub fn map(&self, event: InputEvent) -> (r: Vec<(RetroPadButton, i16)>)
        ensures
            r@ == mapped_events(*self, event),
    {
        match self {
            Mapping::Bitdo => map_8bitdo(event),
            Mapping::SwitchWired => map_switchwired(event),
            Mapping::Empty => map_empty(event),
        }
    }
}

/// Every event that a table yields is about a button of the joypad, never
/// about the mask or an unknown button.
pub proof fn law_mapped_buttons(mapping: Mapping, event: InputEvent, i: int)
    requires
        0 <= i < mapped_events(mapping, event).len(),
    ensures
        mapped_events(mapping, event)[i].0.code() < 16,
{
}

} // verus!

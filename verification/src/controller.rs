//! The state of the joypad as the core sees it: one value per button, and
//! all buttons packed into one bitfield on request.

use crate::enums::RetroPadButton;
use vstd::array::*;
use vstd::prelude::*;

verus! {

/// Number of buttons of the joypad.
pub const BUTTON_COUNT: usize = 16;

/// The bitfield of the first `n` buttons: bit `i` and above hold the value
/// of button `i` shifted to its place, all combined.
pub open spec fn mask_upto(keys: Seq<i16>, n: int) -> u16
    decreases n,
{
    if n <= 0 {
        0u16
    } else {
        mask_upto(keys, n - 1) | (((keys[n - 1] as u16) << ((n - 1) as u16)) as u16)
    }
}

/// What a request for a button gives: the value of the button, all
/// buttons packed for the mask request, zero for a button that the joypad
/// does not have.
pub open spec fn state_of(keys: Seq<i16>, id: RetroPadButton) -> i16 {
    if id == RetroPadButton::Mask {
        mask_upto(keys, BUTTON_COUNT as int) as i16
    } else if id.code() < BUTTON_COUNT {
        keys[id.code() as int]
    } else {
        0i16
    }
}

/// The button values after an event list was applied in order.
pub open spec fn apply_events(keys: Seq<i16>, events: Seq<(RetroPadButton, i16)>) -> Seq<i16>
    decreases events.len(),
{
    if events.len() == 0 {
        keys
    } else {
        let (b, v) = events.last();
        let before = apply_events(keys, events.drop_last());
        if b.code() < BUTTON_COUNT {
            before.update(b.code() as int, v)
        } else {
            before
        }
    }
}

/// The error number of a device that is gone.
pub const ENODEV: i32 = 19;

/// Whether an error on reading the input device says that the device is
/// gone, so that it is to be closed and looked for again.
pub fn device_gone(os_error: Option<i32>) -> (r: bool)
    ensures
        r == (os_error == Some(ENODEV)),
{
    match os_error {
        Some(os) => os == ENODEV,
        None => false,
    }
}

/// The values of the buttons of the joypad. A button that was never
/// reported counts as released.
pub struct Controller {
    keys: [i16; 16],
}

impl View for Controller {
    type V = Seq<i16>;

    closed spec fn view(&self) -> Seq<i16> {
        self.keys@
    }
}

impl Controller {
    /// A joypad with every button released.
    pub fn new() -> (r: Self)
        ensures
            r@ == Seq::new(BUTTON_COUNT as nat, |i: int| 0i16),
    {
        let keys: [i16; 16] = [0, 0, 0, 0, 0, 0, 0, 0, 0, 0, 0, 0, 0, 0, 0, 0];
        assert(keys@ =~= Seq::new(BUTTON_COUNT as nat, |i: int| 0i16));
        Controller { keys }
    }

    /// Takes over the values that a list of events reports, in order. An
    /// event for something that is no button of the joypad is passed over.
    pub fn apply(&mut self, events: &Vec<(RetroPadButton, i16)>)
        ensures
            final(self)@ == apply_events(old(self)@, events@),
    {
        let mut i: usize = 0;
        while i < events.len()
            invariant
                i <= events@.len(),
                self@ == apply_events(old(self)@, events@.subrange(0, i as int)),
            decreases events@.len() - i,
        {
            let code = events[i].0.to_u32();
            let value = events[i].1;
            assert(events@.subrange(0, i + 1).drop_last() == events@.subrange(0, i as int));
            assert(events@.subrange(0, i + 1).last() == events@[i as int]);
            if code < 16 {
                self.keys[code as usize] = value;
            }
            i += 1;
        }
        assert(events@.subrange(0, i as int) == events@);
    }

    /// The state of a button as the core asks for it.
    pub fn input_state(&self, id: RetroPadButton) -> (r: i16)
        ensures
            r == state_of(self@, id),
    {
        match id {
            RetroPadButton::Mask => {
                let mut result: u16 = 0;
                let mut i: usize = 0;
                while i < BUTTON_COUNT
                    invariant
                        i <= BUTTON_COUNT,
                        result == mask_upto(self.keys@, i as int),
                    decreases BUTTON_COUNT - i,
                {
                    let val = self.keys[i] as u16;
                    result = result | (val << (i as u16));
                    i += 1;
                }
                result as i16
            },
            _ => {
                let code = id.to_u32();
                if code < 16 {
                    self.keys[code as usize]
                } else {
                    0
                }
            },
        }
    }
}

} // verus!

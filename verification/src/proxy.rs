//! The mediator that a running core calls into: what the host knows while
//! a core is active, and the answers to the core's input requests.

use crate::commands::AudioMsg;
use crate::commands::AudioMsgView;
use crate::commands::ScreenMessage;
use crate::commands::ScreenMessageView;
use crate::commands::ScreenToast;
use crate::commands::ScreenToastView;
use crate::controller::state_of;
use crate::controller::apply_events;
use crate::controller::Controller;
use crate::controller::BUTTON_COUNT;
use crate::enums::decimal;
use crate::enums::u32_to_string;
use crate::enums::RetroDevice;
use crate::enums::RetroPadButton;
use crate::enums::RETRO_DEVICE_JOYPAD;
use crate::portable::PStr;
use crate::portable::PString;
use crate::problem::Problem;
use crate::problem::ProblemView;
use crate::types::RetroSystemAvInfo;
use crate::vars::value_views;
use crate::vars::RetroVarView;
use crate::vars::RetroVars;
use crate::vars::VarsView;
use vstd::prelude::*;
use vstd::string::*;

verus! {

/// The situations that are warned about once and then kept quiet.
#[derive(Clone, Copy, Debug, PartialEq, Eq, Hash, Structural)]
pub enum ProxyWarning {
    DevicePort,
    DeviceType,
}

/// What the mediator holds. `S` is the render surface, which the mediator
/// owns while it lives.
pub struct RetroProxy<S> {
    system_dir: PString,
    vars: RetroVars,
    audio_en: bool,
    video_en: bool,
    controller: Controller,
    screen: Option<S>,
    av: Option<RetroSystemAvInfo>,
    warned_port: bool,
    warned_type: bool,
}

/// The state of the mediator.
pub struct ProxyView<S> {
    pub system_dir: Seq<char>,
    pub vars: VarsView,
    pub audio_en: bool,
    pub video_en: bool,
    pub keys: Seq<i16>,
    pub screen: Option<S>,
    pub av: Option<RetroSystemAvInfo>,
    pub warnings: Set<ProxyWarning>,
}

/// The set of warnings given so far.
pub open spec fn warnings_of(port: bool, device: bool) -> Set<ProxyWarning> {
    Set::new(
        |w: ProxyWarning|
            match w {
                ProxyWarning::DevicePort => port,
                ProxyWarning::DeviceType => device,
            },
    )
}

/// The text of the warning about a request for another port than the first.
pub open spec fn port_warning(port: u32) -> Seq<char> {
    "Trying to get input for port "@ + decimal(port as nat)
}

/// The text of the warning about a request for another device than the
/// joypad.
pub open spec fn device_warning(device: u32) -> Seq<char> {
    "Unsupported input device: "@ + RetroDevice::identify_text(device)
}

impl<S> ProxyView<S> {
    /// The state after a warning of the given kind was asked for.
    pub open spec fn warned(self, kind: ProxyWarning) -> ProxyView<S> {
        ProxyView { warnings: self.warnings.insert(kind), ..self }
    }

    /// The value that a request for input is answered with. Only the first
    /// port is serviced, and on it only the joypad.
    pub open spec fn input_value(self, port: u32, device: u32, id: u32) -> i16 {
        if port != 0 {
            0
        } else if device == RETRO_DEVICE_JOYPAD {
            match RetroPadButton::lookup(id) {
                Some(b) => state_of(self.keys, b),
                None => 0,
            }
        } else {
            0
        }
    }

    /// The kind of warning that a request for input calls for, if any.
    pub open spec fn input_warning(port: u32, device: u32) -> Option<ProxyWarning> {
        if port != 0 {
            Some(ProxyWarning::DevicePort)
        } else if device != RETRO_DEVICE_JOYPAD {
            Some(ProxyWarning::DeviceType)
        } else {
            None
        }
    }
}

impl<S> View for RetroProxy<S> {
    type V = ProxyView<S>;

    closed spec fn view(&self) -> ProxyView<S> {
        ProxyView {
            system_dir: self.system_dir@,
            vars: self.vars@,
            audio_en: self.audio_en,
            video_en: self.video_en,
            keys: self.controller@,
            screen: self.screen,
            av: self.av,
            warnings: warnings_of(self.warned_port, self.warned_type),
        }
    }
}

impl<S> RetroProxy<S> {
    /// A fresh mediator: audio and video enabled, no options registered,
    /// no timing known yet, nothing warned about, every button released.
    pub fn new(system_dir: PString, screen: Option<S>) -> (r: Self)
        ensures
            r@.system_dir == system_dir@,
            r@.screen == screen,
            r@.vars.table == Map::<Seq<char>, RetroVarView>::empty(),
            r@.vars.dirty,
            r@.audio_en,
            r@.video_en,
            r@.av is None,
            r@.warnings == Set::<ProxyWarning>::empty(),
            r@.keys == Seq::new(BUTTON_COUNT as nat, |i: int| 0i16),
    {
        let r = RetroProxy {
            system_dir,
            vars: RetroVars::new(),
            audio_en: true,
            video_en: true,
            controller: Controller::new(),
            screen,
            av: None,
            warned_port: false,
            warned_type: false,
        };
        assert(r@.warnings =~= Set::<ProxyWarning>::empty());
        r
    }

    pub fn sys_dir(&self) -> (d: &PString)
        ensures
            d@ == self@.system_dir,
    {
        &self.system_dir
    }

    pub fn add_var_v0(&mut self, key: &PStr, descr: &PStr) -> (r: bool)
        ensures
            final(self)@ == (ProxyView {
                vars: old(self)@.vars.add(RetroVarView::legacy(key@, descr@)),
                ..old(self)@
            }),
            r == (RetroVarView::legacy(key@, descr@) is Some && !old(self)@.vars.table.contains_key(
                key@,
            )),
    {
        self.vars.add_v0(key, descr)
    }

    pub fn add_var_v1(
        &mut self,
        key: &PStr,
        descr: &PStr,
        info: &PStr,
        values: &[(PStr, Option<PStr>)],
        default: Option<&PStr>,
    ) -> (r: bool)
        ensures
            final(self)@ == (ProxyView {
                vars: old(self)@.vars.add(
                    Some(
                        RetroVarView::modern(
                            key@,
                            descr@,
                            info@,
                            value_views(values@),
                            match default {
                                Some(d) => Some(d@),
                                None => None,
                            },
                        ),
                    ),
                ),
                ..old(self)@
            }),
            r == !old(self)@.vars.table.contains_key(key@),
    {
        self.vars.add_v1(key, descr, info, values, default)
    }

    pub fn get_var(&self, k: &str) -> (r: Option<&PString>)
        ensures
            r is Some <==> self@.vars.table.contains_key(k@),
            r matches Some(v) ==> v@ == self@.vars.table[k@].value,
    {
        self.vars.get_var(k)
    }

    /// The table of options, for listing.
    pub fn vars(&self) -> (v: &RetroVars)
        ensures
            v@ == self@.vars,
    {
        &self.vars
    }

    pub fn vars_updated(&mut self) -> (d: bool)
        ensures
            d == old(self)@.vars.dirty,
            final(self)@ == (ProxyView { vars: old(self)@.vars.taken(), ..old(self)@ }),
    {
        self.vars.updated()
    }

    pub fn set_var(&mut self, k: &str, v: &PStr) -> (r: bool)
        ensures
            r == old(self)@.vars.accepts(k@, v@),
            final(self)@ == (ProxyView { vars: old(self)@.vars.set_val(k@, v@), ..old(self)@ }),
    {
        self.vars.set_val(k, v)
    }

    pub fn set_var_visible(&mut self, k: &str, v: bool) -> (r: bool)
        ensures
            r == old(self)@.vars.table.contains_key(k@),
            final(self)@ == (ProxyView {
                vars: old(self)@.vars.set_visible(k@, v),
                ..old(self)@
            }),
    {
        self.vars.set_visible(k, v)
    }

    pub fn audio_enabled(&self) -> (r: bool)
        ensures
            r == self@.audio_en,
    {
        self.audio_en
    }

    pub fn video_enabled(&self) -> (r: bool)
        ensures
            r == self@.video_en,
    {
        self.video_en
    }

    /// Takes over what the input device reported since the last poll.
    pub fn input_poll(&mut self, events: &Vec<(RetroPadButton, i16)>)
        ensures
            final(self)@ == (ProxyView {
                keys: apply_events(old(self)@.keys, events@),
                ..old(self)@
            }),
    {
        self.controller.apply(events);
    }

    pub fn input_state(&self, id: RetroPadButton) -> (r: i16)
        ensures
            r == state_of(self@.keys, id),
    {
        self.controller.input_state(id)
    }

    /// Answers a core's request for the state of an input. Returns the
    /// value, and the text of a warning where the request calls for one
    /// that was not given before.
    pub fn input_request(&mut self, port: u32, device: u32, id: u32) -> (r: (i16, Option<String>))
        ensures
            r.0 == old(self)@.input_value(port, device, id),
            final(self)@ == match ProxyView::<S>::input_warning(port, device) {
                Some(kind) => old(self)@.warned(kind),
                None => old(self)@,
            },
            match r.1 {
                Some(msg) => {
                    &&& ProxyView::<S>::input_warning(port, device) matches Some(kind)
                    &&& !old(self)@.warnings.contains(kind)
                    &&& msg@ == if port != 0 {
                        port_warning(port)
                    } else {
                        device_warning(device)
                    }
                },
                None => ProxyView::<S>::input_warning(port, device) matches Some(kind)
                    ==> old(self)@.warnings.contains(kind),
            },
    {
        if port != 0 {
            // Only expect any controller on port 0
            if self.warn_once(ProxyWarning::DevicePort) {
                let msg = String::from_str("Trying to get input for port ").concat(
                    u32_to_string(port).as_str(),
                );
                return (0, Some(msg));
            }
            return (0, None);
        }
        if device == RETRO_DEVICE_JOYPAD {
            match RetroPadButton::from_u32(id) {
                Some(b) => (self.input_state(b), None),
                None => (0, None),
            }
        } else {
            if self.warn_once(ProxyWarning::DeviceType) {
                let msg = String::from_str("Unsupported input device: ").concat(
                    RetroDevice::identify(device).as_str(),
                );
                return (0, Some(msg));
            }
            (0, None)
        }
    }

    /// The message that carries a batch of samples to the audio channel,
    /// unmodified.
    pub fn audio_sample(&self, s: Vec<i16>) -> (m: AudioMsg)
        ensures
            m@ == AudioMsgView::Data(s@),
    {
        AudioMsg::Data(s)
    }

    /// The problem to raise when the audio channel did not take a message.
    pub fn audio_problem(&self) -> (p: Problem)
        ensures
            p@ == ProblemView::Warn(ScreenToastView::error(ScreenMessageView::AudioIssue)),
    {
        Problem::warn(ScreenToast::error(ScreenMessage::AudioIssue))
    }

    /// What follows on handing samples to the audio channel: nothing where
    /// the channel took them, and a warning about audio where it did not.
    /// The core runs on either way.
    pub fn audio_forwarded(&self, sent: bool) -> (r: Option<Problem>)
        ensures
            match r {
                Some(p) => !sent && p@ == ProblemView::Warn(
                    ScreenToastView::error(ScreenMessageView::AudioIssue),
                ),
                None => sent,
            },
    {
        if sent {
            None
        } else {
            Some(self.audio_problem())
        }
    }

    pub fn get_av(&self) -> (r: Option<RetroSystemAvInfo>)
        ensures
            r == self@.av,
    {
        self.av
    }

    pub fn set_av(&mut self, av: Option<RetroSystemAvInfo>)
        ensures
            final(self)@ == (ProxyView { av, ..old(self)@ }),
    {
        self.av = av;
    }

    /// Hands out the render surface, which the mediator then no longer has.
    pub fn take_screen(&mut self) -> (r: Option<S>)
        ensures
            r == old(self)@.screen,
            final(self)@ == (ProxyView { screen: None, ..old(self)@ }),
    {
        self.screen.take()
    }

    /// Takes the render surface back after it was handed out.
    pub fn put_screen(&mut self, screen: S)
        requires
            old(self)@.screen is None,
        ensures
            final(self)@ == (ProxyView { screen: Some(screen), ..old(self)@ }),
    {
        self.screen = Some(screen);
    }

    /// Notes that a warning of the given kind is asked for, and says
    /// whether it is the first of its kind and so to be given.
    pub fn warn_once(&mut self, kind: ProxyWarning) -> (first: bool)
        ensures
            first == !old(self)@.warnings.contains(kind),
            final(self)@ == old(self)@.warned(kind),
    {
        let first = match kind {
            ProxyWarning::DevicePort => {
                let f = !self.warned_port;
                self.warned_port = true;
                f
            },
            ProxyWarning::DeviceType => {
                let f = !self.warned_type;
                self.warned_type = true;
                f
            },
        };
        assert(final(self)@.warnings =~= old(self)@.warnings.insert(kind));
        first
    }
}

/// A warning of a kind is given once: after it was asked for, its kind is
/// in the set of warnings given, asking again changes nothing, and the
/// other kind is not touched.
pub proof fn law_warn_once<S>(p: ProxyView<S>, kind: ProxyWarning, other: ProxyWarning)
    ensures
        p.warned(kind).warnings.contains(kind),
        p.warned(kind).warned(kind) == p.warned(kind),
        other != kind ==> p.warned(kind).warnings.contains(other) == p.warnings.contains(other),
{
    assert(p.warnings.insert(kind).insert(kind) =~= p.warnings.insert(kind));
}

/// Only the joypad on the first port is serviced: a request for another
/// port or another device is answered with zero, whatever the buttons
/// say, and calls for a warning.
pub proof fn law_input_neutral<S>(p: ProxyView<S>, port: u32, device: u32, id: u32)
    requires
        port != 0 || device != RETRO_DEVICE_JOYPAD,
    ensures
        p.input_value(port, device, id) == 0,
        ProxyView::<S>::input_warning(port, device) is Some,
{
}

/// Replaces the mediator. The render surface goes from the old mediator
/// to the new one; where there is no old one, the surface passed in is
/// taken. Never both: the surface exists once.
pub fn create<S>(old_proxy: Option<RetroProxy<S>>, system_dir: PString, screen: Option<S>) -> (r:
    RetroProxy<S>)
    requires
        old_proxy is Some ==> screen is None,
    ensures
        r@.system_dir == system_dir@,
        r@.screen == match old_proxy {
            Some(p) => p@.screen,
            None => screen,
        },
        r@.vars.table == Map::<Seq<char>, RetroVarView>::empty(),
        r@.vars.dirty,
        r@.audio_en,
        r@.video_en,
        r@.av is None,
        r@.warnings == Set::<ProxyWarning>::empty(),
        r@.keys == Seq::new(BUTTON_COUNT as nat, |i: int| 0i16),
{
    let new_screen = match old_proxy {
        Some(mut old_proxy) => old_proxy.take_screen(),
        None => screen,
    };
    RetroProxy::new(system_dir, new_screen)
}

/// Ends the mediator and hands back the render surface that it held.
pub fn destroy<S>(old_proxy: Option<RetroProxy<S>>) -> (r: Option<S>)
    ensures
        r == match old_proxy {
            Some(p) => p@.screen,
            None => None,
        },
{
    match old_proxy {
        Some(mut old_proxy) => old_proxy.take_screen(),
        None => None,
    }
}

} // verus!

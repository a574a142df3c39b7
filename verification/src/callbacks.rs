//! The environment callback: what the host answers to each command of a
//! core, and what the command does to the mediator.

use crate::colour::info_colour;
use crate::commands::ScreenMessage;
use crate::commands::ScreenMessageView;
use crate::commands::ScreenToast;
use crate::commands::ScreenToastView;
use crate::enums::RetroEnvironment;
use crate::enums::RETRO_LANGUAGE_ENGLISH;
use crate::enums::RETRO_PIXEL_FORMAT_RGB565;
use crate::error::GamepieError;
use crate::portable::PStr;
use crate::problem::Problem;
use crate::problem::ProblemView;
use crate::proxy::ProxyView;
use crate::proxy::RetroProxy;
use crate::types::RetroSystemAvInfo;
use crate::vars::value_views;
use crate::vars::RetroVarView;
use crate::vars::VarsView;
use vstd::prelude::*;
use vstd::string::*;
use vstd::utf8::*;

verus! {

/// How long a message of a core stays on screen while the pace of the core
/// is not known, in nanoseconds.
pub const DEFAULT_MESSAGE_DURATION: u64 = 1_000_000_000;

/// One value of an option in the modern format, with its label if it has
/// one. Texts are the bytes of C strings, terminator included.
pub struct CoreOptionValue {
    pub value: Vec<u8>,
    pub label: Option<Vec<u8>>,
}

/// The definition of an option in the modern format. Texts are the bytes
/// of C strings, terminator included.
pub struct CoreOptionDefinition {
    pub key: Vec<u8>,
    pub desc: Vec<u8>,
    pub info: Vec<u8>,
    pub values: Vec<CoreOptionValue>,
    pub default_value: Option<Vec<u8>>,
}

/// A kind of controller that a core offers for a port.
pub struct ControllerDescription {
    pub desc: Vec<u8>,
    pub id: u32,
}

/// A region of the memory of the emulated machine.
pub struct MemoryDescriptor {
    pub start: usize,
    pub len: usize,
    pub addrspace: Option<Vec<u8>>,
}

/// What a command brings with it, read from the core's memory. Texts are
/// the bytes of C strings, terminator included.
pub enum EnvData {
    /// Nothing is read: the command brings nothing, or only a place for
    /// the answer.
    Empty,
    /// Width and height of the picture.
    Geometry(u32, u32),
    /// The key of the option that is asked for.
    VariableQuery(Vec<u8>),
    /// Key and new value of an option, or nothing where the core only asks
    /// whether options can be set.
    VariableUpdate(Option<(Vec<u8>, Vec<u8>)>),
    /// Options in the legacy format: key and definition of each.
    Variables(Vec<(Vec<u8>, Vec<u8>)>),
    /// Options in the modern format.
    CoreOptions(Vec<CoreOptionDefinition>),
    /// The number of a pixel format.
    PixelFormat(u32),
    /// For each port, the kinds of controller on offer.
    ControllerInfo(Vec<Vec<ControllerDescription>>),
    /// The memory map of the emulated machine.
    MemoryMaps(Vec<MemoryDescriptor>),
    /// A hint of how demanding the core is.
    PerformanceLevel(u32),
    /// A text to show, and for how many frames.
    Message(Vec<u8>, u32),
    /// The key of an option, and whether it is to be shown.
    OptionDisplay(Vec<u8>, bool),
}

/// The shape of what a command brings with it.
#[derive(Clone, Copy, Debug, PartialEq, Eq, Structural)]
pub enum PayloadKind {
    Empty,
    Geometry,
    VariableQuery,
    VariableUpdate,
    Variables,
    CoreOptions,
    /// Modern options once per language, of which the English ones are
    /// read.
    CoreOptionsIntl,
    PixelFormat,
    ControllerInfo,
    MemoryMaps,
    PerformanceLevel,
    Message,
    OptionDisplay,
}

/// What is to be written to the place that the core gave for the answer.
pub enum EnvWrite {
    Nothing,
    /// The host's log sink.
    LogInterface,
    /// The directory of system files, as the mediator holds it.
    SystemDirectory,
    /// The current value of the option with this key as the mediator holds
    /// it, or a null pointer where the option is not registered.
    VariableValue(String),
    Flag(bool),
    Signed(i32),
    Unsigned(u32),
}

/// What is to be written, as plain values.
pub enum EnvWriteView {
    Nothing,
    LogInterface,
    SystemDirectory,
    VariableValue(Seq<char>),
    Flag(bool),
    Signed(i32),
    Unsigned(u32),
}

impl View for EnvWrite {
    type V = EnvWriteView;

    open spec fn view(&self) -> EnvWriteView {
        match self {
            EnvWrite::Nothing => EnvWriteView::Nothing,
            EnvWrite::LogInterface => EnvWriteView::LogInterface,
            EnvWrite::SystemDirectory => EnvWriteView::SystemDirectory,
            EnvWrite::VariableValue(k) => EnvWriteView::VariableValue(k@),
            EnvWrite::Flag(b) => EnvWriteView::Flag(*b),
            EnvWrite::Signed(i) => EnvWriteView::Signed(*i),
            EnvWrite::Unsigned(u) => EnvWriteView::Unsigned(*u),
        }
    }
}

/// The host's answer to a command: the acknowledgement, what to write
/// back, and the problem to raise, if any.
pub struct EnvResponse {
    pub ack: bool,
    pub write: EnvWrite,
    pub problem: Option<Problem>,
}

/// What a command leads to: the state of the mediator after it, and the
/// host's answer.
pub struct Outcome<S> {
    pub proxy: ProxyView<S>,
    pub ack: bool,
    pub write: EnvWriteView,
    pub problem: Option<ProblemView>,
}

impl EnvResponse {
    /// The problem that the answer raises, as plain values.
    pub open spec fn problem_view(&self) -> Option<ProblemView> {
        match self.problem {
            Some(p) => Some(p@),
            None => None,
        }
    }
}

/// The text of a C string given by its bytes, terminator included: the
/// bytes must end in a zero, hold no other zero, and be UTF-8 before it.
pub open spec fn c_text(bytes: Seq<u8>) -> Option<Seq<char>> {
    if bytes.len() > 0 && bytes.last() == 0u8 && !bytes.drop_last().contains(0u8) && valid_utf8(
        bytes.drop_last(),
    ) {
        Some(decode_utf8(bytes.drop_last()))
    } else {
        None
    }
}

/// Whether a value of a modern option is well formed.
pub open spec fn valid_value(v: CoreOptionValue) -> bool {
    &&& c_text(v.value@) is Some
    &&& v.label matches Some(l) ==> c_text(l@) is Some
}

/// The value and label that a well-formed value of a modern option gives.
pub open spec fn value_of(v: CoreOptionValue) -> (Seq<char>, Option<Seq<char>>) {
    (
        c_text(v.value@)->0,
        match v.label {
            Some(l) => Some(c_text(l@)->0),
            None => None,
        },
    )
}

/// The option that a modern definition describes, or nothing where one of
/// its texts is malformed. A malformed default counts as no default.
pub open spec fn option_of(def: CoreOptionDefinition) -> Option<RetroVarView> {
    if c_text(def.key@) is Some && c_text(def.desc@) is Some && c_text(def.info@) is Some && (
    forall|i: int| 0 <= i < def.values@.len() ==> valid_value(#[trigger] def.values@[i])) {
        Some(
            RetroVarView::modern(
                c_text(def.key@)->0,
                c_text(def.desc@)->0,
                c_text(def.info@)->0,
                Seq::new(def.values@.len(), |i: int| value_of(def.values@[i])),
                match def.default_value {
                    Some(d) => c_text(d@),
                    None => None,
                },
            ),
        )
    } else {
        None
    }
}

/// Registering legacy definitions in order: the table after it, and
/// whether all were well formed. The first malformed text ends the
/// registration; what was registered before it stays.
pub open spec fn register_v0(vars: VarsView, defs: Seq<(Vec<u8>, Vec<u8>)>) -> (VarsView, bool)
    decreases defs.len(),
{
    if defs.len() == 0 {
        (vars, true)
    } else {
        match (c_text(defs[0].0@), c_text(defs[0].1@)) {
            (Some(k), Some(d)) => register_v0(
                vars.add(RetroVarView::legacy(k, d)),
                defs.drop_first(),
            ),
            _ => (vars, false),
        }
    }
}

/// Registering modern definitions in order: the table after it, and
/// whether all were well formed. The first malformed definition ends the
/// registration; what was registered before it stays.
pub open spec fn register_v1(vars: VarsView, defs: Seq<CoreOptionDefinition>) -> (VarsView, bool)
    decreases defs.len(),
{
    if defs.len() == 0 {
        (vars, true)
    } else {
        match option_of(defs[0]) {
            Some(v) => register_v1(vars.add(Some(v)), defs.drop_first()),
            None => (vars, false),
        }
    }
}

/// Whether the name of every controller on offer is well formed.
pub open spec fn controllers_named(ports: Seq<Vec<ControllerDescription>>) -> bool {
    forall|p: int, i: int|
        0 <= p < ports.len() && 0 <= i < ports[p]@.len() ==> c_text(
            (#[trigger] ports[p]@[i]).desc@,
        ) is Some
}

/// Whether the name of every named region of the memory map is well formed.
pub open spec fn regions_named(maps: Seq<MemoryDescriptor>) -> bool {
    forall|i: int|
        0 <= i < maps.len() ==> ((#[trigger] maps[i]).addrspace matches Some(n) ==> c_text(n@)
            is Some)
}

/// How long a message that a core wants shown for `frames` frames stays
/// on screen, in nanoseconds: that many frame times, or the default while
/// the pace of the core is not known.
pub open spec fn message_duration(av: Option<RetroSystemAvInfo>, frames: u32) -> u64 {
    match av {
        Some(a) => if a.timing.frame_time * frames > u64::MAX {
            u64::MAX
        } else {
            (a.timing.frame_time * frames) as u64
        },
        None => DEFAULT_MESSAGE_DURATION,
    }
}

/// The bits that tell a core what is enabled: bit 0 for video, bit 1 for
/// audio.
pub open spec fn av_enable_bits(video: bool, audio: bool) -> i32 {
    if video && audio {
        3
    } else if audio {
        2
    } else if video {
        1
    } else {
        0
    }
}

impl<S> Outcome<S> {
    /// The command is accepted without an answer to write.
    pub open spec fn accept(proxy: ProxyView<S>) -> Outcome<S> {
        Outcome { proxy, ack: true, write: EnvWriteView::Nothing, problem: None }
    }

    /// The command is refused, and nothing else happens.
    pub open spec fn refuse(proxy: ProxyView<S>) -> Outcome<S> {
        Outcome { proxy, ack: false, write: EnvWriteView::Nothing, problem: None }
    }

    /// The command is accepted and answered.
    pub open spec fn answer(proxy: ProxyView<S>, write: EnvWriteView) -> Outcome<S> {
        Outcome { proxy, ack: true, write, problem: None }
    }

    /// A change of geometry is accepted where no geometry is known yet, or
    /// where it is the known one. Any other is refused with a warning.
    pub open spec fn geometry(proxy: ProxyView<S>, width: u32, height: u32) -> Outcome<S> {
        match proxy.av {
            Some(av) => if width != av.geometry.base_width || height != av.geometry.base_height {
                Outcome {
                    proxy,
                    ack: false,
                    write: EnvWriteView::Nothing,
                    problem: Some(
                        ProblemView::Warn(ScreenToastView::error(ScreenMessageView::VideoIssue)),
                    ),
                }
            } else {
                Outcome::accept(proxy)
            },
            None => Outcome::accept(proxy),
        }
    }

    /// Only the 5-6-5 pixel format is accepted. Any other is refused and
    /// is fatal.
    pub open spec fn pixel_format(proxy: ProxyView<S>, format: u32) -> Outcome<S> {
        if format == RETRO_PIXEL_FORMAT_RGB565 {
            Outcome::accept(proxy)
        } else {
            Outcome {
                proxy,
                ack: false,
                write: EnvWriteView::Nothing,
                problem: Some(ProblemView::Fatal(GamepieError::UnsupportedVideo)),
            }
        }
    }

    /// The value of an option is handed out where the key is well formed.
    pub open spec fn variable_query(proxy: ProxyView<S>, key: Seq<u8>) -> Outcome<S> {
        match c_text(key) {
            Some(k) => Outcome::answer(proxy, EnvWriteView::VariableValue(k)),
            None => Outcome::refuse(proxy),
        }
    }

    /// An update is accepted where key and value are well formed and the
    /// table accepts it. A query without an update is always accepted.
    pub open spec fn variable_update(
        proxy: ProxyView<S>,
        update: Option<(Vec<u8>, Vec<u8>)>,
    ) -> Outcome<S> {
        match update {
            None => Outcome::accept(proxy),
            Some((key, value)) => match (c_text(key@), c_text(value@)) {
                (Some(k), Some(v)) => Outcome {
                    proxy: ProxyView { vars: proxy.vars.set_val(k, v), ..proxy },
                    ack: proxy.vars.accepts(k, v),
                    write: EnvWriteView::Nothing,
                    problem: None,
                },
                _ => Outcome::refuse(proxy),
            },
        }
    }

    /// A message is shown as a toast where its text is well formed.
    pub open spec fn message(proxy: ProxyView<S>, text: Seq<u8>, frames: u32) -> Outcome<S> {
        match c_text(text) {
            Some(t) => Outcome {
                proxy,
                ack: true,
                write: EnvWriteView::Nothing,
                problem: Some(
                    ProblemView::Warn(
                        ScreenToastView {
                            message: ScreenMessageView::Message(t),
                            duration: message_duration(proxy.av, frames),
                            colour: 0xFFFF,
                        },
                    ),
                ),
            },
            None => Outcome::refuse(proxy),
        }
    }

    /// An option is shown or hidden where its key is well formed; the
    /// command is accepted whether or not the option is registered.
    pub open spec fn option_display(proxy: ProxyView<S>, key: Seq<u8>, visible: bool) -> Outcome<
        S,
    > {
        match c_text(key) {
            Some(k) => Outcome::accept(
                ProxyView { vars: proxy.vars.set_visible(k, visible), ..proxy },
            ),
            None => Outcome::refuse(proxy),
        }
    }

    /// What the host does on a command. A command that the protocol does
    /// not have, one that the host does not support, and one that comes
    /// with something of the wrong shape, are refused and change nothing.
    pub open spec fn of(cmd: u32, data: EnvData, proxy: ProxyView<S>) -> Outcome<S> {
        match RetroEnvironment::lookup(cmd) {
            Some(RetroEnvironment::GetLogInterface) => Outcome::answer(
                proxy,
                EnvWriteView::LogInterface,
            ),
            Some(RetroEnvironment::SetGeometry) => match data {
                EnvData::Geometry(w, h) => Outcome::geometry(proxy, w, h),
                _ => Outcome::refuse(proxy),
            },
            Some(RetroEnvironment::GetSystemDirectory) => Outcome {
                proxy,
                ack: false,
                write: EnvWriteView::SystemDirectory,
                problem: None,
            },
            Some(RetroEnvironment::GetVariable) => match data {
                EnvData::VariableQuery(key) => Outcome::variable_query(proxy, key@),
                _ => Outcome::refuse(proxy),
            },
            Some(RetroEnvironment::GetVariableUpdate) => Outcome::answer(
                ProxyView { vars: proxy.vars.taken(), ..proxy },
                EnvWriteView::Flag(proxy.vars.dirty),
            ),
            Some(RetroEnvironment::SetVariable) => match data {
                EnvData::VariableUpdate(update) => Outcome::variable_update(proxy, update),
                _ => Outcome::refuse(proxy),
            },
            Some(RetroEnvironment::SetVariables) => match data {
                EnvData::Variables(defs) => Outcome {
                    proxy: ProxyView { vars: register_v0(proxy.vars, defs@).0, ..proxy },
                    ack: register_v0(proxy.vars, defs@).1,
                    write: EnvWriteView::Nothing,
                    problem: None,
                },
                _ => Outcome::refuse(proxy),
            },
            Some(RetroEnvironment::SetCoreOptions) | Some(
                RetroEnvironment::SetCoreOptionsIntl,
            ) => match data {
                EnvData::CoreOptions(defs) => Outcome {
                    proxy: ProxyView { vars: register_v1(proxy.vars, defs@).0, ..proxy },
                    ack: register_v1(proxy.vars, defs@).1,
                    write: EnvWriteView::Nothing,
                    problem: None,
                },
                _ => Outcome::refuse(proxy),
            },
            Some(RetroEnvironment::SetPixelFormat) => match data {
                EnvData::PixelFormat(format) => Outcome::pixel_format(proxy, format),
                _ => Outcome::refuse(proxy),
            },
            Some(RetroEnvironment::GetAudioVideoEnable) => Outcome::answer(
                proxy,
                EnvWriteView::Signed(av_enable_bits(proxy.video_en, proxy.audio_en)),
            ),
            Some(RetroEnvironment::SetControllerInfo) => match data {
                EnvData::ControllerInfo(ports) => if controllers_named(ports@) {
                    Outcome::accept(proxy)
                } else {
                    Outcome::refuse(proxy)
                },
                _ => Outcome::refuse(proxy),
            },
            Some(RetroEnvironment::SetMemoryMaps) => match data {
                EnvData::MemoryMaps(maps) => if regions_named(maps@) {
                    Outcome::accept(proxy)
                } else {
                    Outcome::refuse(proxy)
                },
                _ => Outcome::refuse(proxy),
            },
            Some(RetroEnvironment::GetCoreOptionsVersion) => Outcome::answer(
                proxy,
                EnvWriteView::Unsigned(1),
            ),
            Some(RetroEnvironment::GetCanDupe) => Outcome::answer(proxy, EnvWriteView::Flag(true)),
            Some(RetroEnvironment::SetPerformanceLevel) => Outcome::accept(proxy),
            Some(RetroEnvironment::GetLanguage) => Outcome::answer(
                proxy,
                EnvWriteView::Unsigned(RETRO_LANGUAGE_ENGLISH),
            ),
            Some(RetroEnvironment::SetInputDescriptors) => Outcome::accept(proxy),
            Some(RetroEnvironment::SetMessage) => match data {
                EnvData::Message(text, frames) => Outcome::message(proxy, text@, frames),
                _ => Outcome::refuse(proxy),
            },
            Some(RetroEnvironment::SetCoreOptionsDisplay) => match data {
                EnvData::OptionDisplay(key, visible) => Outcome::option_display(
                    proxy,
                    key@,
                    visible,
                ),
                _ => Outcome::refuse(proxy),
            },
            Some(RetroEnvironment::GetInputBitmasks) => Outcome::accept(proxy),
            _ => Outcome::refuse(proxy),
        }
    }
}

/// Once geometry and timing are known, a change to the known width and
/// height is accepted, and a change to any other is refused with exactly
/// one warning about video. Neither changes the mediator.
pub proof fn law_geometry_change<S>(
    proxy: ProxyView<S>,
    av: RetroSystemAvInfo,
    width: u32,
    height: u32,
)
    requires
        proxy.av == Some(av),
    ensures
        ({
            let o = Outcome::of(
                RetroEnvironment::SetGeometry.code(),
                EnvData::Geometry(width, height),
                proxy,
            );
            &&& o.proxy == proxy
            &&& o.ack == (width == av.geometry.base_width && height == av.geometry.base_height)
            &&& o.ack ==> o.problem is None
            &&& !o.ack ==> o.problem == Some(
                ProblemView::Warn(ScreenToastView::error(ScreenMessageView::VideoIssue)),
            )
        }),
{
}

/// While no geometry is known, every change of geometry is accepted.
pub proof fn law_geometry_unknown<S>(proxy: ProxyView<S>, width: u32, height: u32)
    requires
        proxy.av is None,
    ensures
        Outcome::of(RetroEnvironment::SetGeometry.code(), EnvData::Geometry(width, height), proxy)
            == Outcome::accept(proxy),
{
}

/// The 5-6-5 pixel format is accepted. Any other is refused, and raises a
/// fatal problem of unsupported video. Neither changes the mediator.
pub proof fn law_pixel_format<S>(proxy: ProxyView<S>, format: u32)
    ensures
        ({
            let o = Outcome::of(
                RetroEnvironment::SetPixelFormat.code(),
                EnvData::PixelFormat(format),
                proxy,
            );
            &&& o.proxy == proxy
            &&& o.ack == (format == RETRO_PIXEL_FORMAT_RGB565)
            &&& o.ack ==> o.problem is None
            &&& !o.ack ==> o.problem == Some(ProblemView::Fatal(GamepieError::UnsupportedVideo))
        }),
{
}

/// A command that the protocol does not have is refused and changes
/// nothing, whatever it brings with it.
pub proof fn law_unknown_command<S>(cmd: u32, data: EnvData, proxy: ProxyView<S>)
    requires
        RetroEnvironment::lookup(cmd) is None,
    ensures
        Outcome::of(cmd, data, proxy) == Outcome::refuse(proxy),
{
}

/// The shape of what the command with the given number brings with it.
pub open spec fn payload_of(cmd: u32) -> PayloadKind {
    match RetroEnvironment::lookup(cmd) {
        Some(RetroEnvironment::SetGeometry) => PayloadKind::Geometry,
        Some(RetroEnvironment::GetVariable) => PayloadKind::VariableQuery,
        Some(RetroEnvironment::SetVariable) => PayloadKind::VariableUpdate,
        Some(RetroEnvironment::SetVariables) => PayloadKind::Variables,
        Some(RetroEnvironment::SetCoreOptions) => PayloadKind::CoreOptions,
        Some(RetroEnvironment::SetCoreOptionsIntl) => PayloadKind::CoreOptionsIntl,
        Some(RetroEnvironment::SetPixelFormat) => PayloadKind::PixelFormat,
        Some(RetroEnvironment::SetControllerInfo) => PayloadKind::ControllerInfo,
        Some(RetroEnvironment::SetMemoryMaps) => PayloadKind::MemoryMaps,
        Some(RetroEnvironment::SetPerformanceLevel) => PayloadKind::PerformanceLevel,
        Some(RetroEnvironment::SetMessage) => PayloadKind::Message,
        Some(RetroEnvironment::SetCoreOptionsDisplay) => PayloadKind::OptionDisplay,
        _ => PayloadKind::Empty,
    }
}

/// Says what is to be read from the core's memory for a command.
pub fn expected_payload(cmd: u32) -> (k: PayloadKind)
    ensures
        k == payload_of(cmd),
{
    match RetroEnvironment::from_u32(cmd) {
        Some(RetroEnvironment::SetGeometry) => PayloadKind::Geometry,
        Some(RetroEnvironment::GetVariable) => PayloadKind::VariableQuery,
        Some(RetroEnvironment::SetVariable) => PayloadKind::VariableUpdate,
        Some(RetroEnvironment::SetVariables) => PayloadKind::Variables,
        Some(RetroEnvironment::SetCoreOptions) => PayloadKind::CoreOptions,
        Some(RetroEnvironment::SetCoreOptionsIntl) => PayloadKind::CoreOptionsIntl,
        Some(RetroEnvironment::SetPixelFormat) => PayloadKind::PixelFormat,
        Some(RetroEnvironment::SetControllerInfo) => PayloadKind::ControllerInfo,
        Some(RetroEnvironment::SetMemoryMaps) => PayloadKind::MemoryMaps,
        Some(RetroEnvironment::SetPerformanceLevel) => PayloadKind::PerformanceLevel,
        Some(RetroEnvironment::SetMessage) => PayloadKind::Message,
        Some(RetroEnvironment::SetCoreOptionsDisplay) => PayloadKind::OptionDisplay,
        _ => PayloadKind::Empty,
    }
}

/// Reads the bytes of a C string, terminator included, as a portable text.
pub fn pstr_of<'a>(bytes: &'a [u8]) -> (r: Option<PStr<'a>>)
    ensures
        match r {
            Some(p) => c_text(bytes@) == Some(p@),
            None => c_text(bytes@) is None,
        },
{
    if bytes.len() == 0 {
        return None;
    }
    if bytes[bytes.len() - 1] != 0 {
        return None;
    }
    match PStr::from_bytes_with_nul(bytes) {
        Ok(p) => Some(p),
        Err(_) => None,
    }
}

/// Reads the values of a modern option, unless one of them is malformed.
fn option_values<'a>(values: &'a Vec<CoreOptionValue>) -> (r: Option<
    Vec<(PStr<'a>, Option<PStr<'a>>)>,
>)
    ensures
        match r {
            Some(v) => {
                &&& forall|i: int| 0 <= i < values@.len() ==> valid_value(#[trigger] values@[i])
                &&& value_views(v@) == Seq::new(values@.len(), |i: int| value_of(values@[i]))
            },
            None => exists|i: int| 0 <= i < values@.len() && !valid_value(#[trigger] values@[i]),
        },
{
    let mut out: Vec<(PStr<'a>, Option<PStr<'a>>)> = Vec::new();
    let mut i: usize = 0;
    while i < values.len()
        invariant
            i <= values@.len(),
            forall|j: int| 0 <= j < i ==> valid_value(#[trigger] values@[j]),
            value_views(out@) == Seq::new(i as nat, |j: int| value_of(values@[j])),
        decreases values@.len() - i,
    {
        let ghost before = value_views(out@);
        let val = match pstr_of(values[i].value.as_slice()) {
            Some(v) => v,
            None => {
                assert(!valid_value(values@[i as int]));
                return None;
            },
        };
        let vdes = match &values[i].label {
            None => None,
            Some(l) => match pstr_of(l.as_slice()) {
                Some(p) => Some(p),
                None => {
                    assert(!valid_value(values@[i as int]));
                    return None;
                },
            },
        };
        out.push((val, vdes));
        assert(value_views(out@) =~= before.push(value_of(values@[i as int])));
        assert(value_views(out@) =~= Seq::new((i + 1) as nat, |j: int| value_of(values@[j])));
        i += 1;
    }
    Some(out)
}

/// Registers options given in the legacy format, in order, up to the first
/// malformed text. Says whether all were well formed.
pub fn set_variables_v0<S>(vars: &Vec<(Vec<u8>, Vec<u8>)>, proxy: &mut RetroProxy<S>) -> (ok: bool)
    ensures
        final(proxy)@ == (ProxyView {
            vars: register_v0(old(proxy)@.vars, vars@).0,
            ..old(proxy)@
        }),
        ok == register_v0(old(proxy)@.vars, vars@).1,
{
    let mut i: usize = 0;
    assert(vars@.subrange(0, vars@.len() as int) == vars@);
    while i < vars.len()
        invariant
            i <= vars@.len(),
            proxy@ == (ProxyView { vars: proxy@.vars, ..old(proxy)@ }),
            register_v0(proxy@.vars, vars@.subrange(i as int, vars@.len() as int)) == register_v0(
                old(proxy)@.vars,
                vars@,
            ),
        decreases vars@.len() - i,
    {
        let ghost rest = vars@.subrange(i as int, vars@.len() as int);
        assert(rest[0] == vars@[i as int]);
        assert(rest.drop_first() == vars@.subrange(i + 1, vars@.len() as int));
        let key = match pstr_of(vars[i].0.as_slice()) {
            Some(k) => k,
            None => {
                return false;
            },
        };
        let descr = match pstr_of(vars[i].1.as_slice()) {
            Some(d) => d,
            None => {
                return false;
            },
        };
        proxy.add_var_v0(&key, &descr);
        i += 1;
    }
    true
}

/// Registers options given in the modern format, in order, up to the first
/// malformed definition. Says whether all were well formed.
pub fn set_variables_v1<S>(vars: &Vec<CoreOptionDefinition>, proxy: &mut RetroProxy<S>) -> (ok:
    bool)
    ensures
        final(proxy)@ == (ProxyView {
            vars: register_v1(old(proxy)@.vars, vars@).0,
            ..old(proxy)@
        }),
        ok == register_v1(old(proxy)@.vars, vars@).1,
{
    let mut i: usize = 0;
    assert(vars@.subrange(0, vars@.len() as int) == vars@);
    while i < vars.len()
        invariant
            i <= vars@.len(),
            proxy@ == (ProxyView { vars: proxy@.vars, ..old(proxy)@ }),
            register_v1(proxy@.vars, vars@.subrange(i as int, vars@.len() as int)) == register_v1(
                old(proxy)@.vars,
                vars@,
            ),
        decreases vars@.len() - i,
    {
        let ghost rest = vars@.subrange(i as int, vars@.len() as int);
        assert(rest[0] == vars@[i as int]);
        assert(rest.drop_first() == vars@.subrange(i + 1, vars@.len() as int));
        let def = &vars[i];
        let key = match pstr_of(def.key.as_slice()) {
            Some(k) => k,
            None => {
                return false;
            },
        };
        let descr = match pstr_of(def.desc.as_slice()) {
            Some(d) => d,
            None => {
                return false;
            },
        };
        let info = match pstr_of(def.info.as_slice()) {
            Some(d) => d,
            None => {
                return false;
            },
        };
        let values = match option_values(&def.values) {
            Some(v) => v,
            None => {
                return false;
            },
        };
        let default = match &def.default_value {
            Some(d) => pstr_of(d.as_slice()),
            None => None,
        };
        proxy.add_var_v1(&key, &descr, &info, values.as_slice(), default.as_ref());
        i += 1;
    }
    true
}

/// Whether the name of every controller on offer is well formed.
pub fn controller_info_ok(ports: &Vec<Vec<ControllerDescription>>) -> (ok: bool)
    ensures
        ok == controllers_named(ports@),
{
    let mut p: usize = 0;
    while p < ports.len()
        invariant
            p <= ports@.len(),
            forall|a: int, b: int|
                0 <= a < p && 0 <= b < ports@[a]@.len() ==> c_text(
                    (#[trigger] ports@[a]@[b]).desc@,
                ) is Some,
        decreases ports@.len() - p,
    {
        let port = &ports[p];
        let mut i: usize = 0;
        while i < port.len()
            invariant
                i <= port@.len(),
                p < ports@.len(),
                *port == ports@[p as int],
                forall|b: int| 0 <= b < i ==> c_text((#[trigger] port@[b]).desc@) is Some,
            decreases port@.len() - i,
        {
            if pstr_of(port[i].desc.as_slice()).is_none() {
                assert(c_text(ports@[p as int]@[i as int].desc@) is None);
                return false;
            }
            i += 1;
        }
        p += 1;
    }
    true
}

/// Whether the name of every named region of the memory map is well formed.
pub fn memory_maps_ok(maps: &Vec<MemoryDescriptor>) -> (ok: bool)
    ensures
        ok == regions_named(maps@),
{
    let mut i: usize = 0;
    while i < maps.len()
        invariant
            i <= maps@.len(),
            forall|j: int|
                0 <= j < i ==> ((#[trigger] maps@[j]).addrspace matches Some(n) ==> c_text(n@)
                    is Some),
        decreases maps@.len() - i,
    {
        match &maps[i].addrspace {
            Some(n) => {
                if pstr_of(n.as_slice()).is_none() {
                    assert(maps@[i as int].addrspace matches Some(n) && c_text(n@) is None);
                    return false;
                }
            },
            None => {},
        }
        i += 1;
    }
    true
}

/// How long a message that a core wants shown for `frames` frames stays on
/// screen.
pub fn toast_duration(av: Option<RetroSystemAvInfo>, frames: u32) -> (d: u64)
    ensures
        d == message_duration(av, frames),
{
    match av {
        Some(a) => match a.timing.frame_time.checked_mul(frames as u64) {
            Some(d) => d,
            None => u64::MAX,
        },
        None => DEFAULT_MESSAGE_DURATION,
    }
}

impl EnvResponse {
    fn accept() -> (r: EnvResponse)
        ensures
            r.ack,
            r.write@ == EnvWriteView::Nothing,
            r.problem is None,
    {
        EnvResponse { ack: true, write: EnvWrite::Nothing, problem: None }
    }

    fn refuse() -> (r: EnvResponse)
        ensures
            !r.ack,
            r.write@ == EnvWriteView::Nothing,
            r.problem is None,
    {
        EnvResponse { ack: false, write: EnvWrite::Nothing, problem: None }
    }

    fn answer(write: EnvWrite) -> (r: EnvResponse)
        ensures
            r.ack,
            r.write == write,
            r.problem is None,
    {
        EnvResponse { ack: true, write, problem: None }
    }

    fn decided(ack: bool) -> (r: EnvResponse)
        ensures
            r.ack == ack,
            r.write@ == EnvWriteView::Nothing,
            r.problem is None,
    {
        EnvResponse { ack, write: EnvWrite::Nothing, problem: None }
    }
}

/// Answers a command of a core. `data` is what the command brought with
/// it, in the shape that `expected_payload` names for the command.
pub fn retro_environment_callback_inner<S>(
    cmd: u32,
    data: &EnvData,
    proxy: &mut RetroProxy<S>,
) -> (r: EnvResponse)
    ensures
        (Outcome { proxy: final(proxy)@, ack: r.ack, write: r.write@, problem: r.problem_view() })
            == Outcome::of(cmd, *data, old(proxy)@),
{
    match RetroEnvironment::from_u32(cmd) {
        Some(RetroEnvironment::GetLogInterface) => EnvResponse::answer(EnvWrite::LogInterface),
        Some(RetroEnvironment::SetHwRender) => EnvResponse::refuse(),
        Some(RetroEnvironment::SetGeometry) => match data {
            EnvData::Geometry(new_width, new_height) => match proxy.get_av() {
                Some(av) => {
                    let (width, height) = (av.geometry.base_width, av.geometry.base_height);
                    if *new_width != width || *new_height != height {
                        EnvResponse {
                            ack: false,
                            write: EnvWrite::Nothing,
                            problem: Some(
                                Problem::warn(ScreenToast::error(ScreenMessage::VideoIssue)),
                            ),
                        }
                    } else {
                        EnvResponse::accept()
                    }
                },
                None => EnvResponse::accept(),
            },
            _ => EnvResponse::refuse(),
        },
        // The directory is written although the command is not acknowledged;
        // whether it should be acknowledged is left open.
        Some(RetroEnvironment::GetSystemDirectory) => EnvResponse {
            ack: false,
            write: EnvWrite::SystemDirectory,
            problem: None,
        },
        Some(RetroEnvironment::GetVariable) => match data {
            EnvData::VariableQuery(key) => match pstr_of(key.as_slice()) {
                Some(k) => EnvResponse::answer(EnvWrite::VariableValue(k.to_string())),
                None => EnvResponse::refuse(),
            },
            _ => EnvResponse::refuse(),
        },
        Some(RetroEnvironment::GetVariableUpdate) => {
            let updated = proxy.vars_updated();
            EnvResponse::answer(EnvWrite::Flag(updated))
        },
        Some(RetroEnvironment::SetVariable) => match data {
            EnvData::VariableUpdate(None) => {
                // No update, just checking support
                EnvResponse::accept()
            },
            EnvData::VariableUpdate(Some((key, value))) => {
                let k = pstr_of(key.as_slice());
                let v = pstr_of(value.as_slice());
                match (k, v) {
                    (Some(key), Some(val)) => {
                        let ok = proxy.set_var(key.as_str(), &val);
                        EnvResponse::decided(ok)
                    },
                    _ => EnvResponse::refuse(),
                }
            },
            _ => EnvResponse::refuse(),
        },
        Some(RetroEnvironment::SetVariables) => match data {
            EnvData::Variables(vars) => {
                let ok = set_variables_v0(vars, proxy);
                EnvResponse::decided(ok)
            },
            _ => EnvResponse::refuse(),
        },
        Some(RetroEnvironment::SetCoreOptions) => match data {
            EnvData::CoreOptions(vars) => {
                let ok = set_variables_v1(vars, proxy);
                EnvResponse::decided(ok)
            },
            _ => EnvResponse::refuse(),
        },
        Some(RetroEnvironment::SetCoreOptionsIntl) => match data {
            // US is default English options and must be present,
            // with no language support can always use this
            EnvData::CoreOptions(vars) => {
                let ok = set_variables_v1(vars, proxy);
                EnvResponse::decided(ok)
            },
            _ => EnvResponse::refuse(),
        },
        Some(RetroEnvironment::SetPixelFormat) => match data {
            EnvData::PixelFormat(pfmt) => {
                if *pfmt == RETRO_PIXEL_FORMAT_RGB565 {
                    EnvResponse::accept()
                } else {
                    EnvResponse {
                        ack: false,
                        write: EnvWrite::Nothing,
                        problem: Some(Problem::fatal(GamepieError::UnsupportedVideo)),
                    }
                }
            },
            _ => EnvResponse::refuse(),
        },
        Some(RetroEnvironment::GetAudioVideoEnable) => {
            let mut val: i32 = 0;
            // Bit 0 - Video enable
            if proxy.video_enabled() {
                val = val + 1;
            }
            // Bit 1 - Audio enable
            if proxy.audio_enabled() {
                val = val + 2;
            }
            EnvResponse::answer(EnvWrite::Signed(val))
        },
        Some(RetroEnvironment::SetControllerInfo) => match data {
            EnvData::ControllerInfo(ports) => EnvResponse::decided(controller_info_ok(ports)),
            _ => EnvResponse::refuse(),
        },
        Some(RetroEnvironment::SetMemoryMaps) => match data {
            EnvData::MemoryMaps(maps) => EnvResponse::decided(memory_maps_ok(maps)),
            _ => EnvResponse::refuse(),
        },
        Some(RetroEnvironment::GetCoreOptionsVersion) => {
            // Not many cores seem to support v2 options,
            // so only support v1.
            EnvResponse::answer(EnvWrite::Unsigned(1))
        },
        Some(RetroEnvironment::GetVfsInterface) => EnvResponse::refuse(),
        Some(RetroEnvironment::GetCanDupe) => EnvResponse::answer(EnvWrite::Flag(true)),
        Some(RetroEnvironment::SetPerformanceLevel) => EnvResponse::accept(),
        Some(RetroEnvironment::GetLanguage) => EnvResponse::answer(
            EnvWrite::Unsigned(RETRO_LANGUAGE_ENGLISH),
        ),
        Some(RetroEnvironment::SetInputDescriptors) => EnvResponse::accept(),
        Some(RetroEnvironment::SetMessage) => match data {
            EnvData::Message(msg, frames) => match pstr_of(msg.as_slice()) {
                Some(message) => {
                    let duration = toast_duration(proxy.get_av(), *frames);
                    let smsg = ScreenToast::new(
                        ScreenMessage::Message(message.to_string()),
                        duration,
                        info_colour(),
                    );
                    EnvResponse {
                        ack: true,
                        write: EnvWrite::Nothing,
                        problem: Some(Problem::warn(smsg)),
                    }
                },
                None => EnvResponse::refuse(),
            },
            _ => EnvResponse::refuse(),
        },
        Some(RetroEnvironment::SetCoreOptionsDisplay) => match data {
            EnvData::OptionDisplay(key, visible) => match pstr_of(key.as_slice()) {
                Some(k) => {
                    proxy.set_var_visible(k.as_str(), *visible);
                    EnvResponse::accept()
                },
                None => EnvResponse::refuse(),
            },
            _ => EnvResponse::refuse(),
        },
        Some(RetroEnvironment::GetInputBitmasks) => EnvResponse::accept(),
        Some(RetroEnvironment::SetSupportAchievements) => EnvResponse::refuse(),
        Some(RetroEnvironment::GetRumbleInterface) => EnvResponse::refuse(),
        Some(_) => EnvResponse::refuse(),
        None => EnvResponse::refuse(),
    }
}


} // verus!

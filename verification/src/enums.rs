//! The numbers of the libretro protocol as closed enumerations: commands
//! of the environment callback, device classes, and the buttons and axes
//! of each class.

use vstd::prelude::*;
use vstd::string::*;

verus! {

/// Bit of a command number that marks the command as experimental.
pub const RETRO_ENVIRONMENT_EXPERIMENTAL: u32 = 0x10000;

/// Bit of a command number that marks the command as private to a frontend.
pub const RETRO_ENVIRONMENT_PRIVATE: u32 = 0x20000;

/// Number of bits by which the subclass of a device is shifted.
pub const RETRO_DEVICE_TYPE_SHIFT: u32 = 8;

/// The bits of a device number that give its class.
pub const RETRO_DEVICE_MASK: u32 = 0xFF;

/// Class number of the joypad, the one device that is serviced.
pub const RETRO_DEVICE_JOYPAD: u32 = 1;

/// The one pixel format that is accepted: 16 bits, 5-6-5.
pub const RETRO_PIXEL_FORMAT_RGB565: u32 = 2;

/// Number of the one language that is offered, English.
pub const RETRO_LANGUAGE_ENGLISH: u32 = 0;

/// Version of the protocol that the frontend speaks.
pub const RETRO_API_VERSION: u32 = 1;

/// Number of the memory region that holds the save data of a game.
pub const RETRO_MEMORY_SAVE_RAM: u32 = 0;

/// The version of the protocol that the frontend speaks.
pub fn frontend_api_version() -> (v: u32)
    ensures
        v == RETRO_API_VERSION,
{
    RETRO_API_VERSION
}

/// Whether a core that speaks the given version of the protocol can be
/// used: its version must be that of the frontend.
pub fn api_matches(api_ver: u32) -> (r: bool)
    ensures
        r == (api_ver == RETRO_API_VERSION),
{
    api_ver == frontend_api_version()
}

/// Whether the command number carries the experimental mark.
pub fn is_experimental(cmd: u32) -> (r: bool)
    ensures
        r == (cmd & RETRO_ENVIRONMENT_EXPERIMENTAL == RETRO_ENVIRONMENT_EXPERIMENTAL),
{
    (cmd & RETRO_ENVIRONMENT_EXPERIMENTAL) == RETRO_ENVIRONMENT_EXPERIMENTAL
}

/// Whether the command number carries the private mark.
pub fn is_private(cmd: u32) -> (r: bool)
    ensures
        r == (cmd & RETRO_ENVIRONMENT_PRIVATE == RETRO_ENVIRONMENT_PRIVATE),
{
    (cmd & RETRO_ENVIRONMENT_PRIVATE) == RETRO_ENVIRONMENT_PRIVATE
}

/// The classes of input device.
#[derive(Clone, Copy, Debug, PartialEq, Eq, Structural)]
pub enum RetroDevice {
    NoDevice,
    RetroPad,
    Mouse,
    Keyboard,
    Lightgun,
    Analog,
    Pointer,
    Unknown,
}

impl RetroDevice {
    /// The number that the protocol gives to this item.
    pub open spec fn code(self) -> u32 {
        match self {
            RetroDevice::NoDevice => 0,
            RetroDevice::RetroPad => 1,
            RetroDevice::Mouse => 2,
            RetroDevice::Keyboard => 3,
            RetroDevice::Lightgun => 4,
            RetroDevice::Analog => 5,
            RetroDevice::Pointer => 6,
            RetroDevice::Unknown => 7,
        }
    }

    /// The number that the protocol gives to this item.
    pub fn to_u32(&self) -> (r: u32)
        ensures
            r == self.code(),
    {
        match self {
            RetroDevice::NoDevice => 0,
            RetroDevice::RetroPad => 1,
            RetroDevice::Mouse => 2,
            RetroDevice::Keyboard => 3,
            RetroDevice::Lightgun => 4,
            RetroDevice::Analog => 5,
            RetroDevice::Pointer => 6,
            RetroDevice::Unknown => 7,
        }
    }

    /// The item with the given number, if the protocol has one.
    pub open spec fn lookup(id: u32) -> Option<RetroDevice> {
        if id == 0 {
            Some(RetroDevice::NoDevice)
        } else if id == 1 {
            Some(RetroDevice::RetroPad)
        } else if id == 2 {
            Some(RetroDevice::Mouse)
        } else if id == 3 {
            Some(RetroDevice::Keyboard)
        } else if id == 4 {
            Some(RetroDevice::Lightgun)
        } else if id == 5 {
            Some(RetroDevice::Analog)
        } else if id == 6 {
            Some(RetroDevice::Pointer)
        } else if id == 7 {
            Some(RetroDevice::Unknown)
        } else {
            None
        }
    }

    /// The item with the given number, if the protocol has one.
    pub fn from_u32(id: u32) -> (r: Option<RetroDevice>)
        ensures
            r == RetroDevice::lookup(id),
    {
        match id {
            0 => Some(RetroDevice::NoDevice),
            1 => Some(RetroDevice::RetroPad),
            2 => Some(RetroDevice::Mouse),
            3 => Some(RetroDevice::Keyboard),
            4 => Some(RetroDevice::Lightgun),
            5 => Some(RetroDevice::Analog),
            6 => Some(RetroDevice::Pointer),
            7 => Some(RetroDevice::Unknown),
            _ => None,
        }
    }

    /// Looking up the number of an item gives the item, and an item that a
    /// number gives has that number.
    pub proof fn law_lookup(e: RetroDevice, id: u32)
        ensures
            RetroDevice::lookup(e.code()) == Some(e),
            RetroDevice::lookup(id) matches Some(x) ==> x.code() == id,
    {
    }

    /// The item with the given number, `Unknown` where the protocol has none.
    pub open spec fn of(id: u32) -> RetroDevice {
        match RetroDevice::lookup(id) {
            Some(e) => e,
            None => RetroDevice::Unknown,
        }
    }

    /// The name under which this item is shown.
    pub open spec fn text(self) -> Seq<char> {
        match self {
            RetroDevice::NoDevice => "None"@,
            RetroDevice::RetroPad => "RetroPad"@,
            RetroDevice::Mouse => "Mouse"@,
            RetroDevice::Keyboard => "Keyboard"@,
            RetroDevice::Lightgun => "Lightgun"@,
            RetroDevice::Analog => "RetroPad-Analog"@,
            RetroDevice::Pointer => "Pointer"@,
            RetroDevice::Unknown => "Unknown"@,
        }
    }

    /// The name under which this item is shown.
    pub fn name(&self) -> (s: String)
        ensures
            s@ == self.text(),
    {
        match self {
            RetroDevice::NoDevice => String::from_str("None"),
            RetroDevice::RetroPad => String::from_str("RetroPad"),
            RetroDevice::Mouse => String::from_str("Mouse"),
            RetroDevice::Keyboard => String::from_str("Keyboard"),
            RetroDevice::Lightgun => String::from_str("Lightgun"),
            RetroDevice::Analog => String::from_str("RetroPad-Analog"),
            RetroDevice::Pointer => String::from_str("Pointer"),
            RetroDevice::Unknown => String::from_str("Unknown"),
        }
    }

    /// The class of the device with the given number: the class bits
    /// decide, and a class that the protocol does not have is `Unknown`.
    pub fn new(id: u32) -> (r: RetroDevice)
        ensures
            r == RetroDevice::of(id & RETRO_DEVICE_MASK),
    {
        match RetroDevice::from_u32(id & RETRO_DEVICE_MASK) {
            Some(d) => d,
            None => RetroDevice::Unknown,
        }
    }

    /// What `identify` gives: the name of the class, followed by `-` and
    /// the subclass in decimal where the subclass is not zero.
    pub open spec fn identify_text(id: u32) -> Seq<char> {
        let dev = RetroDevice::of(id & RETRO_DEVICE_MASK).text();
        if id >> RETRO_DEVICE_TYPE_SHIFT == 0 {
            dev
        } else {
            dev + "-"@ + decimal((id >> RETRO_DEVICE_TYPE_SHIFT) as nat)
        }
    }

    /// Names a device: its class, and its subclass where it has one.
    pub fn identify(id: u32) -> (s: String)
        ensures
            s@ == RetroDevice::identify_text(id),
    {
        let dev = Self::new(id);
        let uid = id >> RETRO_DEVICE_TYPE_SHIFT;

        let dev_str = dev.name();

        if uid == 0 {
            dev_str
        } else {
            let uid_str = u32_to_string(uid);
            dev_str.concat("-").concat(uid_str.as_str())
        }
    }
}

/// The buttons of the joypad, and the request for all of them at once.
#[derive(Clone, Copy, Debug, PartialEq, Eq, Structural)]
pub enum RetroPadButton {
    B,
    Y,
    Select,
    Start,
    Up,
    Down,
    Left,
    Right,
    A,
    X,
    L,
    R,
    L2,
    R2,
    L3,
    R3,
    Mask,
    Unknown,
}

impl RetroPadButton {
    /// The number that the protocol gives to this item.
    pub open spec fn code(self) -> u32 {
        match self {
            RetroPadButton::B => 0,
            RetroPadButton::Y => 1,
            RetroPadButton::Select => 2,
            RetroPadButton::Start => 3,
            RetroPadButton::Up => 4,
            RetroPadButton::Down => 5,
            RetroPadButton::Left => 6,
            RetroPadButton::Right => 7,
            RetroPadButton::A => 8,
            RetroPadButton::X => 9,
            RetroPadButton::L => 10,
            RetroPadButton::R => 11,
            RetroPadButton::L2 => 12,
            RetroPadButton::R2 => 13,
            RetroPadButton::L3 => 14,
            RetroPadButton::R3 => 15,
            RetroPadButton::Mask => 256,
            RetroPadButton::Unknown => 257,
        }
    }

    /// The number that the protocol gives to this item.
    pub fn to_u32(&self) -> (r: u32)
        ensures
            r == self.code(),
    {
        match self {
            RetroPadButton::B => 0,
            RetroPadButton::Y => 1,
            RetroPadButton::Select => 2,
            RetroPadButton::Start => 3,
            RetroPadButton::Up => 4,
            RetroPadButton::Down => 5,
            RetroPadButton::Left => 6,
            RetroPadButton::Right => 7,
            RetroPadButton::A => 8,
            RetroPadButton::X => 9,
            RetroPadButton::L => 10,
            RetroPadButton::R => 11,
            RetroPadButton::L2 => 12,
            RetroPadButton::R2 => 13,
            RetroPadButton::L3 => 14,
            RetroPadButton::R3 => 15,
            RetroPadButton::Mask => 256,
            RetroPadButton::Unknown => 257,
        }
    }

    /// The item with the given number, if the protocol has one.
    pub open spec fn lookup(id: u32) -> Option<RetroPadButton> {
        if id == 0 {
            Some(RetroPadButton::B)
        } else if id == 1 {
            Some(RetroPadButton::Y)
        } else if id == 2 {
            Some(RetroPadButton::Select)
        } else if id == 3 {
            Some(RetroPadButton::Start)
        } else if id == 4 {
            Some(RetroPadButton::Up)
        } else if id == 5 {
            Some(RetroPadButton::Down)
        } else if id == 6 {
            Some(RetroPadButton::Left)
        } else if id == 7 {
            Some(RetroPadButton::Right)
        } else if id == 8 {
            Some(RetroPadButton::A)
        } else if id == 9 {
            Some(RetroPadButton::X)
        } else if id == 10 {
            Some(RetroPadButton::L)
        } else if id == 11 {
            Some(RetroPadButton::R)
        } else if id == 12 {
            Some(RetroPadButton::L2)
        } else if id == 13 {
            Some(RetroPadButton::R2)
        } else if id == 14 {
            Some(RetroPadButton::L3)
        } else if id == 15 {
            Some(RetroPadButton::R3)
        } else if id == 256 {
            Some(RetroPadButton::Mask)
        } else if id == 257 {
            Some(RetroPadButton::Unknown)
        } else {
            None
        }
    }

    /// The item with the given number, if the protocol has one.
    pub fn from_u32(id: u32) -> (r: Option<RetroPadButton>)
        ensures
            r == RetroPadButton::lookup(id),
    {
        match id {
            0 => Some(RetroPadButton::B),
            1 => Some(RetroPadButton::Y),
            2 => Some(RetroPadButton::Select),
            3 => Some(RetroPadButton::Start),
            4 => Some(RetroPadButton::Up),
            5 => Some(RetroPadButton::Down),
            6 => Some(RetroPadButton::Left),
            7 => Some(RetroPadButton::Right),
            8 => Some(RetroPadButton::A),
            9 => Some(RetroPadButton::X),
            10 => Some(RetroPadButton::L),
            11 => Some(RetroPadButton::R),
            12 => Some(RetroPadButton::L2),
            13 => Some(RetroPadButton::R2),
            14 => Some(RetroPadButton::L3),
            15 => Some(RetroPadButton::R3),
            256 => Some(RetroPadButton::Mask),
            257 => Some(RetroPadButton::Unknown),
            _ => None,
        }
    }

    /// Looking up the number of an item gives the item, and an item that a
    /// number gives has that number.
    pub proof fn law_lookup(e: RetroPadButton, id: u32)
        ensures
            RetroPadButton::lookup(e.code()) == Some(e),
            RetroPadButton::lookup(id) matches Some(x) ==> x.code() == id,
    {
    }

    /// The item with the given number, `Unknown` where the protocol has none.
    pub open spec fn of(id: u32) -> RetroPadButton {
        match RetroPadButton::lookup(id) {
            Some(e) => e,
            None => RetroPadButton::Unknown,
        }
    }

    /// The name under which this item is shown.
    pub open spec fn text(self) -> Seq<char> {
        match self {
            RetroPadButton::B => "B"@,
            RetroPadButton::Y => "Y"@,
            RetroPadButton::Select => "Select"@,
            RetroPadButton::Start => "Start"@,
            RetroPadButton::Up => "Up"@,
            RetroPadButton::Down => "Down"@,
            RetroPadButton::Left => "Left"@,
            RetroPadButton::Right => "Right"@,
            RetroPadButton::A => "A"@,
            RetroPadButton::X => "X"@,
            RetroPadButton::L => "L"@,
            RetroPadButton::R => "R"@,
            RetroPadButton::L2 => "L2"@,
            RetroPadButton::R2 => "R2"@,
            RetroPadButton::L3 => "L3"@,
            RetroPadButton::R3 => "R3"@,
            RetroPadButton::Mask => "Mask"@,
            RetroPadButton::Unknown => "Unknown"@,
        }
    }

    /// The name under which this item is shown.
    pub fn name(&self) -> (s: String)
        ensures
            s@ == self.text(),
    {
        match self {
            RetroPadButton::B => String::from_str("B"),
            RetroPadButton::Y => String::from_str("Y"),
            RetroPadButton::Select => String::from_str("Select"),
            RetroPadButton::Start => String::from_str("Start"),
            RetroPadButton::Up => String::from_str("Up"),
            RetroPadButton::Down => String::from_str("Down"),
            RetroPadButton::Left => String::from_str("Left"),
            RetroPadButton::Right => String::from_str("Right"),
            RetroPadButton::A => String::from_str("A"),
            RetroPadButton::X => String::from_str("X"),
            RetroPadButton::L => String::from_str("L"),
            RetroPadButton::R => String::from_str("R"),
            RetroPadButton::L2 => String::from_str("L2"),
            RetroPadButton::R2 => String::from_str("R2"),
            RetroPadButton::L3 => String::from_str("L3"),
            RetroPadButton::R3 => String::from_str("R3"),
            RetroPadButton::Mask => String::from_str("Mask"),
            RetroPadButton::Unknown => String::from_str("Unknown"),
        }
    }

    /// The item with the given number, `Unknown` where the protocol has none.
    pub fn new(id: u32) -> (r: RetroPadButton)
        ensures
            r == RetroPadButton::of(id),
    {
        match RetroPadButton::from_u32(id) {
            Some(b) => b,
            None => RetroPadButton::Unknown,
        }
    }
}

/// The commands of the environment callback.
#[derive(Clone, Copy, Debug, PartialEq, Eq, Structural)]
pub enum RetroEnvironment {
    SetRotation,
    GetOverscan,
    GetCanDupe,
    SetMessage,
    Shutdown,
    SetPerformanceLevel,
    GetSystemDirectory,
    SetPixelFormat,
    SetInputDescriptors,
    SetKeyboardCallback,
    SetDiskControlInterface,
    SetHwRender,
    GetVariable,
    SetVariables,
    GetVariableUpdate,
    SetSupportNoGame,
    GetLibretroPath,
    SetFrameTimeCallback,
    SetAudioCallback,
    GetRumbleInterface,
    GetInputDeviceCapabilities,
    GetSensorInterface,
    GetCameraInterface,
    GetLogInterface,
    GetPerfInterface,
    GetLocationInterface,
    GetCoreAssetsDirectory,
    GetSaveDirectory,
    SetSystemAvInfo,
    SetProcAddressCallback,
    SetSubsystemInfo,
    SetControllerInfo,
    SetMemoryMaps,
    SetGeometry,
    GetUsername,
    GetLanguage,
    GetCurrentSoftwareFramebuffer,
    GetHwRenderInterface,
    SetSupportAchievements,
    SetHwRenderContextNegotiationInterface,
    SetSerializationQuirks,
    SetHwSharedContext,
    GetVfsInterface,
    GetLedInterface,
    GetAudioVideoEnable,
    GetMidiInterface,
    GetFastforwarding,
    GetTargetRefreshRate,
    GetInputBitmasks,
    GetCoreOptionsVersion,
    SetCoreOptions,
    SetCoreOptionsIntl,
    SetCoreOptionsDisplay,
    GetPreferredHwRender,
    GetDiskControlInterfaceVersion,
    SetDiskControlExtInterface,
    GetMessageInterfaceVersion,
    SetMessageExt,
    GetInputMaxUsers,
    SetAudioBufferStatusCallback,
    SetMinimumAudioLatency,
    SetFastforwardingOverride,
    SetContentInfoOverride,
    GetGameInfoExt,
    SetCoreOptionsV2,
    SetCoreOptionsV2Intl,
    SetCoreOptionsUpdateDisplayCallback,
    SetVariable,
    GetThrottleState,
}

impl RetroEnvironment {
    /// The number that the protocol gives to this item.
    pub open spec fn code(self) -> u32 {
        match self {
            RetroEnvironment::SetRotation => 1,
            RetroEnvironment::GetOverscan => 2,
            RetroEnvironment::GetCanDupe => 3,
            RetroEnvironment::SetMessage => 6,
            RetroEnvironment::Shutdown => 7,
            RetroEnvironment::SetPerformanceLevel => 8,
            RetroEnvironment::GetSystemDirectory => 9,
            RetroEnvironment::SetPixelFormat => 10,
            RetroEnvironment::SetInputDescriptors => 11,
            RetroEnvironment::SetKeyboardCallback => 12,
            RetroEnvironment::SetDiskControlInterface => 13,
            RetroEnvironment::SetHwRender => 14,
            RetroEnvironment::GetVariable => 15,
            RetroEnvironment::SetVariables => 16,
            RetroEnvironment::GetVariableUpdate => 17,
            RetroEnvironment::SetSupportNoGame => 18,
            RetroEnvironment::GetLibretroPath => 19,
            RetroEnvironment::SetFrameTimeCallback => 21,
            RetroEnvironment::SetAudioCallback => 22,
            RetroEnvironment::GetRumbleInterface => 23,
            RetroEnvironment::GetInputDeviceCapabilities => 24,
            RetroEnvironment::GetSensorInterface => 0x10019,
            RetroEnvironment::GetCameraInterface => 0x1001A,
            RetroEnvironment::GetLogInterface => 27,
            RetroEnvironment::GetPerfInterface => 28,
            RetroEnvironment::GetLocationInterface => 29,
            RetroEnvironment::GetCoreAssetsDirectory => 30,
            RetroEnvironment::GetSaveDirectory => 31,
            RetroEnvironment::SetSystemAvInfo => 32,
            RetroEnvironment::SetProcAddressCallback => 33,
            RetroEnvironment::SetSubsystemInfo => 34,
            RetroEnvironment::SetControllerInfo => 35,
            RetroEnvironment::SetMemoryMaps => 0x10024,
            RetroEnvironment::SetGeometry => 37,
            RetroEnvironment::GetUsername => 38,
            RetroEnvironment::GetLanguage => 39,
            RetroEnvironment::GetCurrentSoftwareFramebuffer => 0x10028,
            RetroEnvironment::GetHwRenderInterface => 0x10029,
            RetroEnvironment::SetSupportAchievements => 0x1002A,
            RetroEnvironment::SetHwRenderContextNegotiationInterface => 0x1002B,
            RetroEnvironment::SetSerializationQuirks => 44,
            RetroEnvironment::SetHwSharedContext => 0x1002C,
            RetroEnvironment::GetVfsInterface => 0x1002D,
            RetroEnvironment::GetLedInterface => 0x1002E,
            RetroEnvironment::GetAudioVideoEnable => 0x1002F,
            RetroEnvironment::GetMidiInterface => 0x10030,
            RetroEnvironment::GetFastforwarding => 0x10031,
            RetroEnvironment::GetTargetRefreshRate => 0x10032,
            RetroEnvironment::GetInputBitmasks => 0x10033,
            RetroEnvironment::GetCoreOptionsVersion => 52,
            RetroEnvironment::SetCoreOptions => 53,
            RetroEnvironment::SetCoreOptionsIntl => 54,
            RetroEnvironment::SetCoreOptionsDisplay => 55,
            RetroEnvironment::GetPreferredHwRender => 56,
            RetroEnvironment::GetDiskControlInterfaceVersion => 57,
            RetroEnvironment::SetDiskControlExtInterface => 58,
            RetroEnvironment::GetMessageInterfaceVersion => 59,
            RetroEnvironment::SetMessageExt => 60,
            RetroEnvironment::GetInputMaxUsers => 61,
            RetroEnvironment::SetAudioBufferStatusCallback => 62,
            RetroEnvironment::SetMinimumAudioLatency => 63,
            RetroEnvironment::SetFastforwardingOverride => 64,
            RetroEnvironment::SetContentInfoOverride => 65,
            RetroEnvironment::GetGameInfoExt => 66,
            RetroEnvironment::SetCoreOptionsV2 => 67,
            RetroEnvironment::SetCoreOptionsV2Intl => 68,
            RetroEnvironment::SetCoreOptionsUpdateDisplayCallback => 69,
            RetroEnvironment::SetVariable => 70,
            RetroEnvironment::GetThrottleState => 0x10047,
        }
    }

    /// The number that the protocol gives to this item.
    pub fn to_u32(&self) -> (r: u32)
        ensures
            r == self.code(),
    {
        match self {
            RetroEnvironment::SetRotation => 1,
            RetroEnvironment::GetOverscan => 2,
            RetroEnvironment::GetCanDupe => 3,
            RetroEnvironment::SetMessage => 6,
            RetroEnvironment::Shutdown => 7,
            RetroEnvironment::SetPerformanceLevel => 8,
            RetroEnvironment::GetSystemDirectory => 9,
            RetroEnvironment::SetPixelFormat => 10,
            RetroEnvironment::SetInputDescriptors => 11,
            RetroEnvironment::SetKeyboardCallback => 12,
            RetroEnvironment::SetDiskControlInterface => 13,
            RetroEnvironment::SetHwRender => 14,
            RetroEnvironment::GetVariable => 15,
            RetroEnvironment::SetVariables => 16,
            RetroEnvironment::GetVariableUpdate => 17,
            RetroEnvironment::SetSupportNoGame => 18,
            RetroEnvironment::GetLibretroPath => 19,
            RetroEnvironment::SetFrameTimeCallback => 21,
            RetroEnvironment::SetAudioCallback => 22,
            RetroEnvironment::GetRumbleInterface => 23,
            RetroEnvironment::GetInputDeviceCapabilities => 24,
            RetroEnvironment::GetSensorInterface => 0x10019,
            RetroEnvironment::GetCameraInterface => 0x1001A,
            RetroEnvironment::GetLogInterface => 27,
            RetroEnvironment::GetPerfInterface => 28,
            RetroEnvironment::GetLocationInterface => 29,
            RetroEnvironment::GetCoreAssetsDirectory => 30,
            RetroEnvironment::GetSaveDirectory => 31,
            RetroEnvironment::SetSystemAvInfo => 32,
            RetroEnvironment::SetProcAddressCallback => 33,
            RetroEnvironment::SetSubsystemInfo => 34,
            RetroEnvironment::SetControllerInfo => 35,
            RetroEnvironment::SetMemoryMaps => 0x10024,
            RetroEnvironment::SetGeometry => 37,
            RetroEnvironment::GetUsername => 38,
            RetroEnvironment::GetLanguage => 39,
            RetroEnvironment::GetCurrentSoftwareFramebuffer => 0x10028,
            RetroEnvironment::GetHwRenderInterface => 0x10029,
            RetroEnvironment::SetSupportAchievements => 0x1002A,
            RetroEnvironment::SetHwRenderContextNegotiationInterface => 0x1002B,
            RetroEnvironment::SetSerializationQuirks => 44,
            RetroEnvironment::SetHwSharedContext => 0x1002C,
            RetroEnvironment::GetVfsInterface => 0x1002D,
            RetroEnvironment::GetLedInterface => 0x1002E,
            RetroEnvironment::GetAudioVideoEnable => 0x1002F,
            RetroEnvironment::GetMidiInterface => 0x10030,
            RetroEnvironment::GetFastforwarding => 0x10031,
            RetroEnvironment::GetTargetRefreshRate => 0x10032,
            RetroEnvironment::GetInputBitmasks => 0x10033,
            RetroEnvironment::GetCoreOptionsVersion => 52,
            RetroEnvironment::SetCoreOptions => 53,
            RetroEnvironment::SetCoreOptionsIntl => 54,
            RetroEnvironment::SetCoreOptionsDisplay => 55,
            RetroEnvironment::GetPreferredHwRender => 56,
            RetroEnvironment::GetDiskControlInterfaceVersion => 57,
            RetroEnvironment::SetDiskControlExtInterface => 58,
            RetroEnvironment::GetMessageInterfaceVersion => 59,
            RetroEnvironment::SetMessageExt => 60,
            RetroEnvironment::GetInputMaxUsers => 61,
            RetroEnvironment::SetAudioBufferStatusCallback => 62,
            RetroEnvironment::SetMinimumAudioLatency => 63,
            RetroEnvironment::SetFastforwardingOverride => 64,
            RetroEnvironment::SetContentInfoOverride => 65,
            RetroEnvironment::GetGameInfoExt => 66,
            RetroEnvironment::SetCoreOptionsV2 => 67,
            RetroEnvironment::SetCoreOptionsV2Intl => 68,
            RetroEnvironment::SetCoreOptionsUpdateDisplayCallback => 69,
            RetroEnvironment::SetVariable => 70,
            RetroEnvironment::GetThrottleState => 0x10047,
        }
    }

    /// The item with the given number, if the protocol has one.
    pub open spec fn lookup(id: u32) -> Option<RetroEnvironment> {
        if id == 1 {
            Some(RetroEnvironment::SetRotation)
        } else if id == 2 {
            Some(RetroEnvironment::GetOverscan)
        } else if id == 3 {
            Some(RetroEnvironment::GetCanDupe)
        } else if id == 6 {
            Some(RetroEnvironment::SetMessage)
        } else if id == 7 {
            Some(RetroEnvironment::Shutdown)
        } else if id == 8 {
            Some(RetroEnvironment::SetPerformanceLevel)
        } else if id == 9 {
            Some(RetroEnvironment::GetSystemDirectory)
        } else if id == 10 {
            Some(RetroEnvironment::SetPixelFormat)
        } else if id == 11 {
            Some(RetroEnvironment::SetInputDescriptors)
        } else if id == 12 {
            Some(RetroEnvironment::SetKeyboardCallback)
        } else if id == 13 {
            Some(RetroEnvironment::SetDiskControlInterface)
        } else if id == 14 {
            Some(RetroEnvironment::SetHwRender)
        } else if id == 15 {
            Some(RetroEnvironment::GetVariable)
        } else if id == 16 {
            Some(RetroEnvironment::SetVariables)
        } else if id == 17 {
            Some(RetroEnvironment::GetVariableUpdate)
        } else if id == 18 {
            Some(RetroEnvironment::SetSupportNoGame)
        } else if id == 19 {
            Some(RetroEnvironment::GetLibretroPath)
        } else if id == 21 {
            Some(RetroEnvironment::SetFrameTimeCallback)
        } else if id == 22 {
            Some(RetroEnvironment::SetAudioCallback)
        } else if id == 23 {
            Some(RetroEnvironment::GetRumbleInterface)
        } else if id == 24 {
            Some(RetroEnvironment::GetInputDeviceCapabilities)
        } else if id == 0x10019 {
            Some(RetroEnvironment::GetSensorInterface)
        } else if id == 0x1001A {
            Some(RetroEnvironment::GetCameraInterface)
        } else if id == 27 {
            Some(RetroEnvironment::GetLogInterface)
        } else if id == 28 {
            Some(RetroEnvironment::GetPerfInterface)
        } else if id == 29 {
            Some(RetroEnvironment::GetLocationInterface)
        } else if id == 30 {
            Some(RetroEnvironment::GetCoreAssetsDirectory)
        } else if id == 31 {
            Some(RetroEnvironment::GetSaveDirectory)
        } else if id == 32 {
            Some(RetroEnvironment::SetSystemAvInfo)
        } else if id == 33 {
            Some(RetroEnvironment::SetProcAddressCallback)
        } else if id == 34 {
            Some(RetroEnvironment::SetSubsystemInfo)
        } else if id == 35 {
            Some(RetroEnvironment::SetControllerInfo)
        } else if id == 0x10024 {
            Some(RetroEnvironment::SetMemoryMaps)
        } else if id == 37 {
            Some(RetroEnvironment::SetGeometry)
        } else if id == 38 {
            Some(RetroEnvironment::GetUsername)
        } else if id == 39 {
            Some(RetroEnvironment::GetLanguage)
        } else if id == 0x10028 {
            Some(RetroEnvironment::GetCurrentSoftwareFramebuffer)
        } else if id == 0x10029 {
            Some(RetroEnvironment::GetHwRenderInterface)
        } else if id == 0x1002A {
            Some(RetroEnvironment::SetSupportAchievements)
        } else if id == 0x1002B {
            Some(RetroEnvironment::SetHwRenderContextNegotiationInterface)
        } else if id == 44 {
            Some(RetroEnvironment::SetSerializationQuirks)
        } else if id == 0x1002C {
            Some(RetroEnvironment::SetHwSharedContext)
        } else if id == 0x1002D {
            Some(RetroEnvironment::GetVfsInterface)
        } else if id == 0x1002E {
            Some(RetroEnvironment::GetLedInterface)
        } else if id == 0x1002F {
            Some(RetroEnvironment::GetAudioVideoEnable)
        } else if id == 0x10030 {
            Some(RetroEnvironment::GetMidiInterface)
        } else if id == 0x10031 {
            Some(RetroEnvironment::GetFastforwarding)
        } else if id == 0x10032 {
            Some(RetroEnvironment::GetTargetRefreshRate)
        } else if id == 0x10033 {
            Some(RetroEnvironment::GetInputBitmasks)
        } else if id == 52 {
            Some(RetroEnvironment::GetCoreOptionsVersion)
        } else if id == 53 {
            Some(RetroEnvironment::SetCoreOptions)
        } else if id == 54 {
            Some(RetroEnvironment::SetCoreOptionsIntl)
        } else if id == 55 {
            Some(RetroEnvironment::SetCoreOptionsDisplay)
        } else if id == 56 {
            Some(RetroEnvironment::GetPreferredHwRender)
        } else if id == 57 {
            Some(RetroEnvironment::GetDiskControlInterfaceVersion)
        } else if id == 58 {
            Some(RetroEnvironment::SetDiskControlExtInterface)
        } else if id == 59 {
            Some(RetroEnvironment::GetMessageInterfaceVersion)
        } else if id == 60 {
            Some(RetroEnvironment::SetMessageExt)
        } else if id == 61 {
            Some(RetroEnvironment::GetInputMaxUsers)
        } else if id == 62 {
            Some(RetroEnvironment::SetAudioBufferStatusCallback)
        } else if id == 63 {
            Some(RetroEnvironment::SetMinimumAudioLatency)
        } else if id == 64 {
            Some(RetroEnvironment::SetFastforwardingOverride)
        } else if id == 65 {
            Some(RetroEnvironment::SetContentInfoOverride)
        } else if id == 66 {
            Some(RetroEnvironment::GetGameInfoExt)
        } else if id == 67 {
            Some(RetroEnvironment::SetCoreOptionsV2)
        } else if id == 68 {
            Some(RetroEnvironment::SetCoreOptionsV2Intl)
        } else if id == 69 {
            Some(RetroEnvironment::SetCoreOptionsUpdateDisplayCallback)
        } else if id == 70 {
            Some(RetroEnvironment::SetVariable)
        } else if id == 0x10047 {
            Some(RetroEnvironment::GetThrottleState)
        } else {
            None
        }
    }

    /// The item with the given number, if the protocol has one.
    pub fn from_u32(id: u32) -> (r: Option<RetroEnvironment>)
        ensures
            r == RetroEnvironment::lookup(id),
    {
        match id {
            1 => Some(RetroEnvironment::SetRotation),
            2 => Some(RetroEnvironment::GetOverscan),
            3 => Some(RetroEnvironment::GetCanDupe),
            6 => Some(RetroEnvironment::SetMessage),
            7 => Some(RetroEnvironment::Shutdown),
            8 => Some(RetroEnvironment::SetPerformanceLevel),
            9 => Some(RetroEnvironment::GetSystemDirectory),
            10 => Some(RetroEnvironment::SetPixelFormat),
            11 => Some(RetroEnvironment::SetInputDescriptors),
            12 => Some(RetroEnvironment::SetKeyboardCallback),
            13 => Some(RetroEnvironment::SetDiskControlInterface),
            14 => Some(RetroEnvironment::SetHwRender),
            15 => Some(RetroEnvironment::GetVariable),
            16 => Some(RetroEnvironment::SetVariables),
            17 => Some(RetroEnvironment::GetVariableUpdate),
            18 => Some(RetroEnvironment::SetSupportNoGame),
            19 => Some(RetroEnvironment::GetLibretroPath),
            21 => Some(RetroEnvironment::SetFrameTimeCallback),
            22 => Some(RetroEnvironment::SetAudioCallback),
            23 => Some(RetroEnvironment::GetRumbleInterface),
            24 => Some(RetroEnvironment::GetInputDeviceCapabilities),
            0x10019 => Some(RetroEnvironment::GetSensorInterface),
            0x1001A => Some(RetroEnvironment::GetCameraInterface),
            27 => Some(RetroEnvironment::GetLogInterface),
            28 => Some(RetroEnvironment::GetPerfInterface),
            29 => Some(RetroEnvironment::GetLocationInterface),
            30 => Some(RetroEnvironment::GetCoreAssetsDirectory),
            31 => Some(RetroEnvironment::GetSaveDirectory),
            32 => Some(RetroEnvironment::SetSystemAvInfo),
            33 => Some(RetroEnvironment::SetProcAddressCallback),
            34 => Some(RetroEnvironment::SetSubsystemInfo),
            35 => Some(RetroEnvironment::SetControllerInfo),
            0x10024 => Some(RetroEnvironment::SetMemoryMaps),
            37 => Some(RetroEnvironment::SetGeometry),
            38 => Some(RetroEnvironment::GetUsername),
            39 => Some(RetroEnvironment::GetLanguage),
            0x10028 => Some(RetroEnvironment::GetCurrentSoftwareFramebuffer),
            0x10029 => Some(RetroEnvironment::GetHwRenderInterface),
            0x1002A => Some(RetroEnvironment::SetSupportAchievements),
            0x1002B => Some(RetroEnvironment::SetHwRenderContextNegotiationInterface),
            44 => Some(RetroEnvironment::SetSerializationQuirks),
            0x1002C => Some(RetroEnvironment::SetHwSharedContext),
            0x1002D => Some(RetroEnvironment::GetVfsInterface),
            0x1002E => Some(RetroEnvironment::GetLedInterface),
            0x1002F => Some(RetroEnvironment::GetAudioVideoEnable),
            0x10030 => Some(RetroEnvironment::GetMidiInterface),
            0x10031 => Some(RetroEnvironment::GetFastforwarding),
            0x10032 => Some(RetroEnvironment::GetTargetRefreshRate),
            0x10033 => Some(RetroEnvironment::GetInputBitmasks),
            52 => Some(RetroEnvironment::GetCoreOptionsVersion),
            53 => Some(RetroEnvironment::SetCoreOptions),
            54 => Some(RetroEnvironment::SetCoreOptionsIntl),
            55 => Some(RetroEnvironment::SetCoreOptionsDisplay),
            56 => Some(RetroEnvironment::GetPreferredHwRender),
            57 => Some(RetroEnvironment::GetDiskControlInterfaceVersion),
            58 => Some(RetroEnvironment::SetDiskControlExtInterface),
            59 => Some(RetroEnvironment::GetMessageInterfaceVersion),
            60 => Some(RetroEnvironment::SetMessageExt),
            61 => Some(RetroEnvironment::GetInputMaxUsers),
            62 => Some(RetroEnvironment::SetAudioBufferStatusCallback),
            63 => Some(RetroEnvironment::SetMinimumAudioLatency),
            64 => Some(RetroEnvironment::SetFastforwardingOverride),
            65 => Some(RetroEnvironment::SetContentInfoOverride),
            66 => Some(RetroEnvironment::GetGameInfoExt),
            67 => Some(RetroEnvironment::SetCoreOptionsV2),
            68 => Some(RetroEnvironment::SetCoreOptionsV2Intl),
            69 => Some(RetroEnvironment::SetCoreOptionsUpdateDisplayCallback),
            70 => Some(RetroEnvironment::SetVariable),
            0x10047 => Some(RetroEnvironment::GetThrottleState),
            _ => None,
        }
    }

    /// Looking up the number of an item gives the item, and an item that a
    /// number gives has that number.
    pub proof fn law_lookup(e: RetroEnvironment, id: u32)
        ensures
            RetroEnvironment::lookup(e.code()) == Some(e),
            RetroEnvironment::lookup(id) matches Some(x) ==> x.code() == id,
    {
    }

    /// The name under which this item is shown.
    pub open spec fn text(self) -> Seq<char> {
        match self {
            RetroEnvironment::SetRotation => "SetRotation"@,
            RetroEnvironment::GetOverscan => "GetOverscan"@,
            RetroEnvironment::GetCanDupe => "GetCanDupe"@,
            RetroEnvironment::SetMessage => "SetMessage"@,
            RetroEnvironment::Shutdown => "Shutdown"@,
            RetroEnvironment::SetPerformanceLevel => "SetPerformanceLevel"@,
            RetroEnvironment::GetSystemDirectory => "GetSystemDirectory"@,
            RetroEnvironment::SetPixelFormat => "SetPixelFormat"@,
            RetroEnvironment::SetInputDescriptors => "SetInputDescriptors"@,
            RetroEnvironment::SetKeyboardCallback => "SetKeyboardCallback"@,
            RetroEnvironment::SetDiskControlInterface => "SetDiskControlInterface"@,
            RetroEnvironment::SetHwRender => "SetHwRender"@,
            RetroEnvironment::GetVariable => "GetVariable"@,
            RetroEnvironment::SetVariables => "SetVariables"@,
            RetroEnvironment::GetVariableUpdate => "GetVariableUpdate"@,
            RetroEnvironment::SetSupportNoGame => "SetSupportNoGame"@,
            RetroEnvironment::GetLibretroPath => "GetLibretroPath"@,
            RetroEnvironment::SetFrameTimeCallback => "SetFrameTimeCallback"@,
            RetroEnvironment::SetAudioCallback => "SetAudioCallback"@,
            RetroEnvironment::GetRumbleInterface => "GetRumbleInterface"@,
            RetroEnvironment::GetInputDeviceCapabilities => "GetInputDeviceCapabilities"@,
            RetroEnvironment::GetSensorInterface => "GetSensorInterface"@,
            RetroEnvironment::GetCameraInterface => "GetCameraInterface"@,
            RetroEnvironment::GetLogInterface => "GetLogInterface"@,
            RetroEnvironment::GetPerfInterface => "GetPerfInterface"@,
            RetroEnvironment::GetLocationInterface => "GetLocationInterface"@,
            RetroEnvironment::GetCoreAssetsDirectory => "GetCoreAssetsDirectory"@,
            RetroEnvironment::GetSaveDirectory => "GetSaveDirectory"@,
            RetroEnvironment::SetSystemAvInfo => "SetSystemAvInfo"@,
            RetroEnvironment::SetProcAddressCallback => "SetProcAddressCallback"@,
            RetroEnvironment::SetSubsystemInfo => "SetSubsystemInfo"@,
            RetroEnvironment::SetControllerInfo => "SetControllerInfo"@,
            RetroEnvironment::SetMemoryMaps => "SetMemoryMaps"@,
            RetroEnvironment::SetGeometry => "SetGeometry"@,
            RetroEnvironment::GetUsername => "GetUsername"@,
            RetroEnvironment::GetLanguage => "GetLanguage"@,
            RetroEnvironment::GetCurrentSoftwareFramebuffer => "GetCurrentSoftwareFramebuffer"@,
            RetroEnvironment::GetHwRenderInterface => "GetHwRenderInterface"@,
            RetroEnvironment::SetSupportAchievements => "SetSupportAchievements"@,
            RetroEnvironment::SetHwRenderContextNegotiationInterface => "SetHwRenderContextNegotiationInterface"@,
            RetroEnvironment::SetSerializationQuirks => "SetSerializationQuirks"@,
            RetroEnvironment::SetHwSharedContext => "SetHwSharedContext"@,
            RetroEnvironment::GetVfsInterface => "GetVfsInterface"@,
            RetroEnvironment::GetLedInterface => "GetLedInterface"@,
            RetroEnvironment::GetAudioVideoEnable => "GetAudioVideoEnable"@,
            RetroEnvironment::GetMidiInterface => "GetMidiInterface"@,
            RetroEnvironment::GetFastforwarding => "GetFastforwarding"@,
            RetroEnvironment::GetTargetRefreshRate => "GetTargetRefreshRate"@,
            RetroEnvironment::GetInputBitmasks => "GetInputBitmasks"@,
            RetroEnvironment::GetCoreOptionsVersion => "GetCoreOptionsVersion"@,
            RetroEnvironment::SetCoreOptions => "SetCoreOptions"@,
            RetroEnvironment::SetCoreOptionsIntl => "SetCoreOptionsIntl"@,
            RetroEnvironment::SetCoreOptionsDisplay => "SetCoreOptionsDisplay"@,
            RetroEnvironment::GetPreferredHwRender => "GetPreferredHwRender"@,
            RetroEnvironment::GetDiskControlInterfaceVersion => "GetDiskControlInterfaceVersion"@,
            RetroEnvironment::SetDiskControlExtInterface => "SetDiskControlExtInterface"@,
            RetroEnvironment::GetMessageInterfaceVersion => "GetMessageInterfaceVersion"@,
            RetroEnvironment::SetMessageExt => "SetMessageExt"@,
            RetroEnvironment::GetInputMaxUsers => "GetInputMaxUsers"@,
            RetroEnvironment::SetAudioBufferStatusCallback => "SetAudioBufferStatusCallback"@,
            RetroEnvironment::SetMinimumAudioLatency => "SetMinimumAudioLatency"@,
            RetroEnvironment::SetFastforwardingOverride => "SetFastforwardingOverride"@,
            RetroEnvironment::SetContentInfoOverride => "SetContentInfoOverride"@,
            RetroEnvironment::GetGameInfoExt => "GetGameInfoExt"@,
            RetroEnvironment::SetCoreOptionsV2 => "SetCoreOptionsV2"@,
            RetroEnvironment::SetCoreOptionsV2Intl => "SetCoreOptionsV2Intl"@,
            RetroEnvironment::SetCoreOptionsUpdateDisplayCallback => "SetCoreOptionsUpdateDisplayCallback"@,
            RetroEnvironment::SetVariable => "SetVariable"@,
            RetroEnvironment::GetThrottleState => "GetThrottleState"@,
        }
    }

    /// The name under which this item is shown.
    pub fn name(&self) -> (s: String)
        ensures
            s@ == self.text(),
    {
        match self {
            RetroEnvironment::SetRotation => String::from_str("SetRotation"),
            RetroEnvironment::GetOverscan => String::from_str("GetOverscan"),
            RetroEnvironment::GetCanDupe => String::from_str("GetCanDupe"),
            RetroEnvironment::SetMessage => String::from_str("SetMessage"),
            RetroEnvironment::Shutdown => String::from_str("Shutdown"),
            RetroEnvironment::SetPerformanceLevel => String::from_str("SetPerformanceLevel"),
            RetroEnvironment::GetSystemDirectory => String::from_str("GetSystemDirectory"),
            RetroEnvironment::SetPixelFormat => String::from_str("SetPixelFormat"),
            RetroEnvironment::SetInputDescriptors => String::from_str("SetInputDescriptors"),
            RetroEnvironment::SetKeyboardCallback => String::from_str("SetKeyboardCallback"),
            RetroEnvironment::SetDiskControlInterface => String::from_str("SetDiskControlInterface"),
            RetroEnvironment::SetHwRender => String::from_str("SetHwRender"),
            RetroEnvironment::GetVariable => String::from_str("GetVariable"),
            RetroEnvironment::SetVariables => String::from_str("SetVariables"),
            RetroEnvironment::GetVariableUpdate => String::from_str("GetVariableUpdate"),
            RetroEnvironment::SetSupportNoGame => String::from_str("SetSupportNoGame"),
            RetroEnvironment::GetLibretroPath => String::from_str("GetLibretroPath"),
            RetroEnvironment::SetFrameTimeCallback => String::from_str("SetFrameTimeCallback"),
            RetroEnvironment::SetAudioCallback => String::from_str("SetAudioCallback"),
            RetroEnvironment::GetRumbleInterface => String::from_str("GetRumbleInterface"),
            RetroEnvironment::GetInputDeviceCapabilities => String::from_str("GetInputDeviceCapabilities"),
            RetroEnvironment::GetSensorInterface => String::from_str("GetSensorInterface"),
            RetroEnvironment::GetCameraInterface => String::from_str("GetCameraInterface"),
            RetroEnvironment::GetLogInterface => String::from_str("GetLogInterface"),
            RetroEnvironment::GetPerfInterface => String::from_str("GetPerfInterface"),
            RetroEnvironment::GetLocationInterface => String::from_str("GetLocationInterface"),
            RetroEnvironment::GetCoreAssetsDirectory => String::from_str("GetCoreAssetsDirectory"),
            RetroEnvironment::GetSaveDirectory => String::from_str("GetSaveDirectory"),
            RetroEnvironment::SetSystemAvInfo => String::from_str("SetSystemAvInfo"),
            RetroEnvironment::SetProcAddressCallback => String::from_str("SetProcAddressCallback"),
            RetroEnvironment::SetSubsystemInfo => String::from_str("SetSubsystemInfo"),
            RetroEnvironment::SetControllerInfo => String::from_str("SetControllerInfo"),
            RetroEnvironment::SetMemoryMaps => String::from_str("SetMemoryMaps"),
            RetroEnvironment::SetGeometry => String::from_str("SetGeometry"),
            RetroEnvironment::GetUsername => String::from_str("GetUsername"),
            RetroEnvironment::GetLanguage => String::from_str("GetLanguage"),
            RetroEnvironment::GetCurrentSoftwareFramebuffer => String::from_str("GetCurrentSoftwareFramebuffer"),
            RetroEnvironment::GetHwRenderInterface => String::from_str("GetHwRenderInterface"),
            RetroEnvironment::SetSupportAchievements => String::from_str("SetSupportAchievements"),
            RetroEnvironment::SetHwRenderContextNegotiationInterface => String::from_str("SetHwRenderContextNegotiationInterface"),
            RetroEnvironment::SetSerializationQuirks => String::from_str("SetSerializationQuirks"),
            RetroEnvironment::SetHwSharedContext => String::from_str("SetHwSharedContext"),
            RetroEnvironment::GetVfsInterface => String::from_str("GetVfsInterface"),
            RetroEnvironment::GetLedInterface => String::from_str("GetLedInterface"),
            RetroEnvironment::GetAudioVideoEnable => String::from_str("GetAudioVideoEnable"),
            RetroEnvironment::GetMidiInterface => String::from_str("GetMidiInterface"),
            RetroEnvironment::GetFastforwarding => String::from_str("GetFastforwarding"),
            RetroEnvironment::GetTargetRefreshRate => String::from_str("GetTargetRefreshRate"),
            RetroEnvironment::GetInputBitmasks => String::from_str("GetInputBitmasks"),
            RetroEnvironment::GetCoreOptionsVersion => String::from_str("GetCoreOptionsVersion"),
            RetroEnvironment::SetCoreOptions => String::from_str("SetCoreOptions"),
            RetroEnvironment::SetCoreOptionsIntl => String::from_str("SetCoreOptionsIntl"),
            RetroEnvironment::SetCoreOptionsDisplay => String::from_str("SetCoreOptionsDisplay"),
            RetroEnvironment::GetPreferredHwRender => String::from_str("GetPreferredHwRender"),
            RetroEnvironment::GetDiskControlInterfaceVersion => String::from_str("GetDiskControlInterfaceVersion"),
            RetroEnvironment::SetDiskControlExtInterface => String::from_str("SetDiskControlExtInterface"),
            RetroEnvironment::GetMessageInterfaceVersion => String::from_str("GetMessageInterfaceVersion"),
            RetroEnvironment::SetMessageExt => String::from_str("SetMessageExt"),
            RetroEnvironment::GetInputMaxUsers => String::from_str("GetInputMaxUsers"),
            RetroEnvironment::SetAudioBufferStatusCallback => String::from_str("SetAudioBufferStatusCallback"),
            RetroEnvironment::SetMinimumAudioLatency => String::from_str("SetMinimumAudioLatency"),
            RetroEnvironment::SetFastforwardingOverride => String::from_str("SetFastforwardingOverride"),
            RetroEnvironment::SetContentInfoOverride => String::from_str("SetContentInfoOverride"),
            RetroEnvironment::GetGameInfoExt => String::from_str("GetGameInfoExt"),
            RetroEnvironment::SetCoreOptionsV2 => String::from_str("SetCoreOptionsV2"),
            RetroEnvironment::SetCoreOptionsV2Intl => String::from_str("SetCoreOptionsV2Intl"),
            RetroEnvironment::SetCoreOptionsUpdateDisplayCallback => String::from_str("SetCoreOptionsUpdateDisplayCallback"),
            RetroEnvironment::SetVariable => String::from_str("SetVariable"),
            RetroEnvironment::GetThrottleState => String::from_str("GetThrottleState"),
        }
    }
}

/// The buttons and axes of the mouse.
#[derive(Clone, Copy, Debug, PartialEq, Eq, Structural)]
pub enum RetroMouseButton {
    X,
    Y,
    Left,
    Right,
    WheelUp,
    WheelDown,
    Middle,
    HWheelUp,
    HWheelDown,
    B4,
    B5,
    Unknown,
}

impl RetroMouseButton {
    /// The number that the protocol gives to this item.
    pub open spec fn code(self) -> u32 {
        match self {
            RetroMouseButton::X => 0,
            RetroMouseButton::Y => 1,
            RetroMouseButton::Left => 2,
            RetroMouseButton::Right => 3,
            RetroMouseButton::WheelUp => 4,
            RetroMouseButton::WheelDown => 5,
            RetroMouseButton::Middle => 6,
            RetroMouseButton::HWheelUp => 7,
            RetroMouseButton::HWheelDown => 8,
            RetroMouseButton::B4 => 9,
            RetroMouseButton::B5 => 10,
            RetroMouseButton::Unknown => 11,
        }
    }

    /// The number that the protocol gives to this item.
    pub fn to_u32(&self) -> (r: u32)
        ensures
            r == self.code(),
    {
        match self {
            RetroMouseButton::X => 0,
            RetroMouseButton::Y => 1,
            RetroMouseButton::Left => 2,
            RetroMouseButton::Right => 3,
            RetroMouseButton::WheelUp => 4,
            RetroMouseButton::WheelDown => 5,
            RetroMouseButton::Middle => 6,
            RetroMouseButton::HWheelUp => 7,
            RetroMouseButton::HWheelDown => 8,
            RetroMouseButton::B4 => 9,
            RetroMouseButton::B5 => 10,
            RetroMouseButton::Unknown => 11,
        }
    }

    /// The item with the given number, if the protocol has one.
    pub open spec fn lookup(id: u32) -> Option<RetroMouseButton> {
        if id == 0 {
            Some(RetroMouseButton::X)
        } else if id == 1 {
            Some(RetroMouseButton::Y)
        } else if id == 2 {
            Some(RetroMouseButton::Left)
        } else if id == 3 {
            Some(RetroMouseButton::Right)
        } else if id == 4 {
            Some(RetroMouseButton::WheelUp)
        } else if id == 5 {
            Some(RetroMouseButton::WheelDown)
        } else if id == 6 {
            Some(RetroMouseButton::Middle)
        } else if id == 7 {
            Some(RetroMouseButton::HWheelUp)
        } else if id == 8 {
            Some(RetroMouseButton::HWheelDown)
        } else if id == 9 {
            Some(RetroMouseButton::B4)
        } else if id == 10 {
            Some(RetroMouseButton::B5)
        } else if id == 11 {
            Some(RetroMouseButton::Unknown)
        } else {
            None
        }
    }

    /// The item with the given number, if the protocol has one.
    pub fn from_u32(id: u32) -> (r: Option<RetroMouseButton>)
        ensures
            r == RetroMouseButton::lookup(id),
    {
        match id {
            0 => Some(RetroMouseButton::X),
            1 => Some(RetroMouseButton::Y),
            2 => Some(RetroMouseButton::Left),
            3 => Some(RetroMouseButton::Right),
            4 => Some(RetroMouseButton::WheelUp),
            5 => Some(RetroMouseButton::WheelDown),
            6 => Some(RetroMouseButton::Middle),
            7 => Some(RetroMouseButton::HWheelUp),
            8 => Some(RetroMouseButton::HWheelDown),
            9 => Some(RetroMouseButton::B4),
            10 => Some(RetroMouseButton::B5),
            11 => Some(RetroMouseButton::Unknown),
            _ => None,
        }
    }

    /// Looking up the number of an item gives the item, and an item that a
    /// number gives has that number.
    pub proof fn law_lookup(e: RetroMouseButton, id: u32)
        ensures
            RetroMouseButton::lookup(e.code()) == Some(e),
            RetroMouseButton::lookup(id) matches Some(x) ==> x.code() == id,
    {
    }

    /// The item with the given number, `Unknown` where the protocol has none.
    pub open spec fn of(id: u32) -> RetroMouseButton {
        match RetroMouseButton::lookup(id) {
            Some(e) => e,
            None => RetroMouseButton::Unknown,
        }
    }

    /// The name under which this item is shown.
    pub open spec fn text(self) -> Seq<char> {
        match self {
            RetroMouseButton::X => "X"@,
            RetroMouseButton::Y => "Y"@,
            RetroMouseButton::Left => "Left"@,
            RetroMouseButton::Right => "Right"@,
            RetroMouseButton::WheelUp => "Wheel Up"@,
            RetroMouseButton::WheelDown => "Wheel Down"@,
            RetroMouseButton::Middle => "Middle"@,
            RetroMouseButton::HWheelUp => "HWheel Up"@,
            RetroMouseButton::HWheelDown => "HWheel Down"@,
            RetroMouseButton::B4 => "Btn 4"@,
            RetroMouseButton::B5 => "Btn 5"@,
            RetroMouseButton::Unknown => "Unknown"@,
        }
    }

    /// The name under which this item is shown.
    pub fn name(&self) -> (s: String)
        ensures
            s@ == self.text(),
    {
        match self {
            RetroMouseButton::X => String::from_str("X"),
            RetroMouseButton::Y => String::from_str("Y"),
            RetroMouseButton::Left => String::from_str("Left"),
            RetroMouseButton::Right => String::from_str("Right"),
            RetroMouseButton::WheelUp => String::from_str("Wheel Up"),
            RetroMouseButton::WheelDown => String::from_str("Wheel Down"),
            RetroMouseButton::Middle => String::from_str("Middle"),
            RetroMouseButton::HWheelUp => String::from_str("HWheel Up"),
            RetroMouseButton::HWheelDown => String::from_str("HWheel Down"),
            RetroMouseButton::B4 => String::from_str("Btn 4"),
            RetroMouseButton::B5 => String::from_str("Btn 5"),
            RetroMouseButton::Unknown => String::from_str("Unknown"),
        }
    }

    /// The item with the given number, `Unknown` where the protocol has none.
    pub fn new(id: u32) -> (r: RetroMouseButton)
        ensures
            r == RetroMouseButton::of(id),
    {
        match RetroMouseButton::from_u32(id) {
            Some(b) => b,
            None => RetroMouseButton::Unknown,
        }
    }
}

/// The buttons and axes of the lightgun.
#[derive(Clone, Copy, Debug, PartialEq, Eq, Structural)]
pub enum RetroLightgun {
    ScreenX,
    ScreenY,
    Offscreen,
    Trigger,
    Reload,
    AuxA,
    AuxB,
    Start,
    Select,
    AuxC,
    DPadUp,
    DPadDown,
    DPadLeft,
    DPadRight,
    X,
    Y,
    Pause,
    Unknown,
}

impl RetroLightgun {
    /// The number that the protocol gives to this item.
    pub open spec fn code(self) -> u32 {
        match self {
            RetroLightgun::ScreenX => 13,
            RetroLightgun::ScreenY => 14,
            RetroLightgun::Offscreen => 15,
            RetroLightgun::Trigger => 2,
            RetroLightgun::Reload => 16,
            RetroLightgun::AuxA => 3,
            RetroLightgun::AuxB => 4,
            RetroLightgun::Start => 6,
            RetroLightgun::Select => 7,
            RetroLightgun::AuxC => 8,
            RetroLightgun::DPadUp => 9,
            RetroLightgun::DPadDown => 10,
            RetroLightgun::DPadLeft => 11,
            RetroLightgun::DPadRight => 12,
            RetroLightgun::X => 0,
            RetroLightgun::Y => 1,
            RetroLightgun::Pause => 5,
            RetroLightgun::Unknown => 255,
        }
    }

    /// The number that the protocol gives to this item.
    pub fn to_u32(&self) -> (r: u32)
        ensures
            r == self.code(),
    {
        match self {
            RetroLightgun::ScreenX => 13,
            RetroLightgun::ScreenY => 14,
            RetroLightgun::Offscreen => 15,
            RetroLightgun::Trigger => 2,
            RetroLightgun::Reload => 16,
            RetroLightgun::AuxA => 3,
            RetroLightgun::AuxB => 4,
            RetroLightgun::Start => 6,
            RetroLightgun::Select => 7,
            RetroLightgun::AuxC => 8,
            RetroLightgun::DPadUp => 9,
            RetroLightgun::DPadDown => 10,
            RetroLightgun::DPadLeft => 11,
            RetroLightgun::DPadRight => 12,
            RetroLightgun::X => 0,
            RetroLightgun::Y => 1,
            RetroLightgun::Pause => 5,
            RetroLightgun::Unknown => 255,
        }
    }

    /// The item with the given number, if the protocol has one.
    pub open spec fn lookup(id: u32) -> Option<RetroLightgun> {
        if id == 13 {
            Some(RetroLightgun::ScreenX)
        } else if id == 14 {
            Some(RetroLightgun::ScreenY)
        } else if id == 15 {
            Some(RetroLightgun::Offscreen)
        } else if id == 2 {
            Some(RetroLightgun::Trigger)
        } else if id == 16 {
            Some(RetroLightgun::Reload)
        } else if id == 3 {
            Some(RetroLightgun::AuxA)
        } else if id == 4 {
            Some(RetroLightgun::AuxB)
        } else if id == 6 {
            Some(RetroLightgun::Start)
        } else if id == 7 {
            Some(RetroLightgun::Select)
        } else if id == 8 {
            Some(RetroLightgun::AuxC)
        } else if id == 9 {
            Some(RetroLightgun::DPadUp)
        } else if id == 10 {
            Some(RetroLightgun::DPadDown)
        } else if id == 11 {
            Some(RetroLightgun::DPadLeft)
        } else if id == 12 {
            Some(RetroLightgun::DPadRight)
        } else if id == 0 {
            Some(RetroLightgun::X)
        } else if id == 1 {
            Some(RetroLightgun::Y)
        } else if id == 5 {
            Some(RetroLightgun::Pause)
        } else if id == 255 {
            Some(RetroLightgun::Unknown)
        } else {
            None
        }
    }

    /// The item with the given number, if the protocol has one.
    pub fn from_u32(id: u32) -> (r: Option<RetroLightgun>)
        ensures
            r == RetroLightgun::lookup(id),
    {
        match id {
            13 => Some(RetroLightgun::ScreenX),
            14 => Some(RetroLightgun::ScreenY),
            15 => Some(RetroLightgun::Offscreen),
            2 => Some(RetroLightgun::Trigger),
            16 => Some(RetroLightgun::Reload),
            3 => Some(RetroLightgun::AuxA),
            4 => Some(RetroLightgun::AuxB),
            6 => Some(RetroLightgun::Start),
            7 => Some(RetroLightgun::Select),
            8 => Some(RetroLightgun::AuxC),
            9 => Some(RetroLightgun::DPadUp),
            10 => Some(RetroLightgun::DPadDown),
            11 => Some(RetroLightgun::DPadLeft),
            12 => Some(RetroLightgun::DPadRight),
            0 => Some(RetroLightgun::X),
            1 => Some(RetroLightgun::Y),
            5 => Some(RetroLightgun::Pause),
            255 => Some(RetroLightgun::Unknown),
            _ => None,
        }
    }

    /// Looking up the number of an item gives the item, and an item that a
    /// number gives has that number.
    pub proof fn law_lookup(e: RetroLightgun, id: u32)
        ensures
            RetroLightgun::lookup(e.code()) == Some(e),
            RetroLightgun::lookup(id) matches Some(x) ==> x.code() == id,
    {
    }

    /// The item with the given number, `Unknown` where the protocol has none.
    pub open spec fn of(id: u32) -> RetroLightgun {
        match RetroLightgun::lookup(id) {
            Some(e) => e,
            None => RetroLightgun::Unknown,
        }
    }

    /// The name under which this item is shown.
    pub open spec fn text(self) -> Seq<char> {
        match self {
            RetroLightgun::ScreenX => "ScreenX"@,
            RetroLightgun::ScreenY => "ScreenY"@,
            RetroLightgun::Offscreen => "Offscreen"@,
            RetroLightgun::Trigger => "Trigger"@,
            RetroLightgun::Reload => "Reload"@,
            RetroLightgun::AuxA => "AuxA"@,
            RetroLightgun::AuxB => "AuxB"@,
            RetroLightgun::Start => "Start"@,
            RetroLightgun::Select => "Select"@,
            RetroLightgun::AuxC => "AuxC"@,
            RetroLightgun::DPadUp => "DPadUp"@,
            RetroLightgun::DPadDown => "DPadDown"@,
            RetroLightgun::DPadLeft => "DPadLeft"@,
            RetroLightgun::DPadRight => "DPadRight"@,
            RetroLightgun::X => "X"@,
            RetroLightgun::Y => "Y"@,
            RetroLightgun::Pause => "Pause"@,
            RetroLightgun::Unknown => "Unknown"@,
        }
    }

    /// The name under which this item is shown.
    pub fn name(&self) -> (s: String)
        ensures
            s@ == self.text(),
    {
        match self {
            RetroLightgun::ScreenX => String::from_str("ScreenX"),
            RetroLightgun::ScreenY => String::from_str("ScreenY"),
            RetroLightgun::Offscreen => String::from_str("Offscreen"),
            RetroLightgun::Trigger => String::from_str("Trigger"),
            RetroLightgun::Reload => String::from_str("Reload"),
            RetroLightgun::AuxA => String::from_str("AuxA"),
            RetroLightgun::AuxB => String::from_str("AuxB"),
            RetroLightgun::Start => String::from_str("Start"),
            RetroLightgun::Select => String::from_str("Select"),
            RetroLightgun::AuxC => String::from_str("AuxC"),
            RetroLightgun::DPadUp => String::from_str("DPadUp"),
            RetroLightgun::DPadDown => String::from_str("DPadDown"),
            RetroLightgun::DPadLeft => String::from_str("DPadLeft"),
            RetroLightgun::DPadRight => String::from_str("DPadRight"),
            RetroLightgun::X => String::from_str("X"),
            RetroLightgun::Y => String::from_str("Y"),
            RetroLightgun::Pause => String::from_str("Pause"),
            RetroLightgun::Unknown => String::from_str("Unknown"),
        }
    }

    /// The item with the given number, `Unknown` where the protocol has none.
    pub fn new(id: u32) -> (r: RetroLightgun)
        ensures
            r == RetroLightgun::of(id),
    {
        match RetroLightgun::from_u32(id) {
            Some(b) => b,
            None => RetroLightgun::Unknown,
        }
    }
}

/// The axes of the pointer.
#[derive(Clone, Copy, Debug, PartialEq, Eq, Structural)]
pub enum RetroPointer {
    X,
    Y,
    Pressed,
    Count,
    Unknown,
}

impl RetroPointer {
    /// The number that the protocol gives to this item.
    pub open spec fn code(self) -> u32 {
        match self {
            RetroPointer::X => 0,
            RetroPointer::Y => 1,
            RetroPointer::Pressed => 2,
            RetroPointer::Count => 3,
            RetroPointer::Unknown => 4,
        }
    }

    /// The number that the protocol gives to this item.
    pub fn to_u32(&self) -> (r: u32)
        ensures
            r == self.code(),
    {
        match self {
            RetroPointer::X => 0,
            RetroPointer::Y => 1,
            RetroPointer::Pressed => 2,
            RetroPointer::Count => 3,
            RetroPointer::Unknown => 4,
        }
    }

    /// The item with the given number, if the protocol has one.
    pub open spec fn lookup(id: u32) -> Option<RetroPointer> {
        if id == 0 {
            Some(RetroPointer::X)
        } else if id == 1 {
            Some(RetroPointer::Y)
        } else if id == 2 {
            Some(RetroPointer::Pressed)
        } else if id == 3 {
            Some(RetroPointer::Count)
        } else if id == 4 {
            Some(RetroPointer::Unknown)
        } else {
            None
        }
    }

    /// The item with the given number, if the protocol has one.
    pub fn from_u32(id: u32) -> (r: Option<RetroPointer>)
        ensures
            r == RetroPointer::lookup(id),
    {
        match id {
            0 => Some(RetroPointer::X),
            1 => Some(RetroPointer::Y),
            2 => Some(RetroPointer::Pressed),
            3 => Some(RetroPointer::Count),
            4 => Some(RetroPointer::Unknown),
            _ => None,
        }
    }

    /// Looking up the number of an item gives the item, and an item that a
    /// number gives has that number.
    pub proof fn law_lookup(e: RetroPointer, id: u32)
        ensures
            RetroPointer::lookup(e.code()) == Some(e),
            RetroPointer::lookup(id) matches Some(x) ==> x.code() == id,
    {
    }

    /// The item with the given number, `Unknown` where the protocol has none.
    pub open spec fn of(id: u32) -> RetroPointer {
        match RetroPointer::lookup(id) {
            Some(e) => e,
            None => RetroPointer::Unknown,
        }
    }

    /// The name under which this item is shown.
    pub open spec fn text(self) -> Seq<char> {
        match self {
            RetroPointer::X => "X"@,
            RetroPointer::Y => "Y"@,
            RetroPointer::Pressed => "Pressed"@,
            RetroPointer::Count => "Count"@,
            RetroPointer::Unknown => "Unknown"@,
        }
    }

    /// The name under which this item is shown.
    pub fn name(&self) -> (s: String)
        ensures
            s@ == self.text(),
    {
        match self {
            RetroPointer::X => String::from_str("X"),
            RetroPointer::Y => String::from_str("Y"),
            RetroPointer::Pressed => String::from_str("Pressed"),
            RetroPointer::Count => String::from_str("Count"),
            RetroPointer::Unknown => String::from_str("Unknown"),
        }
    }

    /// The item with the given number, `Unknown` where the protocol has none.
    pub fn new(id: u32) -> (r: RetroPointer)
        ensures
            r == RetroPointer::of(id),
    {
        match RetroPointer::from_u32(id) {
            Some(b) => b,
            None => RetroPointer::Unknown,
        }
    }
}

/// The text of one decimal digit.
pub open spec fn digit_text(d: nat) -> Seq<char> {
    if d == 0 {
        "0"@
    } else if d == 1 {
        "1"@
    } else if d == 2 {
        "2"@
    } else if d == 3 {
        "3"@
    } else if d == 4 {
        "4"@
    } else if d == 5 {
        "5"@
    } else if d == 6 {
        "6"@
    } else if d == 7 {
        "7"@
    } else if d == 8 {
        "8"@
    } else {
        "9"@
    }
}

/// The decimal numeral of a number, without leading zeros.
pub open spec fn decimal(n: nat) -> Seq<char>
    decreases n,
{
    if n < 10 {
        digit_text(n)
    } else {
        decimal(n / 10) + digit_text(n % 10)
    }
}

/// The text of one decimal digit.
fn digit_str(d: u32) -> (s: &'static str)
    requires
        d < 10,
    ensures
        s@ == digit_text(d as nat),
{
    match d {
        0 => "0",
        1 => "1",
        2 => "2",
        3 => "3",
        4 => "4",
        5 => "5",
        6 => "6",
        7 => "7",
        8 => "8",
        _ => "9",
    }
}

/// Writes a number in decimal.
pub fn u32_to_string(n: u32) -> (s: String)
    ensures
        s@ == decimal(n as nat),
    decreases n,
{
    if n < 10 {
        String::from_str(digit_str(n))
    } else {
        u32_to_string(n / 10).concat(digit_str(n % 10))
    }
}

/// What `identify_button` gives: the name of the button or axis with the
/// given number on a device of the given class.
pub open spec fn identify_button_text(dev: u32, id: u32) -> Seq<char> {
    match RetroDevice::of(dev & RETRO_DEVICE_MASK) {
        RetroDevice::NoDevice => "None"@,
        RetroDevice::RetroPad => RetroPadButton::of(id).text(),
        RetroDevice::Mouse => RetroMouseButton::of(id).text(),
        RetroDevice::Keyboard => "Keyboard"@,
        RetroDevice::Lightgun => RetroLightgun::of(id).text(),
        RetroDevice::Analog => "Analog"@,
        RetroDevice::Pointer => RetroPointer::of(id).text(),
        RetroDevice::Unknown => "Unknown"@,
    }
}

/// Names a button or axis of a device.
pub fn identify_button(dev: u32, id: u32) -> (s: String)
    ensures
        s@ == identify_button_text(dev, id),
{
    let dev = RetroDevice::new(dev);

    match dev {
        RetroDevice::NoDevice => String::from_str("None"),
        RetroDevice::RetroPad => RetroPadButton::new(id).name(),
        RetroDevice::Mouse => RetroMouseButton::new(id).name(),
        RetroDevice::Keyboard => String::from_str("Keyboard"),
        RetroDevice::Lightgun => RetroLightgun::new(id).name(),
        RetroDevice::Analog => String::from_str("Analog"),
        RetroDevice::Pointer => RetroPointer::new(id).name(),
        RetroDevice::Unknown => String::from_str("Unknown"),
    }
}

} // verus!

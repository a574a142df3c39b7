use gamepie::audio::Audio;
use gamepie::colour::background_colour;
use gamepie::colour::error_background_colour;
use gamepie::colour::error_colour;
use gamepie::colour::error_text_colour;
use gamepie::colour::info_colour;
use gamepie::colour::text_colour;
use gamepie::colour::text_sel_colour;
use gamepie::commands::AudioCmd;
use gamepie::commands::AudioMsg;
use gamepie::commands::ScreenMessage;
use gamepie::commands::ScreenToast;
use gamepie::controller::device_gone;
use gamepie::controller::Controller;
use gamepie::discard_error;
use gamepie::enums::RetroPadButton;
use gamepie::error::GamepieError;
use gamepie::gpio::force_exit;
use gamepie::gpio::GpioAction;
use gamepie::gpio::GpioValue;
use gamepie::logging::gamepie_log_level;
use gamepie::logging::level_filter;
use gamepie::logging::LogLevel;
use gamepie::mapping::get_mapping;
use gamepie::mapping::map_8bitdo;
use gamepie::mapping::map_empty;
use gamepie::mapping::map_switchwired;
use gamepie::mapping::Axis;
use gamepie::mapping::EventCode;
use gamepie::mapping::InputEvent;
use gamepie::mapping::Key;
use gamepie::mapping::Mapping;
use gamepie::ok_res;
use gamepie::portable::PString;
use gamepie::problem::Problem;
use gamepie::proxy::create;
use gamepie::proxy::destroy;
use gamepie::proxy::ProxyWarning;
use gamepie::proxy::RetroProxy;
use gamepie::types::CoreInfo;
use gamepie::types::RetroGameInfo;
use gamepie::types::RetroSystemInfo;

#[test]
fn error_texts() {
    assert_eq!(GamepieError::NoGames.message(), "no games found");
    assert_eq!(GamepieError::GameLoadError.message(), "game load error");
    assert_eq!(GamepieError::NoCore.message(), "no compatible core");
    assert_eq!(GamepieError::System.message(), "internal system error");
    assert_eq!(GamepieError::MismatchSave.message(), "mismatched save");
    assert_eq!(GamepieError::UnsupportedVideo.message(), "unsupported video");
    assert_eq!(GamepieError::NoAudio.message(), "audio error");
    assert_eq!(GamepieError::NoVideo.message(), "video error");
    assert_eq!(GamepieError::String.message(), "string error");
}

#[test]
fn colours_are_packed_565() {
    assert_eq!(error_colour(), 0xF800);
    assert_eq!(info_colour(), 0xFFFF);
    assert_eq!(background_colour(), (19 << 11) | (6 << 5) | 21);
    assert_eq!(error_background_colour(), (30 << 5) | 26);
    assert_eq!(text_colour(), (30 << 11) | (54 << 5) | 23);
    assert_eq!(text_sel_colour(), (30 << 11) | (46 << 5) | 15);
    assert_eq!(error_text_colour(), 0xFFFF);
}

#[test]
fn toasts() {
    let t = ScreenToast::info(ScreenMessage::VolumeUp(3));
    assert_eq!(t.duration(), 440_000_000);
    assert_eq!(t.colour(), 0xFFFF);
    assert!(!t.is_warning());
    assert!(!t.elapsed(440_000_000));
    assert!(t.elapsed(440_000_001));
    let e = ScreenToast::error(ScreenMessage::Unstable);
    assert_eq!(e.duration(), 3_000_000_000);
    assert_eq!(e.colour(), 0xF800);
    assert!(e.is_warning());
    let n = ScreenToast::new(ScreenMessage::Message(String::from("hi")), 5, 7);
    assert_eq!((n.duration(), n.colour()), (5, 7));
    assert!(!n.is_warning());
    assert!(ScreenToast::error(ScreenMessage::AudioIssue).is_warning());
    assert!(ScreenToast::error(ScreenMessage::VideoIssue).is_warning());
    assert!(!ScreenToast::info(ScreenMessage::VolumeDown(1)).is_warning());
}

#[test]
fn problems() {
    assert!(matches!(Problem::fatal(GamepieError::NoAudio), Problem::Fatal(GamepieError::NoAudio)));
    assert!(matches!(
        Problem::warn(ScreenToast::error(ScreenMessage::AudioIssue)),
        Problem::Warn(_)
    ));
}

fn sys(exts: &str) -> RetroSystemInfo {
    RetroSystemInfo {
        library_name: String::from("Name"),
        library_version: String::from("v1"),
        valid_extensions: String::from(exts),
        need_fullpath: true,
        block_extract: false,
    }
}

#[test]
fn core_info_extensions() {
    let c = CoreInfo::new(String::from("/e/c.so"), sys("gb|gbc|dmg"));
    assert_eq!(c.extensions_str(), "gb, gbc, dmg");
    assert!(c.supports("gb"));
    assert!(c.supports("dmg"));
    assert!(!c.supports("g"));
    assert!(!c.supports("gba"));
    assert!(!c.supports(""));
    assert_eq!(c.name(), "Name");
    assert_eq!(c.path(), "/e/c.so");
    assert_eq!(c.sys_info().library_version, "v1");
    assert!(c.sys_info().need_fullpath);
    let d = c.clone();
    assert_eq!(d.extensions_str(), "gb, gbc, dmg");
    assert_eq!(d.path(), "/e/c.so");
    let one = CoreInfo::new(String::from("p"), sys("nes"));
    assert_eq!(one.extensions_str(), "nes");
    let none = CoreInfo::new(String::from("p"), sys(""));
    assert_eq!(none.extensions_str(), "");
    assert!(none.supports(""));
}

#[test]
fn game_info_keeps_path() {
    assert_eq!(RetroGameInfo::new("/roms/a.gb").path(), "/roms/a.gb");
}

#[test]
fn controller_state_and_mask() {
    let mut c = Controller::new();
    assert_eq!(c.input_state(RetroPadButton::A), 0);
    assert_eq!(c.input_state(RetroPadButton::Mask), 0);
    c.apply(&vec![(RetroPadButton::B, 1), (RetroPadButton::A, 1), (RetroPadButton::Up, 1)]);
    assert_eq!(c.input_state(RetroPadButton::A), 1);
    assert_eq!(c.input_state(RetroPadButton::Y), 0);
    assert_eq!(c.input_state(RetroPadButton::Mask), (1 << 0) | (1 << 8) | (1 << 4));
    // A later event for the same button wins
    c.apply(&vec![(RetroPadButton::A, 0), (RetroPadButton::R3, 1), (RetroPadButton::A, 2)]);
    assert_eq!(c.input_state(RetroPadButton::A), 2);
    assert_eq!(c.input_state(RetroPadButton::Mask), (1 | (2 << 8) | (1 << 4)) | i16::MIN);
    // Events for what is no button are passed over
    c.apply(&vec![(RetroPadButton::Mask, 1), (RetroPadButton::Unknown, 1)]);
    assert_eq!(c.input_state(RetroPadButton::Unknown), 0);
    assert_eq!(c.input_state(RetroPadButton::A), 2);
}

#[test]
fn device_gone_on_enodev() {
    assert!(device_gone(Some(19)));
    assert!(!device_gone(Some(11)));
    assert!(!device_gone(None));
}

#[test]
fn input_requests() {
    let mut p: RetroProxy<()> = RetroProxy::new(PString::empty(), None);
    p.input_poll(&vec![(RetroPadButton::Start, 1), (RetroPadButton::B, 1)]);
    assert_eq!(p.input_request(0, 1, 3), (1, None));
    assert_eq!(p.input_request(0, 1, 2), (0, None));
    assert_eq!(p.input_request(0, 1, 256), ((1 << 3) | 1, None));
    assert_eq!(p.input_request(0, 1, 999), (0, None));
    // Another port: warned about once
    assert_eq!(
        p.input_request(2, 1, 3),
        (0, Some(String::from("Trying to get input for port 2")))
    );
    assert_eq!(p.input_request(2, 1, 3), (0, None));
    assert_eq!(p.input_request(7, 1, 3), (0, None));
    // Another device: warned about once, apart from the port
    assert_eq!(
        p.input_request(0, 2, 3),
        (0, Some(String::from("Unsupported input device: Mouse")))
    );
    assert_eq!(p.input_request(0, (1 << 8) | 1, 3), (0, None));
    assert_eq!(p.input_request(0, 1, 3), (1, None));
}

#[test]
fn warn_once_per_kind() {
    let mut p: RetroProxy<()> = RetroProxy::new(PString::empty(), None);
    assert!(p.warn_once(ProxyWarning::DeviceType));
    assert!(!p.warn_once(ProxyWarning::DeviceType));
    assert!(p.warn_once(ProxyWarning::DevicePort));
    assert!(!p.warn_once(ProxyWarning::DevicePort));
    assert!(!p.warn_once(ProxyWarning::DeviceType));
}

#[test]
fn proxy_defaults_and_audio() {
    let mut p: RetroProxy<u8> = RetroProxy::new(PString::from_str("/s").unwrap(), Some(9));
    assert!(p.audio_enabled());
    assert!(p.video_enabled());
    assert!(p.get_av().is_none());
    assert_eq!(p.sys_dir().to_str(), "/s");
    match p.audio_sample(vec![1, -2, 3, -4]) {
        AudioMsg::Data(d) => assert_eq!(d, vec![1, -2, 3, -4]),
        _ => panic!("expected samples"),
    }
    match p.audio_problem() {
        Problem::Warn(t) => assert!(matches!(t.message(), ScreenMessage::AudioIssue)),
        _ => panic!("expected a warning"),
    }
    assert!(p.audio_forwarded(true).is_none());
    match p.audio_forwarded(false) {
        Some(Problem::Warn(t)) => assert!(matches!(t.message(), ScreenMessage::AudioIssue)),
        _ => panic!("expected a warning"),
    }
    assert_eq!(p.take_screen(), Some(9));
    assert_eq!(p.take_screen(), None);
    p.put_screen(4);
    assert_eq!(p.take_screen(), Some(4));
}

#[test]
fn screen_moves_between_proxies() {
    let first: RetroProxy<u8> = create(None, PString::from_str("/a").unwrap(), Some(1));
    let mut second = create(Some(first), PString::from_str("/b").unwrap(), None);
    assert_eq!(second.sys_dir().to_str(), "/b");
    second.warn_once(ProxyWarning::DevicePort);
    let mut third = create(Some(second), PString::from_str("/c").unwrap(), None);
    // A new mediator has warned about nothing
    assert!(third.warn_once(ProxyWarning::DevicePort));
    assert_eq!(destroy(Some(third)), Some(1));
    assert_eq!(destroy::<u8>(None), None);
}

#[test]
fn gpio_readings() {
    let none = GpioValue::read(false, false, false, false);
    assert!(!none.any());
    assert_eq!(none.action(), GpioAction::Nothing);
    assert_eq!(none.pause(), 30_000_000);
    let y = GpioValue { a: false, b: false, x: false, y: true };
    assert!(y.any());
    assert_eq!(y.action(), GpioAction::Nothing);
    assert_eq!(y.pause(), 500_000_000);
    let all = GpioValue { a: true, b: true, x: true, y: true };
    assert_eq!(all.action(), GpioAction::Audio(AudioCmd::VolumeDown));
    let ax = GpioValue { a: true, b: false, x: true, y: false };
    assert_eq!(ax.action(), GpioAction::Audio(AudioCmd::VolumeUp));
    let x = GpioValue { a: false, b: false, x: true, y: false };
    assert_eq!(x.action(), GpioAction::Back);
    assert!(!force_exit(3));
    assert!(force_exit(4));
}

#[test]
fn log_levels() {
    assert_eq!(gamepie_log_level(0), LogLevel::Debug);
    assert_eq!(gamepie_log_level(1), LogLevel::Info);
    assert_eq!(gamepie_log_level(2), LogLevel::Warn);
    assert_eq!(gamepie_log_level(3), LogLevel::Error);
    assert_eq!(gamepie_log_level(4), LogLevel::Warn);
    assert_eq!(level_filter(false, false), LogLevel::Info);
    assert_eq!(level_filter(true, false), LogLevel::Debug);
    assert_eq!(level_filter(false, true), LogLevel::Trace);
    assert_eq!(level_filter(true, true), LogLevel::Trace);
}

#[test]
fn results_that_cannot_fail() {
    assert_eq!(discard_error(Ok::<u8, std::convert::Infallible>(3)), 3);
    assert!(ok_res().is_ok());
}

fn key(k: Key, value: i32) -> InputEvent {
    InputEvent { event_code: EventCode::Key(k), value }
}

fn abs(a: Axis, value: i32) -> InputEvent {
    InputEvent { event_code: EventCode::Abs(a), value }
}

#[test]
fn mapping_for_known_devices() {
    assert_eq!(get_mapping(0x45e, 0x2e0), Some(Mapping::Bitdo));
    assert_eq!(get_mapping(0x20d6, 0xa711), Some(Mapping::SwitchWired));
    assert_eq!(get_mapping(0x45e, 0xa711), None);
    assert_eq!(get_mapping(0, 0), None);
}

#[test]
fn switchwired_table() {
    assert_eq!(map_switchwired(key(Key::C, 1)), vec![(RetroPadButton::A, 1)]);
    assert_eq!(map_switchwired(key(Key::East, 0)), vec![(RetroPadButton::B, 0)]);
    assert_eq!(map_switchwired(key(Key::North, 1)), vec![(RetroPadButton::X, 1)]);
    assert_eq!(map_switchwired(key(Key::South, 1)), vec![(RetroPadButton::Y, 1)]);
    assert_eq!(map_switchwired(key(Key::Z, 1)), vec![(RetroPadButton::R, 1)]);
    assert_eq!(map_switchwired(key(Key::Tr, 1)), vec![(RetroPadButton::R2, 1)]);
    assert_eq!(map_switchwired(key(Key::Start, 1)), vec![(RetroPadButton::R3, 1)]);
    assert_eq!(map_switchwired(key(Key::West, 1)), vec![(RetroPadButton::L, 1)]);
    assert_eq!(map_switchwired(key(Key::Tl, 1)), vec![(RetroPadButton::L2, 1)]);
    assert_eq!(map_switchwired(key(Key::Select, 1)), vec![(RetroPadButton::L3, 1)]);
    assert_eq!(map_switchwired(key(Key::Tl2, 1)), vec![(RetroPadButton::Select, 1)]);
    assert_eq!(map_switchwired(key(Key::Tr2, 1)), vec![(RetroPadButton::Start, 1)]);
    assert_eq!(map_switchwired(key(Key::ThumbL, 1)), vec![(RetroPadButton::Select, 1)]);
    assert_eq!(map_switchwired(key(Key::Mode, 2)), vec![(RetroPadButton::Start, 2)]);
    assert_eq!(map_switchwired(key(Key::Other, 1)), vec![]);
    assert_eq!(map_switchwired(key(Key::C, 40000)), vec![]);
    assert_eq!(map_switchwired(key(Key::C, -32768)), vec![(RetroPadButton::A, -32768)]);
    assert_eq!(map_switchwired(abs(Axis::Hat0Y, -1)), vec![(RetroPadButton::Up, 1), (RetroPadButton::Down, 0)]);
    assert_eq!(map_switchwired(abs(Axis::Hat0Y, 0)), vec![(RetroPadButton::Up, 0), (RetroPadButton::Down, 0)]);
    assert_eq!(map_switchwired(abs(Axis::Hat0Y, 1)), vec![(RetroPadButton::Up, 0), (RetroPadButton::Down, 1)]);
    assert_eq!(map_switchwired(abs(Axis::Hat0Y, 2)), vec![]);
    assert_eq!(map_switchwired(abs(Axis::Hat0X, -1)), vec![(RetroPadButton::Left, 1), (RetroPadButton::Right, 0)]);
    assert_eq!(map_switchwired(abs(Axis::Hat0X, 1)), vec![(RetroPadButton::Left, 0), (RetroPadButton::Right, 1)]);
    assert_eq!(map_switchwired(abs(Axis::X, 0)), vec![(RetroPadButton::Left, 1), (RetroPadButton::Right, 0)]);
    assert_eq!(map_switchwired(abs(Axis::X, 63)), vec![(RetroPadButton::Left, 1), (RetroPadButton::Right, 0)]);
    assert_eq!(map_switchwired(abs(Axis::X, 64)), vec![(RetroPadButton::Left, 0), (RetroPadButton::Right, 0)]);
    assert_eq!(map_switchwired(abs(Axis::X, 128)), vec![(RetroPadButton::Left, 0), (RetroPadButton::Right, 0)]);
    assert_eq!(map_switchwired(abs(Axis::X, 191)), vec![(RetroPadButton::Left, 0), (RetroPadButton::Right, 0)]);
    assert_eq!(map_switchwired(abs(Axis::X, 192)), vec![(RetroPadButton::Left, 0), (RetroPadButton::Right, 1)]);
    assert_eq!(map_switchwired(abs(Axis::X, 255)), vec![(RetroPadButton::Left, 0), (RetroPadButton::Right, 1)]);
    assert_eq!(map_switchwired(abs(Axis::Y, 10)), vec![(RetroPadButton::Up, 1), (RetroPadButton::Down, 0)]);
    assert_eq!(map_switchwired(abs(Axis::Y, 250)), vec![(RetroPadButton::Up, 0), (RetroPadButton::Down, 1)]);
    assert_eq!(map_switchwired(abs(Axis::Z, 5)), vec![]);
    assert_eq!(map_switchwired(abs(Axis::Rz, 5)), vec![]);
    assert_eq!(map_switchwired(abs(Axis::Other, 5)), vec![]);
    assert_eq!(map_switchwired(InputEvent { event_code: EventCode::Syn, value: 0 }), vec![]);
    assert_eq!(map_switchwired(InputEvent { event_code: EventCode::Msc, value: 9 }), vec![]);
    assert_eq!(map_switchwired(InputEvent { event_code: EventCode::Other, value: 1 }), vec![]);
}

#[test]
fn bitdo_table() {
    assert_eq!(map_8bitdo(key(Key::Tr, 1)), vec![(RetroPadButton::Start, 1)]);
    assert_eq!(map_8bitdo(key(Key::Tl, 1)), vec![(RetroPadButton::Select, 1)]);
    assert_eq!(map_8bitdo(key(Key::East, 1)), vec![(RetroPadButton::A, 1)]);
    assert_eq!(map_8bitdo(key(Key::South, 1)), vec![(RetroPadButton::B, 1)]);
    assert_eq!(map_8bitdo(key(Key::West, 0)), vec![(RetroPadButton::L, 0)]);
    assert_eq!(map_8bitdo(key(Key::Z, 1)), vec![(RetroPadButton::R, 1)]);
    assert_eq!(map_8bitdo(key(Key::North, 1)), vec![(RetroPadButton::X, 1)]);
    assert_eq!(map_8bitdo(key(Key::C, 1)), vec![(RetroPadButton::Y, 1)]);
    assert_eq!(map_8bitdo(key(Key::Start, 1)), vec![]);
    assert_eq!(map_8bitdo(key(Key::Mode, 1)), vec![]);
    assert_eq!(map_8bitdo(abs(Axis::Y, 0)), vec![(RetroPadButton::Up, 1), (RetroPadButton::Down, 0)]);
    assert_eq!(map_8bitdo(abs(Axis::Y, 32768)), vec![(RetroPadButton::Up, 0), (RetroPadButton::Down, 0)]);
    assert_eq!(map_8bitdo(abs(Axis::Y, 65535)), vec![(RetroPadButton::Up, 0), (RetroPadButton::Down, 1)]);
    assert_eq!(map_8bitdo(abs(Axis::Y, 1)), vec![]);
    assert_eq!(map_8bitdo(abs(Axis::X, 0)), vec![(RetroPadButton::Left, 1), (RetroPadButton::Right, 0)]);
    assert_eq!(map_8bitdo(abs(Axis::X, 32768)), vec![(RetroPadButton::Left, 0), (RetroPadButton::Right, 0)]);
    assert_eq!(map_8bitdo(abs(Axis::X, 65535)), vec![(RetroPadButton::Left, 0), (RetroPadButton::Right, 1)]);
    assert_eq!(map_8bitdo(abs(Axis::Hat0X, 1)), vec![]);
    assert_eq!(map_8bitdo(InputEvent { event_code: EventCode::Syn, value: 0 }), vec![]);
    assert_eq!(map_empty(key(Key::C, 1)), vec![]);
    assert_eq!(Mapping::Bitdo.map(key(Key::C, 1)), vec![(RetroPadButton::Y, 1)]);
    assert_eq!(Mapping::SwitchWired.map(key(Key::C, 1)), vec![(RetroPadButton::A, 1)]);
    assert_eq!(Mapping::Empty.map(key(Key::C, 1)), vec![]);
}

#[test]
fn audio_volume_steps_and_clamps() {
    let mut a = Audio::new();
    assert_eq!(a.volume(), 4);
    for want in [3, 2, 1, 0, 0, 0] {
        let step = a.handle(AudioMsg::Command(AudioCmd::VolumeUp), 0);
        assert_eq!(a.volume(), want);
        assert!(matches!(step.toast.unwrap().message(), ScreenMessage::VolumeUp(v) if *v == want));
    }
    for want in 1..=15 {
        a.handle(AudioMsg::Command(AudioCmd::VolumeDown), 0);
        assert_eq!(a.volume(), want);
    }
    let step = a.handle(AudioMsg::Command(AudioCmd::VolumeDown), 0);
    assert_eq!(a.volume(), 15);
    let t = step.toast.unwrap();
    assert!(matches!(t.message(), ScreenMessage::VolumeDown(15)));
    assert_eq!(t.duration(), 440_000_000);
}

#[test]
fn audio_samples_are_scaled() {
    let mut a = Audio::new();
    a.opened(true, 0);
    let step = a.handle(AudioMsg::Data(vec![1600, -1600, 15, -1, 0, i16::MIN]), 0);
    assert_eq!(step.queue, Some(vec![100, -100, 0, -1, 0, -2048]));
    assert!(step.problem.is_none());
    for _ in 0..4 {
        a.handle(AudioMsg::Command(AudioCmd::VolumeUp), 0);
    }
    assert_eq!(a.scale(&vec![5, -5]), vec![5, -5]);
    for _ in 0..15 {
        a.handle(AudioMsg::Command(AudioCmd::VolumeDown), 0);
    }
    assert_eq!(a.scale(&vec![i16::MAX, i16::MIN, 1]), vec![0, -1, 0]);
}

#[test]
fn audio_device_lifecycle() {
    let mut a = Audio::new();
    // Samples before a device is an error
    let step = a.handle(AudioMsg::Data(vec![1, 2]), 10);
    assert!(step.queue.is_none());
    match step.problem {
        Some(Problem::Warn(t)) => {
            assert!(matches!(t.message(), ScreenMessage::AudioIssue));
            assert_eq!(t.duration(), 1_000_000_000);
            assert_eq!(t.colour(), 0xF800);
        }
        _ => panic!("expected a warning"),
    }
    // Not reported again within the timeout
    let step = a.handle(AudioMsg::Command(AudioCmd::Stop), 4_000_000_010);
    assert!(step.problem.is_none() && !step.clear && !step.close);
    let step = a.handle(AudioMsg::Command(AudioCmd::Stop), 4_000_000_011);
    assert!(step.problem.is_some());

    let step = a.handle(AudioMsg::Command(AudioCmd::Start(44100)), 0);
    assert_eq!(step.open, Some(44100));
    assert!(!step.clear && step.problem.is_none());
    assert!(!a.has_device());
    assert!(a.opened(true, 0).is_none());
    assert!(a.has_device());
    // A start while a device is open clears it and complains
    let step = a.handle(AudioMsg::Command(AudioCmd::Start(32768)), 20_000_000_000);
    assert_eq!(step.open, Some(32768));
    assert!(step.clear);
    assert!(step.problem.is_some());
    // The device did not open: the old one stays
    assert!(a.opened(false, 20_000_000_001).is_none());
    assert!(a.has_device());
    assert!(a.queue_failed(30_000_000_000).is_some());
    let step = a.handle(AudioMsg::Command(AudioCmd::Stop), 0);
    assert!(step.clear && step.close && step.problem.is_none());
    assert!(!a.has_device());
}

use gamepie::callbacks::controller_info_ok;
use gamepie::callbacks::expected_payload;
use gamepie::callbacks::memory_maps_ok;
use gamepie::callbacks::pstr_of;
use gamepie::callbacks::retro_environment_callback_inner;
use gamepie::callbacks::toast_duration;
use gamepie::callbacks::ControllerDescription;
use gamepie::callbacks::CoreOptionDefinition;
use gamepie::callbacks::CoreOptionValue;
use gamepie::callbacks::EnvData;
use gamepie::callbacks::EnvWrite;
use gamepie::callbacks::MemoryDescriptor;
use gamepie::callbacks::PayloadKind;
use gamepie::commands::ScreenMessage;
use gamepie::enums::RetroEnvironment;
use gamepie::error::GamepieError;
use gamepie::portable::PString;
use gamepie::problem::Problem;
use gamepie::proxy::RetroProxy;
use gamepie::types::RetroGameGeometry;
use gamepie::types::RetroSystemAvInfo;
use gamepie::types::RetroSystemTiming;

fn proxy() -> RetroProxy<()> {
    RetroProxy::new(PString::from_str("/root/sys").unwrap(), Some(()))
}

fn av(w: u32, h: u32) -> RetroSystemAvInfo {
    RetroSystemAvInfo {
        geometry: RetroGameGeometry { base_width: w, base_height: h, max_width: w, max_height: h },
        timing: RetroSystemTiming { frame_time: 16_666_667, sample_rate: 44100 },
    }
}

fn c(s: &str) -> Vec<u8> {
    let mut v = s.as_bytes().to_vec();
    v.push(0);
    v
}

fn cmd(e: RetroEnvironment) -> u32 {
    e.to_u32()
}

#[test]
fn geometry_change_matching_is_accepted() {
    let mut p = proxy();
    p.set_av(Some(av(160, 144)));
    let r = retro_environment_callback_inner(
        cmd(RetroEnvironment::SetGeometry),
        &EnvData::Geometry(160, 144),
        &mut p,
    );
    assert!(r.ack);
    assert!(r.problem.is_none());
}

#[test]
fn geometry_change_mismatch_warns_once_per_call() {
    let mut p = proxy();
    p.set_av(Some(av(160, 144)));
    for _ in 0..2 {
        let r = retro_environment_callback_inner(
            cmd(RetroEnvironment::SetGeometry),
            &EnvData::Geometry(256, 224),
            &mut p,
        );
        assert!(!r.ack);
        match r.problem {
            Some(Problem::Warn(t)) => {
                assert!(matches!(t.message(), ScreenMessage::VideoIssue));
                assert_eq!(t.colour(), 0xF800);
                assert_eq!(t.duration(), 3_000_000_000);
            }
            _ => panic!("expected a warning"),
        }
    }
    // Width alone differing is a mismatch too
    let r = retro_environment_callback_inner(37, &EnvData::Geometry(160, 145), &mut p);
    assert!(!r.ack);
}

#[test]
fn geometry_change_before_av_info_is_accepted() {
    let mut p = proxy();
    let r = retro_environment_callback_inner(37, &EnvData::Geometry(1, 2), &mut p);
    assert!(r.ack);
    assert!(r.problem.is_none());
}

#[test]
fn pixel_format_only_rgb565() {
    let mut p = proxy();
    let r = retro_environment_callback_inner(10, &EnvData::PixelFormat(2), &mut p);
    assert!(r.ack);
    assert!(r.problem.is_none());
    for other in [0u32, 1, 3, 99] {
        let r = retro_environment_callback_inner(10, &EnvData::PixelFormat(other), &mut p);
        assert!(!r.ack);
        assert!(matches!(r.problem, Some(Problem::Fatal(GamepieError::UnsupportedVideo))));
    }
}

#[test]
fn system_directory_is_written_but_not_acknowledged() {
    let mut p = proxy();
    let r = retro_environment_callback_inner(9, &EnvData::Empty, &mut p);
    assert!(!r.ack);
    assert!(matches!(r.write, EnvWrite::SystemDirectory));
    assert_eq!(p.sys_dir().to_str(), "/root/sys");
}

#[test]
fn fixed_answers() {
    let mut p = proxy();
    let r = retro_environment_callback_inner(cmd(RetroEnvironment::GetLogInterface), &EnvData::Empty, &mut p);
    assert!(r.ack && matches!(r.write, EnvWrite::LogInterface));
    let r = retro_environment_callback_inner(cmd(RetroEnvironment::GetCoreOptionsVersion), &EnvData::Empty, &mut p);
    assert!(r.ack && matches!(r.write, EnvWrite::Unsigned(1)));
    let r = retro_environment_callback_inner(cmd(RetroEnvironment::GetCanDupe), &EnvData::Empty, &mut p);
    assert!(r.ack && matches!(r.write, EnvWrite::Flag(true)));
    let r = retro_environment_callback_inner(cmd(RetroEnvironment::GetLanguage), &EnvData::Empty, &mut p);
    assert!(r.ack && matches!(r.write, EnvWrite::Unsigned(0)));
    let r = retro_environment_callback_inner(cmd(RetroEnvironment::GetInputBitmasks), &EnvData::Empty, &mut p);
    assert!(r.ack && matches!(r.write, EnvWrite::Nothing));
    let r = retro_environment_callback_inner(cmd(RetroEnvironment::SetPerformanceLevel), &EnvData::PerformanceLevel(3), &mut p);
    assert!(r.ack);
    let r = retro_environment_callback_inner(cmd(RetroEnvironment::SetInputDescriptors), &EnvData::Empty, &mut p);
    assert!(r.ack);
    let r = retro_environment_callback_inner(cmd(RetroEnvironment::GetAudioVideoEnable), &EnvData::Empty, &mut p);
    assert!(r.ack && matches!(r.write, EnvWrite::Signed(3)));
}

#[test]
fn unsupported_commands_are_refused() {
    let mut p = proxy();
    for e in [
        RetroEnvironment::SetHwRender,
        RetroEnvironment::GetVfsInterface,
        RetroEnvironment::SetSupportAchievements,
        RetroEnvironment::GetRumbleInterface,
        RetroEnvironment::SetRotation,
        RetroEnvironment::Shutdown,
        RetroEnvironment::SetCoreOptionsV2,
    ] {
        let r = retro_environment_callback_inner(cmd(e), &EnvData::Empty, &mut p);
        assert!(!r.ack);
        assert!(r.problem.is_none());
        assert!(matches!(r.write, EnvWrite::Nothing));
    }
}

#[test]
fn unknown_command_is_refused() {
    let mut p = proxy();
    for n in [0u32, 4, 5, 20, 72, 0x20000 | 3, 0x10000 | 3, u32::MAX] {
        let r = retro_environment_callback_inner(n, &EnvData::Empty, &mut p);
        assert!(!r.ack);
        assert!(r.problem.is_none());
    }
}

#[test]
fn wrong_payload_is_refused() {
    let mut p = proxy();
    let r = retro_environment_callback_inner(10, &EnvData::Empty, &mut p);
    assert!(!r.ack);
    assert!(r.problem.is_none());
    let r = retro_environment_callback_inner(37, &EnvData::PixelFormat(2), &mut p);
    assert!(!r.ack);
}

#[test]
fn legacy_registration_and_queries() {
    let mut p = proxy();
    assert!(p.vars_updated());
    let defs = vec![
        (c("speed"), c("Game speed; slow|fast")),
        (c("colour"), c("Palette; grey|green|grey")),
        (c("broken"), c("no separator")),
    ];
    let r = retro_environment_callback_inner(16, &EnvData::Variables(defs), &mut p);
    assert!(r.ack);
    assert_eq!(p.vars().get_vars().len(), 2);
    assert_eq!(p.get_var("speed").unwrap().to_str(), "slow");
    assert_eq!(p.get_var("colour").unwrap().to_str(), "grey");
    assert!(p.get_var("broken").is_none());

    let r = retro_environment_callback_inner(17, &EnvData::Empty, &mut p);
    assert!(r.ack && matches!(r.write, EnvWrite::Flag(true)));
    let r = retro_environment_callback_inner(17, &EnvData::Empty, &mut p);
    assert!(r.ack && matches!(r.write, EnvWrite::Flag(false)));

    let r = retro_environment_callback_inner(15, &EnvData::VariableQuery(c("speed")), &mut p);
    assert!(r.ack);
    match r.write {
        EnvWrite::VariableValue(k) => assert_eq!(k, "speed"),
        _ => panic!("expected the key"),
    }
    let r = retro_environment_callback_inner(15, &EnvData::VariableQuery(vec![0xff, 0]), &mut p);
    assert!(!r.ack);
}

#[test]
fn legacy_registration_stops_at_malformed_text() {
    let mut p = proxy();
    let defs = vec![
        (c("a"), c("d; 1|2")),
        (c("b"), vec![0xc3, 0x28, 0]),
        (c("c"), c("d; 3|4")),
    ];
    let r = retro_environment_callback_inner(16, &EnvData::Variables(defs), &mut p);
    assert!(!r.ack);
    assert!(p.get_var("a").is_some());
    assert!(p.get_var("b").is_none());
    assert!(p.get_var("c").is_none());
}

fn def(key: &str, values: &[(&str, Option<&str>)], default: Option<&str>) -> CoreOptionDefinition {
    CoreOptionDefinition {
        key: c(key),
        desc: c("description"),
        info: c("information"),
        values: values
            .iter()
            .map(|(v, l)| CoreOptionValue { value: c(v), label: l.map(c) })
            .collect(),
        default_value: default.map(c),
    }
}

#[test]
fn modern_registration() {
    let mut p = proxy();
    let defs = vec![
        def("a", &[("on", Some("Enabled")), ("off", None)], Some("off")),
        def("b", &[("1", None), ("2", None)], None),
    ];
    let r = retro_environment_callback_inner(53, &EnvData::CoreOptions(defs), &mut p);
    assert!(r.ack);
    assert_eq!(p.get_var("a").unwrap().to_str(), "off");
    assert_eq!(p.get_var("b").unwrap().to_str(), "1");
    let vars = p.vars().get_vars();
    assert_eq!(vars[0].values()[0].1.to_str(), "Enabled");
    assert_eq!(vars[0].values()[1].1.to_str(), "off");
    assert_eq!(vars[0].description(), "description");
    assert_eq!(vars[0].extra_desc(), "information");
}

#[test]
fn localized_registration_reads_the_same_payload() {
    let mut p = proxy();
    let defs = vec![def("a", &[("x", None)], None)];
    let r = retro_environment_callback_inner(54, &EnvData::CoreOptions(defs), &mut p);
    assert!(r.ack);
    assert_eq!(p.get_var("a").unwrap().to_str(), "x");
    assert_eq!(expected_payload(54), PayloadKind::CoreOptionsIntl);
}

#[test]
fn modern_registration_malformed_default_is_no_default() {
    let mut p = proxy();
    let mut d = def("a", &[("x", None), ("y", None)], None);
    d.default_value = Some(vec![0xff, 0]);
    let r = retro_environment_callback_inner(53, &EnvData::CoreOptions(vec![d]), &mut p);
    assert!(r.ack);
    assert_eq!(p.get_var("a").unwrap().to_str(), "x");
}

#[test]
fn modern_registration_stops_at_malformed_value() {
    let mut p = proxy();
    let mut bad = def("b", &[("x", None)], None);
    bad.values.push(CoreOptionValue { value: vec![b'n', b'o'], label: None });
    let defs = vec![def("a", &[("x", None)], None), bad, def("c", &[("x", None)], None)];
    let r = retro_environment_callback_inner(53, &EnvData::CoreOptions(defs), &mut p);
    assert!(!r.ack);
    assert!(p.get_var("a").is_some());
    assert!(p.get_var("b").is_none());
    assert!(p.get_var("c").is_none());
}

#[test]
fn set_variable() {
    let mut p = proxy();
    p.add_var_v0(&pstr_of(b"k\0").unwrap(), &pstr_of(b"d; a|b\0").unwrap());
    let r = retro_environment_callback_inner(70, &EnvData::VariableUpdate(None), &mut p);
    assert!(r.ack);
    let r = retro_environment_callback_inner(
        70,
        &EnvData::VariableUpdate(Some((c("k"), c("b")))),
        &mut p,
    );
    assert!(r.ack);
    assert_eq!(p.get_var("k").unwrap().to_str(), "b");
    let r = retro_environment_callback_inner(
        70,
        &EnvData::VariableUpdate(Some((c("k"), c("z")))),
        &mut p,
    );
    assert!(!r.ack);
    assert_eq!(p.get_var("k").unwrap().to_str(), "b");
    let r = retro_environment_callback_inner(
        70,
        &EnvData::VariableUpdate(Some((c("k"), vec![b'a']))),
        &mut p,
    );
    assert!(!r.ack);
}

#[test]
fn option_display_is_acknowledged_for_any_key() {
    let mut p = proxy();
    p.add_var_v0(&pstr_of(b"k\0").unwrap(), &pstr_of(b"d; a|b\0").unwrap());
    let r = retro_environment_callback_inner(55, &EnvData::OptionDisplay(c("k"), false), &mut p);
    assert!(r.ack);
    assert!(!p.vars().get_vars()[0].visible());
    let r = retro_environment_callback_inner(55, &EnvData::OptionDisplay(c("zz"), false), &mut p);
    assert!(r.ack);
    let r = retro_environment_callback_inner(55, &EnvData::OptionDisplay(vec![1, 0, 2, 0], true), &mut p);
    assert!(!r.ack);
}

#[test]
fn message_duration_from_frame_rate() {
    let mut p = proxy();
    let r = retro_environment_callback_inner(6, &EnvData::Message(c("hello"), 120), &mut p);
    assert!(r.ack);
    match r.problem {
        Some(Problem::Warn(t)) => {
            assert_eq!(t.duration(), 1_000_000_000);
            assert_eq!(t.colour(), 0xFFFF);
            match t.message() {
                ScreenMessage::Message(m) => assert_eq!(m, "hello"),
                _ => panic!("expected a message"),
            }
        }
        _ => panic!("expected a warning"),
    }
    p.set_av(Some(av(160, 144)));
    let r = retro_environment_callback_inner(6, &EnvData::Message(c("hello"), 120), &mut p);
    match r.problem {
        Some(Problem::Warn(t)) => assert_eq!(t.duration(), 120 * 16_666_667),
        _ => panic!("expected a warning"),
    }
    let r = retro_environment_callback_inner(6, &EnvData::Message(vec![0xff, 0], 1), &mut p);
    assert!(!r.ack);
    assert!(r.problem.is_none());
}

#[test]
fn toast_duration_saturates() {
    let mut a = av(1, 1);
    a.timing.frame_time = u64::MAX / 2;
    assert_eq!(toast_duration(Some(a), 3), u64::MAX);
    assert_eq!(toast_duration(Some(a), 2), u64::MAX - 1);
    assert_eq!(toast_duration(Some(a), 0), 0);
    assert_eq!(toast_duration(None, 500), 1_000_000_000);
}

#[test]
fn controller_info_needs_well_formed_names() {
    let good = vec![
        vec![ControllerDescription { desc: c("Pad"), id: 1 }],
        vec![],
        vec![ControllerDescription { desc: c("Mouse"), id: 2 }],
    ];
    assert!(controller_info_ok(&good));
    let mut p = proxy();
    let r = retro_environment_callback_inner(35, &EnvData::ControllerInfo(good), &mut p);
    assert!(r.ack);
    let bad = vec![
        vec![ControllerDescription { desc: c("Pad"), id: 1 }],
        vec![
            ControllerDescription { desc: c("Pad"), id: 1 },
            ControllerDescription { desc: vec![0xff, 0], id: 1 },
        ],
    ];
    assert!(!controller_info_ok(&bad));
    let r = retro_environment_callback_inner(35, &EnvData::ControllerInfo(bad), &mut p);
    assert!(!r.ack);
}

#[test]
fn memory_maps_need_well_formed_names() {
    let good = vec![
        MemoryDescriptor { start: 0, len: 0x100, addrspace: None },
        MemoryDescriptor { start: 0x100, len: 0x100, addrspace: Some(c("ram")) },
    ];
    assert!(memory_maps_ok(&good));
    let mut p = proxy();
    let r = retro_environment_callback_inner(0x10000 | 36, &EnvData::MemoryMaps(good), &mut p);
    assert!(r.ack);
    let bad = vec![MemoryDescriptor { start: 0, len: 1, addrspace: Some(vec![0xff, 0]) }];
    assert!(!memory_maps_ok(&bad));
    // Without the experimental mark the number is another command
    let r = retro_environment_callback_inner(36, &EnvData::MemoryMaps(vec![]), &mut p);
    assert!(!r.ack);
}

#[test]
fn payload_kinds() {
    assert_eq!(expected_payload(37), PayloadKind::Geometry);
    assert_eq!(expected_payload(15), PayloadKind::VariableQuery);
    assert_eq!(expected_payload(70), PayloadKind::VariableUpdate);
    assert_eq!(expected_payload(16), PayloadKind::Variables);
    assert_eq!(expected_payload(53), PayloadKind::CoreOptions);
    assert_eq!(expected_payload(10), PayloadKind::PixelFormat);
    assert_eq!(expected_payload(35), PayloadKind::ControllerInfo);
    assert_eq!(expected_payload(0x10000 | 36), PayloadKind::MemoryMaps);
    assert_eq!(expected_payload(8), PayloadKind::PerformanceLevel);
    assert_eq!(expected_payload(6), PayloadKind::Message);
    assert_eq!(expected_payload(55), PayloadKind::OptionDisplay);
    assert_eq!(expected_payload(9), PayloadKind::Empty);
    assert_eq!(expected_payload(9999), PayloadKind::Empty);
}

#[test]
fn pstr_of_needs_terminator() {
    assert!(pstr_of(b"abc").is_none());
    assert!(pstr_of(b"").is_none());
    assert!(pstr_of(b"a\0c\0").is_none());
    assert_eq!(pstr_of(b"abc\0").unwrap().as_str(), "abc");
    assert_eq!(pstr_of(b"\0").unwrap().as_str(), "");
}

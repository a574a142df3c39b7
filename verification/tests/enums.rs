use gamepie::enums::api_matches;
use gamepie::enums::frontend_api_version;
use gamepie::enums::identify_button;
use gamepie::enums::is_experimental;
use gamepie::enums::is_private;
use gamepie::enums::u32_to_string;
use gamepie::enums::RetroDevice;
use gamepie::enums::RetroEnvironment;
use gamepie::enums::RetroLightgun;
use gamepie::enums::RetroMouseButton;
use gamepie::enums::RetroPadButton;
use gamepie::enums::RetroPointer;

#[test]
fn device_classes() {
    assert_eq!(RetroDevice::new(0), RetroDevice::NoDevice);
    assert_eq!(RetroDevice::new(1), RetroDevice::RetroPad);
    assert_eq!(RetroDevice::new(2), RetroDevice::Mouse);
    assert_eq!(RetroDevice::new(3), RetroDevice::Keyboard);
    assert_eq!(RetroDevice::new(4), RetroDevice::Lightgun);
    assert_eq!(RetroDevice::new(5), RetroDevice::Analog);
    assert_eq!(RetroDevice::new(6), RetroDevice::Pointer);
    assert_eq!(RetroDevice::new(7), RetroDevice::Unknown);
    assert_eq!(RetroDevice::new(200), RetroDevice::Unknown);
    // Only the class bits decide
    assert_eq!(RetroDevice::new((3 << 8) | 1), RetroDevice::RetroPad);
}

#[test]
fn identify_names_class_and_subclass() {
    assert_eq!(RetroDevice::identify(1), "RetroPad");
    assert_eq!(RetroDevice::identify(0), "None");
    assert_eq!(RetroDevice::identify(5), "RetroPad-Analog");
    assert_eq!(RetroDevice::identify((1 << 8) | 1), "RetroPad-1");
    assert_eq!(RetroDevice::identify((12 << 8) | 2), "Mouse-12");
    assert_eq!(RetroDevice::identify((1 << 8) | 99), "Unknown-1");
    assert_eq!(RetroDevice::identify(u32::MAX), "Unknown-16777215");
}

#[test]
fn decimal_numerals() {
    assert_eq!(u32_to_string(0), "0");
    assert_eq!(u32_to_string(7), "7");
    assert_eq!(u32_to_string(10), "10");
    assert_eq!(u32_to_string(1234567890), "1234567890");
    assert_eq!(u32_to_string(u32::MAX), "4294967295");
}

#[test]
fn identify_button_by_device() {
    assert_eq!(identify_button(0, 3), "None");
    assert_eq!(identify_button(1, 0), "B");
    assert_eq!(identify_button(1, 8), "A");
    assert_eq!(identify_button(1, 15), "R3");
    assert_eq!(identify_button(1, 256), "Mask");
    assert_eq!(identify_button(1, 16), "Unknown");
    assert_eq!(identify_button(2, 4), "Wheel Up");
    assert_eq!(identify_button(2, 9), "Btn 4");
    assert_eq!(identify_button(2, 11), "Unknown");
    assert_eq!(identify_button(3, 65), "Keyboard");
    assert_eq!(identify_button(4, 2), "Trigger");
    assert_eq!(identify_button(4, 13), "ScreenX");
    assert_eq!(identify_button(4, 17), "Unknown");
    assert_eq!(identify_button(5, 0), "Analog");
    assert_eq!(identify_button(6, 2), "Pressed");
    assert_eq!(identify_button(6, 4), "Unknown");
    assert_eq!(identify_button(9, 0), "Unknown");
}

#[test]
fn pad_button_numbers_round_trip() {
    for id in 0..16u32 {
        let b = RetroPadButton::new(id);
        assert_eq!(b.to_u32(), id);
        assert_ne!(b, RetroPadButton::Unknown);
    }
    assert_eq!(RetroPadButton::new(256), RetroPadButton::Mask);
    assert_eq!(RetroPadButton::new(16), RetroPadButton::Unknown);
    assert_eq!(RetroPadButton::from_u32(16), None);
    assert_eq!(RetroPadButton::from_u32(257), Some(RetroPadButton::Unknown));
    assert_eq!(RetroPadButton::from_u32(4), Some(RetroPadButton::Up));
    assert_eq!(RetroPadButton::Down.to_u32(), 5);
}

#[test]
fn other_button_tables() {
    assert_eq!(RetroMouseButton::new(2), RetroMouseButton::Left);
    assert_eq!(RetroMouseButton::new(50), RetroMouseButton::Unknown);
    assert_eq!(RetroMouseButton::HWheelDown.name(), "HWheel Down");
    assert_eq!(RetroLightgun::new(16), RetroLightgun::Reload);
    assert_eq!(RetroLightgun::new(5), RetroLightgun::Pause);
    assert_eq!(RetroLightgun::new(300), RetroLightgun::Unknown);
    assert_eq!(RetroLightgun::Unknown.to_u32(), 255);
    assert_eq!(RetroPointer::new(3), RetroPointer::Count);
    assert_eq!(RetroPointer::new(5), RetroPointer::Unknown);
}

#[test]
fn environment_numbers() {
    assert_eq!(RetroEnvironment::from_u32(3), Some(RetroEnvironment::GetCanDupe));
    assert_eq!(RetroEnvironment::from_u32(27), Some(RetroEnvironment::GetLogInterface));
    assert_eq!(RetroEnvironment::from_u32(70), Some(RetroEnvironment::SetVariable));
    assert_eq!(RetroEnvironment::from_u32(44), Some(RetroEnvironment::SetSerializationQuirks));
    assert_eq!(
        RetroEnvironment::from_u32(44 | 0x10000),
        Some(RetroEnvironment::SetHwSharedContext)
    );
    assert_eq!(RetroEnvironment::from_u32(47 | 0x10000), Some(RetroEnvironment::GetAudioVideoEnable));
    assert_eq!(RetroEnvironment::from_u32(47), None);
    assert_eq!(RetroEnvironment::from_u32(0), None);
    assert_eq!(RetroEnvironment::from_u32(4), None);
    assert_eq!(RetroEnvironment::SetGeometry.to_u32(), 37);
    assert_eq!(RetroEnvironment::SetMemoryMaps.to_u32(), 36 | 0x10000);
    assert_eq!(RetroEnvironment::SetPixelFormat.name(), "SetPixelFormat");
}

#[test]
fn flag_bits() {
    assert!(is_experimental(0x10000 | 36));
    assert!(!is_experimental(36));
    assert!(is_private(0x20000 | 1));
    assert!(!is_private(0x10000 | 1));
    assert!(is_experimental(0x30000) && is_private(0x30000));
}

#[test]
fn api_version_must_match() {
    assert_eq!(frontend_api_version(), 1);
    assert!(api_matches(1));
    assert!(!api_matches(0));
    assert!(!api_matches(2));
}

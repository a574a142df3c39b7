use gamepie::portable::str_eq;
use gamepie::portable::PStr;
use gamepie::portable::PString;
use gamepie::portable::PStringError;

#[test]
fn valid_string() {
    let s = PString::from_str("valid string");
    assert!(s.is_ok());
}

#[test]
fn invalid_string_nul() {
    let s = PString::from_str("invalid\0 string");
    assert!(s.is_err());
}

#[test]
fn invalid_string_nul_end() {
    let s = PString::from_str("invalid string\0");
    assert!(s.is_err());
}

#[test]
fn valid_cstring() {
    let bytes = vec![0x48, 0x69, 0x00];

    let s: Result<PString, PStringError> = PString::try_from(bytes);
    assert!(s.is_ok());
}

#[test]
fn invalid_string_non_utf8() {
    let bytes = vec![0xc3, 0x28, 0x00];

    let s: Result<PString, PStringError> = PString::try_from(bytes);
    assert!(s.is_err());
}

#[test]
fn to_string_ok_rust_rust() {
    let original = "this is a test";
    let p = PString::from_str(original).unwrap();
    assert_eq!(p.to_str(), original);
}

#[test]
fn to_string_ok_c_rust() {
    let bytes = vec![0x48, 0x69, 0x00];

    let s: PString = PString::try_from(bytes).unwrap();

    assert_eq!(s.to_str(), "Hi");
}

#[test]
fn check_names_each_error() {
    assert_eq!(PString::check(&[b'a', 0, b'b', 0]), Err(PStringError::Nul));
    assert_eq!(PString::check(&[0xff, 0]), Err(PStringError::Utf8));
    // A NUL is reported before bad UTF-8
    assert_eq!(PString::check(&[0xff, 0, 0]), Err(PStringError::Nul));
    assert_eq!(PString::check(&[b'o', b'k', 0]), Ok(()));
    assert_eq!(PString::check(&[0]), Ok(()));
}

#[test]
fn error_messages() {
    assert_eq!(PStringError::Nul.message(), "nul byte in string");
    assert_eq!(PStringError::Utf8.message(), "non-utf8 string");
}

#[test]
fn from_str_error_is_nul() {
    assert!(matches!(PString::from_str("a\0b"), Err(PStringError::Nul)));
}

#[test]
fn empty_pstring() {
    let e = PString::empty();
    assert_eq!(e.to_str(), "");
    assert_eq!(e.as_bytes_with_nul(), &[0u8]);
}

#[test]
fn bytes_with_nul_end_in_zero() {
    let p = PString::from_str("héllo").unwrap();
    let b = p.as_bytes_with_nul();
    assert_eq!(b, "héllo\0".as_bytes());
    assert_eq!(p.clone().into_string(), "héllo");
}

#[test]
fn pstring_equality_is_by_text() {
    let a = PString::from_str("abc").unwrap();
    let b = PString::try_from(vec![b'a', b'b', b'c', 0]).unwrap();
    let c = PString::from_str("abd").unwrap();
    let d = PString::from_str("ab").unwrap();
    assert!(a.equals(&b));
    assert!(!a.equals(&c));
    assert!(!a.equals(&d));
}

#[test]
fn pstr_from_bytes() {
    let p = PStr::from_bytes_with_nul(b"key\0").ok().unwrap();
    assert_eq!(p.as_str(), "key");
    assert_eq!(p.to_string(), "key");
    assert!(matches!(PStr::from_bytes_with_nul(b"k\0y\0"), Err(PStringError::Nul)));
    assert!(matches!(PStr::from_bytes_with_nul(&[0xc3, 0x28, 0]), Err(PStringError::Utf8)));
}

#[test]
fn pstr_from_str_refuses_nul() {
    assert!(PStr::try_from_str("plain").is_ok());
    assert!(matches!(PStr::try_from_str("pl\0ain"), Err(PStringError::Nul)));
    assert!(matches!(PStr::try_from_str("plain\0"), Err(PStringError::Nul)));
}

#[test]
fn pstr_split_once_at_first_delimiter() {
    let p = PStr::try_from_str("Speed; slow|fast; faster").ok().unwrap();
    let (a, b) = p.split_once("; ").unwrap();
    assert_eq!(a.as_str(), "Speed");
    assert_eq!(b.as_str(), "slow|fast; faster");
    assert!(p.split_once("::").is_none());
    // Not the argument handed back: both halves are proper parts
    assert_ne!(a.as_str(), p.as_str());
}

#[test]
fn pstr_split_on_char() {
    let p = PStr::try_from_str("a|b||c").ok().unwrap();
    assert_eq!(p.split('|'), vec!["a", "b", "", "c"]);
    let q = PStr::try_from_str("").ok().unwrap();
    assert_eq!(q.split('|'), vec![""]);
    let r = PStr::try_from_str("solo").ok().unwrap();
    assert_eq!(r.split('|'), vec!["solo"]);
}

#[test]
fn pstring_from_pstr_keeps_text() {
    let p = PStr::try_from_str("value").ok().unwrap();
    let s = PString::from_pstr(&p);
    assert_eq!(s.to_str(), "value");
}

#[test]
fn str_eq_compares_text() {
    assert!(str_eq("same", "same"));
    assert!(!str_eq("same", "sane"));
    assert!(!str_eq("same", "sam"));
    assert!(str_eq("", ""));
}

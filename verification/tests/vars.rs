use gamepie::portable::PStr;
use gamepie::vars::RetroVar;
use gamepie::vars::RetroVars;

fn p(s: &str) -> PStr<'_> {
    PStr::try_from_str(s).ok().unwrap()
}

fn allowed(v: &RetroVar) -> Vec<String> {
    v.values().iter().map(|(a, _)| String::from(a.to_str())).collect()
}

fn labels(v: &RetroVar) -> Vec<String> {
    v.values().iter().map(|(_, b)| String::from(b.to_str())).collect()
}

#[test]
fn legacy_first_value_is_current() {
    let v = RetroVar::new_v0(&p("speed"), &p("Game speed; slow|normal|fast")).unwrap();
    assert_eq!(v.key(), "speed");
    assert_eq!(v.value(), "slow");
    assert_eq!(v.description(), "Game speed");
    assert_eq!(v.extra_desc(), "");
    assert_eq!(allowed(&v), vec!["slow", "normal", "fast"]);
    assert_eq!(labels(&v), vec!["slow", "normal", "fast"]);
    assert!(v.visible());
}

#[test]
fn legacy_duplicates_are_dropped() {
    let v = RetroVar::new_v0(&p("k"), &p("d; a|b|a|c|b")).unwrap();
    assert_eq!(v.value(), "a");
    assert_eq!(allowed(&v), vec!["a", "b", "c"]);
}

#[test]
fn legacy_without_separator_is_malformed() {
    assert!(RetroVar::new_v0(&p("k"), &p("no separator here")).is_none());
    assert!(RetroVar::new_v0(&p("k"), &p("semicolon;but no space")).is_none());
}

#[test]
fn legacy_splits_at_first_separator() {
    let v = RetroVar::new_v0(&p("k"), &p("one; two; three|four")).unwrap();
    assert_eq!(v.description(), "one");
    assert_eq!(v.value(), "two; three");
    assert_eq!(allowed(&v), vec!["two; three", "four"]);
}

#[test]
fn legacy_with_no_values_has_one_empty_value() {
    let v = RetroVar::new_v0(&p("k"), &p("desc; ")).unwrap();
    assert_eq!(v.value(), "");
    assert_eq!(allowed(&v), vec![""]);
}

#[test]
fn modern_label_defaults_to_value() {
    let vals = [(p("on"), Some(p("Enabled"))), (p("off"), None)];
    let v = RetroVar::new_v1(&p("k"), &p("desc"), &p("more"), &vals, None);
    assert_eq!(v.key(), "k");
    assert_eq!(v.description(), "desc");
    assert_eq!(v.extra_desc(), "more");
    assert_eq!(allowed(&v), vec!["on", "off"]);
    assert_eq!(labels(&v), vec!["Enabled", "off"]);
    assert_eq!(v.value(), "on");
}

#[test]
fn modern_default_wins_over_first_value() {
    let vals = [(p("on"), None), (p("off"), None)];
    let d = p("off");
    let v = RetroVar::new_v1(&p("k"), &p("desc"), &p(""), &vals, Some(&d));
    assert_eq!(v.value(), "off");
}

#[test]
fn modern_without_values_is_empty() {
    let v = RetroVar::new_v1(&p("k"), &p("desc"), &p(""), &[], None);
    assert_eq!(v.value(), "");
    assert!(allowed(&v).is_empty());
}

#[test]
fn update_takes_only_allowed_values() {
    let mut v = RetroVar::new_v0(&p("k"), &p("d; a|b")).unwrap();
    assert!(v.update(&p("b")));
    assert_eq!(v.value(), "b");
    assert!(!v.update(&p("z")));
    assert_eq!(v.value(), "b");
}

#[test]
fn set_succeeds_iff_member() {
    let mut t = RetroVars::new();
    assert!(t.add_v0(&p("speed"), &p("Game speed; slow|fast")));
    assert!(t.set_val("speed", &p("fast")));
    assert_eq!(t.get_var("speed").unwrap().to_str(), "fast");
    assert!(!t.set_val("speed", &p("warp")));
    assert_eq!(t.get_var("speed").unwrap().to_str(), "fast");
    assert!(!t.set_val("other", &p("fast")));
    assert!(t.get_var("other").is_none());
}

#[test]
fn first_registration_wins() {
    let mut t = RetroVars::new();
    assert!(t.add_v0(&p("k"), &p("first; a|b")));
    assert!(!t.add_v0(&p("k"), &p("second; c|d")));
    assert_eq!(t.get_vars().len(), 1);
    assert_eq!(t.get_vars()[0].description(), "first");
    let vals = [(p("x"), None)];
    assert!(!t.add_v1(&p("k"), &p("third"), &p(""), &vals, None));
    assert_eq!(t.get_var("k").unwrap().to_str(), "a");
    assert!(t.add_v1(&p("k2"), &p("third"), &p(""), &vals, None));
    assert_eq!(t.get_vars().len(), 2);
}

#[test]
fn malformed_legacy_does_not_enter_table() {
    let mut t = RetroVars::new();
    assert!(!t.add_v0(&p("k"), &p("malformed")));
    assert!(t.get_vars().is_empty());
    assert!(t.get_var("k").is_none());
}

#[test]
fn take_dirty_reads_and_resets() {
    let mut t = RetroVars::new();
    // A fresh table counts as changed
    assert!(t.updated());
    assert!(!t.updated());
    t.add_v0(&p("k"), &p("d; a|b"));
    assert!(t.updated());
    assert!(!t.updated());
    assert!(!t.updated());
    assert!(t.set_val("k", &p("b")));
    assert!(t.updated());
    assert!(!t.updated());
    // A refused update is no change
    assert!(!t.set_val("k", &p("nope")));
    assert!(!t.updated());
    // Nor is a change of visibility
    assert!(t.set_visible("k", false));
    assert!(!t.updated());
    // Nor is a registration that is dropped: a malformed one, or one
    // for a key that is taken
    assert!(!t.add_v0(&p("k2"), &p("malformed")));
    assert!(!t.updated());
    assert!(!t.add_v0(&p("k"), &p("again; c|d")));
    assert!(!t.updated());
    let vals = [(p("x"), None)];
    assert!(!t.add_v1(&p("k"), &p("again"), &p(""), &vals, None));
    assert!(!t.updated());
    // One that the table takes is a change
    assert!(t.add_v1(&p("k3"), &p("new"), &p(""), &vals, None));
    assert!(t.updated());
    assert!(!t.updated());
}

#[test]
fn dropped_registration_keeps_a_pending_mark() {
    let mut t = RetroVars::new();
    t.add_v0(&p("k"), &p("d; a|b"));
    // The mark of the registration before is still to be taken
    assert!(!t.add_v0(&p("k"), &p("again; c|d")));
    assert!(t.updated());
    assert!(!t.updated());
}

#[test]
fn set_visible_toggles_flag() {
    let mut t = RetroVars::new();
    t.add_v0(&p("k"), &p("d; a|b"));
    assert!(t.get_vars()[0].visible());
    assert!(t.set_visible("k", false));
    assert!(!t.get_vars()[0].visible());
    assert_eq!(t.get_vars()[0].value(), "a");
    assert!(!t.set_visible("missing", true));
}

#[test]
fn update_keeps_other_options() {
    let mut t = RetroVars::new();
    t.add_v0(&p("a"), &p("d; 1|2"));
    t.add_v0(&p("b"), &p("d; 3|4"));
    t.add_v0(&p("c"), &p("d; 5|6"));
    assert!(t.set_val("b", &p("4")));
    assert_eq!(t.get_var("a").unwrap().to_str(), "1");
    assert_eq!(t.get_var("b").unwrap().to_str(), "4");
    assert_eq!(t.get_var("c").unwrap().to_str(), "5");
    assert_eq!(t.get_vars().len(), 3);
}

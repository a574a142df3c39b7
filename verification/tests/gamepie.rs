use gamepie::enums::RetroPadButton;
use gamepie::error::GamepieError;
use gamepie::gamepie::frame_budget;
use gamepie::gamepie::get_menu_info;
use gamepie::gamepie::Entry;
use gamepie::gamepie::Gamepie;
use gamepie::gamepie::Inputs;
use gamepie::gamepie::MenuInfo;
use gamepie::gamepie::MenuState;
use gamepie::gamepie::ProblemEvent;
use gamepie::commands::ScreenMessage;
use gamepie::commands::ScreenToast;
use gamepie::menu::GameInfo;
use gamepie::menu::Menu;
use gamepie::menu::MenuSel;
use gamepie::portable::PString;
use gamepie::problem::Problem;
use gamepie::proxy::RetroProxy;
use gamepie::types::CoreInfo;
use gamepie::types::RetroSystemInfo;

fn a_core(name: &str, exts: &str) -> CoreInfo {
    CoreInfo::new(
        format!("/root/emulators/{}.so", name),
        RetroSystemInfo {
            library_name: String::from(name),
            library_version: String::from("1.0"),
            valid_extensions: String::from(exts),
            need_fullpath: false,
            block_extract: false,
        },
    )
}

fn game(path: &str) -> GameInfo {
    GameInfo::new(String::from(path), String::from(path))
}

fn frontend(games: &[&str], cores: Vec<CoreInfo>) -> Gamepie<u32> {
    let menu = Menu::new(games.iter().map(|g| game(g)).collect());
    Gamepie::new(PString::from_str("/root").unwrap(), cores, menu)
}

fn quiet() -> Inputs {
    Inputs {
        request_exit: false,
        request_back: false,
        menu: Some(MenuInfo { start_game: false, back: false, unsafe_index: 0, new_pressed: false }),
    }
}

fn with(info: MenuInfo) -> Inputs {
    Inputs { request_exit: false, request_back: false, menu: Some(info) }
}

fn press_a() -> Inputs {
    with(MenuInfo { start_game: true, back: false, unsafe_index: 0, new_pressed: true })
}

#[test]
fn no_games_loops_through_error() {
    let mut g = frontend(&[], vec![a_core("gb", "gb|gbc")]);
    assert_eq!(g.entry(), Entry::Splash);
    let step = g.main_loop_inner(&quiet());
    assert!(step.load.is_none() && step.unload.is_none() && !step.tick && !step.clear_back);
    assert_eq!(g.entry(), Entry::ShowError(GamepieError::NoGames));
    assert!(g.is_running());
    g.main_loop_inner(&quiet());
    assert_eq!(g.entry(), Entry::Splash);
    g.main_loop_inner(&quiet());
    assert_eq!(g.entry(), Entry::ShowError(GamepieError::NoGames));
}

#[test]
fn screens_stay_for_their_duration() {
    assert_eq!(Entry::Splash.wait(), 3_000_000_000);
    assert_eq!(Entry::ShowError(GamepieError::NoCore).wait(), 3_000_000_000);
    assert_eq!(Entry::DrawMenu(MenuSel::Game, 2).wait(), 0);
    assert_eq!(Entry::Nothing.wait(), 0);
}

#[test]
fn root_directory_stays() {
    let mut g = frontend(&["/r/a.gb"], vec![a_core("gb", "gb")]);
    g.main_loop_inner(&quiet());
    g.main_loop_inner(&press_a());
    g.main_loop_inner(&quiet());
    g.loaded(Ok(1));
    g.main_loop_inner(&quiet());
    g.handle_problem(ProblemEvent::Disconnected);
    g.forward_failed();
    assert_eq!(g.root_dir().to_str(), "/root");
}

#[test]
fn init_exits_on_pending_request() {
    let mut g = frontend(&["a.gb"], vec![]);
    let mut i = quiet();
    i.request_back = true;
    g.main_loop_inner(&i);
    assert!(!g.is_running());
    let mut g = frontend(&["a.gb"], vec![]);
    let mut i = quiet();
    i.request_exit = true;
    g.main_loop_inner(&i);
    assert!(!g.is_running());
    // The exit state stays
    g.main_loop_inner(&quiet());
    assert!(!g.is_running());
}

#[test]
fn single_core_skips_picker() {
    let mut g = frontend(&["/r/a.gb", "/r/b.nes"], vec![a_core("gb", "gb|gbc"), a_core("nes", "nes")]);
    g.main_loop_inner(&quiet());
    assert_eq!(g.entry(), Entry::DrawMenu(MenuSel::Game, 0));
    // The menu is entered with the button counted as down
    let step = g.main_loop_inner(&quiet());
    assert_eq!(step.sleep, 30_000_000);
    let step = g.main_loop_inner(&press_a());
    assert!(step.load.is_none());
    // One core: the picker is not drawn
    assert_eq!(g.entry(), Entry::Nothing);
    assert_eq!(g.menu().num_cores(), 1);
    let step = g.main_loop_inner(&quiet());
    let (c, path) = step.load.unwrap();
    assert_eq!(c.name(), "gb");
    assert_eq!(path, "/r/a.gb");
    g.loaded(Ok(7));
    assert_eq!(g.running_core(), Some(&mut 7));
    let step = g.main_loop_inner(&quiet());
    assert!(step.tick);
    assert!(step.unload.is_none());
    assert_eq!(g.running_core(), Some(&mut 7));
}

#[test]
fn several_cores_show_picker() {
    let mut g = frontend(&["/r/a.gb"], vec![a_core("one", "gb"), a_core("two", "gb|gbc"), a_core("x", "nes")]);
    g.main_loop_inner(&quiet());
    g.main_loop_inner(&press_a());
    assert_eq!(g.menu().num_cores(), 2);
    assert_eq!(g.entry(), Entry::DrawMenu(MenuSel::Core, 0));
    // No press: the picker waits
    let step = g.main_loop_inner(&quiet());
    assert!(step.load.is_none());
    assert_eq!(step.sleep, 30_000_000);
    // Down moves the highlight
    let step = g.main_loop_inner(&with(MenuInfo {
        start_game: false,
        back: false,
        unsafe_index: 1,
        new_pressed: true,
    }));
    assert!(step.load.is_none());
    assert_eq!(g.entry(), Entry::DrawMenu(MenuSel::Core, 1));
    let step = g.main_loop_inner(&press_a());
    let (c, _) = step.load.unwrap();
    assert_eq!(c.name(), "two");
}

#[test]
fn no_core_for_game() {
    let mut g = frontend(&["/r/a.gb", "/r/noext"], vec![a_core("nes", "nes")]);
    g.main_loop_inner(&quiet());
    g.main_loop_inner(&press_a());
    assert_eq!(g.entry(), Entry::ShowError(GamepieError::NoCore));
    g.main_loop_inner(&quiet());
    assert_eq!(g.entry(), Entry::Splash);
}

#[test]
fn back_from_picker_returns_to_game() {
    let mut g = frontend(&["/r/a.gb", "/r/b.gb"], vec![a_core("one", "gb"), a_core("two", "gb")]);
    g.main_loop_inner(&quiet());
    g.main_loop_inner(&with(MenuInfo {
        start_game: false,
        back: false,
        unsafe_index: 1,
        new_pressed: true,
    }));
    assert_eq!(g.entry(), Entry::DrawMenu(MenuSel::Game, 1));
    g.main_loop_inner(&with(MenuInfo {
        start_game: true,
        back: false,
        unsafe_index: 1,
        new_pressed: true,
    }));
    assert_eq!(g.entry(), Entry::DrawMenu(MenuSel::Core, 0));
    let step = g.main_loop_inner(&with(MenuInfo {
        start_game: false,
        back: true,
        unsafe_index: 0,
        new_pressed: false,
    }));
    assert!(step.clear_back);
    assert_eq!(g.entry(), Entry::DrawMenu(MenuSel::Game, 1));
}

#[test]
fn menu_index_wraps() {
    let mut g = frontend(&["a.gb", "b.gb", "c.gb"], vec![]);
    g.main_loop_inner(&quiet());
    g.main_loop_inner(&with(MenuInfo {
        start_game: false,
        back: false,
        unsafe_index: usize::MAX,
        new_pressed: true,
    }));
    assert_eq!(g.entry(), Entry::DrawMenu(MenuSel::Game, 2));
    g.main_loop_inner(&with(MenuInfo {
        start_game: false,
        back: false,
        unsafe_index: 3,
        new_pressed: true,
    }));
    assert_eq!(g.entry(), Entry::DrawMenu(MenuSel::Game, 0));
}

#[test]
fn missing_mediator_is_a_system_error() {
    let mut g = frontend(&["a.gb"], vec![]);
    g.main_loop_inner(&quiet());
    g.main_loop_inner(&Inputs { request_exit: false, request_back: false, menu: None });
    assert_eq!(g.entry(), Entry::ShowError(GamepieError::System));
}

#[test]
fn leaving_a_game_unloads_the_core() {
    let mut g = frontend(&["/r/a.gb"], vec![a_core("gb", "gb")]);
    g.main_loop_inner(&quiet());
    g.main_loop_inner(&press_a());
    g.main_loop_inner(&quiet());
    g.loaded(Ok(42));
    let mut back = quiet();
    back.request_back = true;
    let step = g.main_loop_inner(&back);
    assert_eq!(step.unload, Some(42));
    assert!(step.clear_back);
    assert!(!step.tick);
    assert_eq!(g.entry(), Entry::Splash);
    assert_eq!(g.running_core(), None);
}

#[test]
fn failed_load_shows_its_error() {
    let mut g = frontend(&["/r/a.gb"], vec![a_core("gb", "gb")]);
    g.main_loop_inner(&quiet());
    g.main_loop_inner(&press_a());
    let step = g.main_loop_inner(&quiet());
    assert!(step.load.is_some());
    g.loaded(Err(GamepieError::GameLoadError));
    assert_eq!(g.entry(), Entry::ShowError(GamepieError::GameLoadError));
    let mut g2 = frontend(&["/r/a.gb"], vec![a_core("gb", "gb")]);
    g2.loaded(Err(GamepieError::MismatchSave));
    assert_eq!(g2.entry(), Entry::ShowError(GamepieError::MismatchSave));
}

#[test]
fn fatal_problem_overrides_state() {
    let mut g = frontend(&["/r/a.gb"], vec![a_core("gb", "gb")]);
    g.loaded(Ok(5));
    let d = g.handle_problem(ProblemEvent::Pending(Problem::fatal(GamepieError::UnsupportedVideo)));
    assert_eq!(d.unload, Some(5));
    assert!(d.forward.is_none());
    assert_eq!(g.entry(), Entry::ShowError(GamepieError::UnsupportedVideo));
}

#[test]
fn warning_is_forwarded() {
    let mut g = frontend(&["/r/a.gb"], vec![]);
    g.loaded(Ok(5));
    let t = ScreenToast::error(ScreenMessage::AudioIssue);
    let d = g.handle_problem(ProblemEvent::Pending(Problem::warn(t)));
    assert!(d.unload.is_none());
    assert!(matches!(d.forward.unwrap().message(), ScreenMessage::AudioIssue));
    assert_eq!(g.running_core(), Some(&mut 5));
    // The overlay did not take it
    assert_eq!(g.forward_failed(), Some(5));
    assert_eq!(g.entry(), Entry::ShowError(GamepieError::NoVideo));
}

#[test]
fn empty_and_disconnected_channel() {
    let mut g = frontend(&["/r/a.gb"], vec![]);
    let d = g.handle_problem(ProblemEvent::Empty);
    assert!(d.forward.is_none() && d.unload.is_none());
    assert_eq!(g.entry(), Entry::Splash);
    let d = g.handle_problem(ProblemEvent::Disconnected);
    assert!(d.forward.is_none() && d.unload.is_none());
    assert_eq!(g.entry(), Entry::ShowError(GamepieError::System));
}

#[test]
fn compatible_cores_by_extension() {
    let g = frontend(&[], vec![a_core("a", "gb|gbc"), a_core("b", "nes"), a_core("c", "gbc|gba")]);
    let names = |v: Vec<CoreInfo>| v.iter().map(|c| c.name()).collect::<Vec<String>>();
    assert_eq!(names(g.get_cores_for_game("/roms/x.gbc")), vec!["a", "c"]);
    assert_eq!(names(g.get_cores_for_game("/roms/x.nes")), vec!["b"]);
    assert!(g.get_cores_for_game("/roms/x.zip").is_empty());
    assert!(g.get_cores_for_game("/roms/noext").is_empty());
    assert_eq!(g.root_dir().to_str(), "/root");
}

#[test]
fn menu_info_from_buttons() {
    let mut p: RetroProxy<()> = RetroProxy::new(PString::empty(), None);
    let idle = MenuState::new(3, false);
    assert_eq!(
        get_menu_info(&p, &idle),
        MenuInfo { start_game: false, back: false, unsafe_index: 3, new_pressed: false }
    );
    p.input_poll(&vec![(RetroPadButton::Up, 1)]);
    assert_eq!(
        get_menu_info(&p, &idle),
        MenuInfo { start_game: false, back: false, unsafe_index: 2, new_pressed: true }
    );
    // No edge while a button was down before
    assert_eq!(
        get_menu_info(&p, &MenuState::new(3, true)),
        MenuInfo { start_game: false, back: false, unsafe_index: 3, new_pressed: true }
    );
    assert_eq!(get_menu_info(&p, &MenuState::new(0, false)).unsafe_index, usize::MAX);
    p.input_poll(&vec![(RetroPadButton::Up, 0), (RetroPadButton::Down, 1)]);
    assert_eq!(get_menu_info(&p, &idle).unsafe_index, 4);
    assert_eq!(get_menu_info(&p, &MenuState::new(usize::MAX, false)).unsafe_index, 0);
    p.input_poll(&vec![(RetroPadButton::Down, 0), (RetroPadButton::A, 1), (RetroPadButton::B, 1)]);
    assert_eq!(
        get_menu_info(&p, &idle),
        MenuInfo { start_game: true, back: true, unsafe_index: 3, new_pressed: true }
    );
    // B alone does not count as a press
    p.input_poll(&vec![(RetroPadButton::A, 0)]);
    assert_eq!(
        get_menu_info(&p, &idle),
        MenuInfo { start_game: false, back: true, unsafe_index: 3, new_pressed: false }
    );
    // A value other than one is no press
    p.input_poll(&vec![(RetroPadButton::A, 2), (RetroPadButton::B, 0)]);
    assert!(!get_menu_info(&p, &idle).start_game);
}

#[test]
fn menu_state_default_is_debounced() {
    assert_eq!(MenuState::default(), MenuState { index: 0, pressed: true });
    assert_eq!(MenuState::new(4, false), MenuState { index: 4, pressed: false });
}

#[test]
fn frame_budget_is_the_rest_of_the_frame() {
    assert_eq!(frame_budget(16_000_000, 4_000_000), Some(12_000_000));
    assert_eq!(frame_budget(16_000_000, 16_000_000), Some(0));
    assert_eq!(frame_budget(16_000_000, 16_000_001), None);
}

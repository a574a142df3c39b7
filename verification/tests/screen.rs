use gamepie::commands::ScreenMessage;
use gamepie::commands::ScreenToast;
use gamepie::menu::bytes_le;
use gamepie::menu::core_text;
use gamepie::menu::display_name;
use gamepie::menu::safe_index_inner;
use gamepie::menu::sort_games;
use gamepie::menu::GameInfo;
use gamepie::menu::Menu;
use gamepie::menu::MenuSel;
use gamepie::screen::draw;
use gamepie::screen::full_frame_fits;
use gamepie::screen::toast_layout;
use gamepie::screen::toast_shade;
use gamepie::screen::toast_text;
use gamepie::screen::Framebuffer;
use gamepie::screen::Stamped;
use gamepie::screen::ToastEvent;
use gamepie::screen::Toasts;
use gamepie::types::CoreInfo;
use gamepie::types::RetroSystemInfo;

const BG: u16 = 0x98D5;

fn frame(width: usize, height: usize, pitch: usize) -> Vec<u8> {
    // Pixel (x, y) holds the value y * 256 + x + 1, low byte first
    let mut data = vec![0xEEu8; pitch * height];
    for y in 0..height {
        for x in 0..width {
            let v = (y * 256 + x + 1) as u16;
            data[y * pitch + x * 2] = (v & 0xff) as u8;
            data[y * pitch + x * 2 + 1] = (v >> 8) as u8;
        }
    }
    data
}

#[test]
fn frame_of_screen_size_is_copied() {
    let data = frame(3, 2, 6);
    assert_eq!(draw(3, 2, 3, 2, 6, &data), vec![1, 2, 3, 257, 258, 259]);
}

#[test]
fn pitch_wider_than_row_is_skipped() {
    let data = frame(2, 2, 7);
    assert_eq!(draw(2, 2, 2, 2, 7, &data), vec![1, 2, 257, 258]);
}

#[test]
fn smaller_frame_is_centred_on_background() {
    let data = frame(2, 1, 4);
    assert_eq!(
        draw(4, 3, 2, 1, 4, &data),
        vec![BG, BG, BG, BG, BG, 1, 2, BG, BG, BG, BG, BG]
    );
    // An odd gap leaves the larger part after the frame
    let data = frame(1, 1, 2);
    assert_eq!(draw(4, 2, 1, 1, 2, &data), vec![BG, 1, BG, BG, BG, BG, BG, BG]);
}

#[test]
fn larger_frame_is_cropped_to_its_middle() {
    let data = frame(6, 4, 12);
    // Two columns and one row are left out on each side
    assert_eq!(draw(2, 2, 6, 4, 12, &data), vec![259, 260, 515, 516]);
    // An odd excess leaves out the smaller part first
    let data = frame(5, 1, 10);
    assert_eq!(draw(2, 1, 5, 1, 10, &data), vec![2, 3]);
}

#[test]
fn wide_and_short_frame() {
    let data = frame(4, 1, 8);
    assert_eq!(draw(2, 3, 4, 1, 8, &data), vec![BG, BG, 2, 3, BG, BG]);
}

#[test]
fn empty_frame_and_empty_screen() {
    assert_eq!(draw(2, 2, 0, 0, 0, &[]), vec![BG; 4]);
    assert_eq!(draw(0, 5, 1, 1, 2, &[1, 0]), Vec::<u16>::new());
}

#[test]
fn full_frame_length() {
    assert!(full_frame_fits(2, 3, &[0; 6]));
    assert!(!full_frame_fits(2, 3, &[0; 5]));
    assert!(full_frame_fits(0, 3, &[]));
}

#[test]
fn framebuffer_pixels() {
    let mut fb = Framebuffer::new(3, 3, vec![0; 9]);
    assert_eq!(fb.dim(), (3, 3));
    fb.set_pixel(1, 1, 7);
    fb.set_pixel(2, 1, 8);
    fb.set_pixel(1, 2, 9);
    // The first row and column, and anything outside, are passed over
    fb.set_pixel(0, 1, 5);
    fb.set_pixel(1, 0, 5);
    fb.set_pixel(3, 1, 5);
    fb.set_pixel(1, 3, 5);
    fb.set_pixel(-1, 1, 5);
    assert_eq!(fb.data(), &[0, 0, 0, 0, 7, 8, 0, 9, 0]);
    assert_eq!(fb.reclaim(), vec![0, 0, 0, 0, 7, 8, 0, 9, 0]);
}

fn stamped(text: &str, duration: u64, start: u64) -> Stamped {
    Stamped { toast: ScreenToast::new(ScreenMessage::Message(String::from(text)), duration, 0), start }
}

fn shown(t: &Toasts) -> Option<String> {
    t.current().map(|s| match s.toast.message() {
        ScreenMessage::Message(m) => m.clone(),
        ScreenMessage::Unstable => String::from("<unstable>"),
        _ => String::from("<other>"),
    })
}

#[test]
fn toast_queue() {
    let mut t = Toasts::new();
    assert_eq!(shown(&t), None);
    t.preprocess_toast(ToastEvent::Empty, 0);
    assert_eq!(shown(&t), None);
    t.preprocess_toast(ToastEvent::Received(stamped("a", 100, 0)), 1);
    assert_eq!(shown(&t), Some(String::from("a")));
    // Toasts that come while one is shown wait
    t.preprocess_toast(ToastEvent::Received(stamped("b", 100, 2)), 2);
    t.preprocess_toast(ToastEvent::Received(stamped("c", 100, 3)), 3);
    assert_eq!(shown(&t), Some(String::from("a")));
    t.preprocess_toast(ToastEvent::Empty, 100);
    assert_eq!(shown(&t), Some(String::from("a")));
    // Once it has outstayed its duration the last one that came is next
    t.preprocess_toast(ToastEvent::Empty, 101);
    assert_eq!(shown(&t), Some(String::from("c")));
    t.preprocess_toast(ToastEvent::Empty, 104);
    assert_eq!(shown(&t), Some(String::from("b")));
    t.preprocess_toast(ToastEvent::Empty, 103);
    assert_eq!(shown(&t), None);
    t.preprocess_toast(ToastEvent::Disconnected, 200);
    assert_eq!(shown(&t), Some(String::from("<unstable>")));
    assert_eq!(t.current().unwrap().start, 200);
    assert_eq!(t.current().unwrap().toast.duration(), 3_000_000_000);
}

fn game(path: &str, name: &str) -> GameInfo {
    GameInfo::new(String::from(path), String::from(name))
}

fn names(v: &[GameInfo]) -> Vec<String> {
    v.iter().map(|g| g.text()).collect()
}

#[test]
fn games_are_sorted_by_name() {
    let sorted = sort_games(vec![
        game("3", "zelda"),
        game("1", "Mario"),
        game("5", "mario"),
        game("2", ""),
        game("4", "Zelda II"),
        game("6", "mar"),
        game("7", "Émile"),
    ]);
    assert_eq!(names(&sorted), vec!["", "Mario", "Zelda II", "mar", "mario", "zelda", "Émile"]);
    let mut want = names(&sorted);
    want.sort();
    assert_eq!(names(&sorted), want);
    assert!(sort_games(vec![]).is_empty());
}

#[test]
fn sort_keeps_every_game() {
    let sorted = sort_games(vec![game("a", "same"), game("b", "same"), game("c", "other")]);
    assert_eq!(names(&sorted), vec!["other", "same", "same"]);
    let mut paths: Vec<String> = sorted.iter().map(|g| String::from(g.path())).collect();
    paths.sort();
    assert_eq!(paths, vec!["a", "b", "c"]);
}

#[test]
fn byte_order_of_texts() {
    assert!(bytes_le(b"", b""));
    assert!(bytes_le(b"", b"a"));
    assert!(!bytes_le(b"a", b""));
    assert!(bytes_le(b"a", b"a"));
    assert!(bytes_le(b"a", b"ab"));
    assert!(!bytes_le(b"ab", b"a"));
    assert!(bytes_le(b"ab", b"b"));
    assert!(!bytes_le(b"b", b"ab"));
    assert!(bytes_le(b"Z", b"a"));
}

#[test]
fn safe_index_wraps_round() {
    assert_eq!(safe_index_inner(5, usize::MAX), 4);
    assert_eq!(safe_index_inner(5, 5), 0);
    assert_eq!(safe_index_inner(5, 6), 0);
    assert_eq!(safe_index_inner(5, usize::MAX - 1), 0);
    assert_eq!(safe_index_inner(5, 0), 0);
    assert_eq!(safe_index_inner(5, 4), 4);
    assert_eq!(safe_index_inner(1, usize::MAX), 0);
    assert_eq!(safe_index_inner(1, 1), 0);
    // In an empty list the highlight stays at zero
    assert_eq!(safe_index_inner(0, usize::MAX), 0);
    assert_eq!(safe_index_inner(0, 0), 0);
    assert_eq!(safe_index_inner(0, 3), 0);
}

fn a_core(name: &str) -> CoreInfo {
    CoreInfo::new(
        String::from("/e/x.so"),
        RetroSystemInfo {
            library_name: String::from(name),
            library_version: String::new(),
            valid_extensions: String::from("gb"),
            need_fullpath: false,
            block_extract: false,
        },
    )
}

#[test]
fn menu_lists() {
    let mut m = Menu::new(vec![game("/r/a.gb", "A"), game("/r/b.gb", "B")]);
    assert_eq!(m.num_games(), 2);
    assert_eq!(m.num_cores(), 0);
    assert_eq!(m.get_path(1), "/r/b.gb");
    assert_eq!(m.get_path(2), "");
    assert!(m.get_core(0).is_none());
    assert_eq!(m.safe_index(MenuSel::Game, usize::MAX), 1);
    assert_eq!(m.safe_index(MenuSel::Game, 2), 0);
    assert_eq!(m.safe_index(MenuSel::Core, usize::MAX), 0);
    m.set_cores(vec![a_core("one"), a_core("two"), a_core("three")]);
    assert_eq!(m.num_cores(), 3);
    assert_eq!(m.num_games(), 2);
    assert_eq!(m.get_core(2).unwrap().name(), "three");
    assert!(m.get_core(3).is_none());
    assert_eq!(m.safe_index(MenuSel::Core, usize::MAX), 2);
    assert_eq!(m.safe_index(MenuSel::Core, 3), 0);
    assert_eq!(m.games()[0].text(), "A");
    assert_eq!(core_text(&m.cores()[1]), "two");
}

#[test]
fn menu_pages() {
    assert_eq!(Menu::window_size(240), 15);
    assert_eq!(Menu::window_size(30), 0);
    assert_eq!(Menu::window_size(43), 0);
    assert_eq!(Menu::window_size(44), 1);
    assert_eq!(Menu::page(15, 40, 0), (0, 15));
    assert_eq!(Menu::page(15, 40, 14), (0, 15));
    assert_eq!(Menu::page(15, 40, 15), (15, 15));
    assert_eq!(Menu::page(15, 40, 39), (30, 10));
    assert_eq!(Menu::page(15, 3, 2), (0, 3));
    assert_eq!(Menu::page(15, 0, 0), (0, 0));
    assert_eq!(Menu::page(1, 4, 3), (3, 1));
}

#[test]
fn menu_rows() {
    assert_eq!(Menu::item_y(0), 30);
    assert_eq!(Menu::item_y(1), 44);
    assert_eq!(Menu::item_y(14), 226);
}

#[test]
fn toast_layout_on_a_square_screen() {
    let l = toast_layout(240, 120);
    assert_eq!(l.band_top, 105);
    assert_eq!((l.sprite_x, l.sprite_y), (7, 112));
    assert_eq!((l.bar_x, l.bar_y), (30, 112));
    assert_eq!((l.bar_width, l.bar_height), (196, 16));
    assert_eq!((l.text_x, l.text_y), (30, 126));
    assert_eq!(toast_layout(44, 0).bar_width, 0);
    assert_eq!(toast_layout(44, 0).band_top, -15);
}

#[test]
fn toast_texts() {
    assert_eq!(toast_text(&ScreenMessage::AudioIssue), Some((String::from("Audio error"), true)));
    assert_eq!(toast_text(&ScreenMessage::VideoIssue), Some((String::from("Video error"), true)));
    assert_eq!(toast_text(&ScreenMessage::Unstable), Some((String::from("UNSTABLE"), true)));
    assert_eq!(
        toast_text(&ScreenMessage::Message(String::from("saved"))),
        Some((String::from("saved"), false))
    );
    assert_eq!(toast_text(&ScreenMessage::VolumeUp(3)), None);
    assert_eq!(toast_text(&ScreenMessage::VolumeDown(3)), None);
}

#[test]
fn toast_band_is_a_chequerboard() {
    // Even width: rows are offset against each other
    assert!(toast_shade(0, 0, 240));
    assert!(!toast_shade(1, 0, 240));
    assert!(!toast_shade(0, 1, 240));
    assert!(toast_shade(1, 1, 240));
    assert!(toast_shade(3, -1, 240));
    // Odd width: counting alone decides
    assert!(toast_shade(0, 1, 239));
    assert!(!toast_shade(1, 1, 239));
    assert!(toast_shade(2, 7, 239));
}

#[test]
fn game_metadata() {
    assert!(Menu::is_metadata("/roms/zelda.gb.toml"));
    assert!(!Menu::is_metadata("/roms/zelda.gb"));
    assert!(!Menu::is_metadata("/roms/toml"));
    assert_eq!(Menu::metadata_path("/roms/zelda.gb"), "/roms/zelda.gb.toml");
    assert_eq!(
        Menu::try_get_metadata("zelda.gb", Some("name = \"The Legend\"\nyear = 1993\n")),
        "The Legend"
    );
    // The text handed back unchanged would not do
    assert_eq!(Menu::try_get_metadata("zelda.gb", Some("name = \"x\"")), "x");
    assert_eq!(Menu::try_get_metadata("zelda.gb", Some("title = \"The Legend\"")), "zelda.gb");
    assert_eq!(Menu::try_get_metadata("zelda.gb", Some("name = 5")), "zelda.gb");
    assert_eq!(Menu::try_get_metadata("zelda.gb", Some("not toml at all [")), "zelda.gb");
    assert_eq!(Menu::try_get_metadata("zelda.gb", Some("")), "zelda.gb");
    assert_eq!(Menu::try_get_metadata("zelda.gb", None), "zelda.gb");
    // The key is `name`, and no other
    assert_eq!(Menu::try_get_metadata("zelda.gb", Some("nam = \"x\"\nnames = \"y\"")), "zelda.gb");
    // A text with too many marks of nesting is not read
    let nested = format!("name = \"deep\"\nx = {}{}", "[".repeat(257), "]".repeat(257));
    assert_eq!(Menu::try_get_metadata("zelda.gb", Some(&nested)), "zelda.gb");
    let shallow = format!("name = \"deep\"\nx = {}{}", "[".repeat(256), "]".repeat(256));
    assert_eq!(Menu::try_get_metadata("zelda.gb", Some(&shallow)), "deep");
    // The segments of a dotted key and of a header nest as well
    let dotted = format!("name = \"deep\"\na{} = 1", ".a".repeat(257));
    assert_eq!(Menu::try_get_metadata("zelda.gb", Some(&dotted)), "zelda.gb");
    let header = format!("name = \"deep\"\n[a{}]\nb = 1", ".a".repeat(256));
    assert_eq!(Menu::try_get_metadata("zelda.gb", Some(&header)), "zelda.gb");
    let few = format!("name = \"deep\"\na{} = 1", ".a".repeat(256));
    assert_eq!(Menu::try_get_metadata("zelda.gb", Some(&few)), "deep");
    let long = format!("name = \"deep\"\na{} = 1", ".a".repeat(20000));
    assert_eq!(Menu::try_get_metadata("zelda.gb", Some(&long)), "zelda.gb");
    assert_eq!(display_name(Some(String::from("Shown")), "file"), "Shown");
    assert_eq!(display_name(None, "file"), "file");
}

#[test]
fn games_from_files() {
    let g = Menu::process_game("/roms/zelda.gb", Some("name = \"Zelda\"")).unwrap();
    assert_eq!(g.path(), "/roms/zelda.gb");
    assert_eq!(g.text(), "Zelda");
    let g = Menu::process_game("/roms/mario.nes", None).unwrap();
    assert_eq!(g.text(), "mario.nes");
    assert!(Menu::process_game("/roms/zelda.gb.toml", None).is_none());
    assert!(Menu::process_game("/roms/..", None).is_none());
}

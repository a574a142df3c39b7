//! The lists that the menu shows, games and the cores that can run the
//! chosen game, and the moves of the highlight through them.

use crate::paths::extension_of;
use crate::paths::file_name_of;
use crate::paths::opt_text;
use crate::paths::path_extension;
use crate::paths::path_file_name;
use crate::portable::str_eq;
use crate::types::CoreInfo;
use crate::types::CoreInfoView;
use vstd::prelude::*;
use vstd::string::*;
use vstd::utf8::*;

verus! {

/// Height of the band above the first menu entry, in pixels.
pub const MENU_TOP_MARGIN: u16 = 30;

/// Height of a menu entry, in pixels.
pub const MENU_ITEM_HEIGHT: u16 = 14;

/// Which of the two lists is meant.
#[derive(Clone, Copy, Debug, PartialEq, Eq, Structural)]
pub enum MenuSel {
    Game,
    Core,
}

/// A game found on disk: where it lies, and the name to show for it.
pub struct GameInfo {
    path: String,
    name: String,
}

/// A game as plain text.
pub struct GameInfoView {
    pub path: Seq<char>,
    pub name: Seq<char>,
}

impl View for GameInfo {
    type V = GameInfoView;

    closed spec fn view(&self) -> GameInfoView {
        GameInfoView { path: self.path@, name: self.name@ }
    }
}

/// The string that a text holds as TOML under a key of its table: there
/// is one if the text is TOML, its table holds the key, and the value
/// there is a string.
pub uninterp spec fn toml_string_of(text: Seq<char>, key: Seq<char>) -> Option<Seq<char>>;

/// The number of marks of nesting that a metadata text may hold. The
/// parser descends once for each array or inline table that is open, and
/// once for each further segment of a dotted key or of the header of a
/// table, so this bounds how deep it can go.
pub const METADATA_NESTING_LIMIT: usize = 256;

/// Whether a byte marks nesting: an opening bracket, an opening brace, or
/// the period that parts the segments of a key.
pub open spec fn is_nesting_mark(b: u8) -> bool {
    b == 0x5Bu8 || b == 0x7Bu8 || b == 0x2Eu8
}

/// The number of marks of nesting among the bytes.
pub open spec fn openings(bytes: Seq<u8>) -> nat
    decreases bytes.len(),
{
    if bytes.len() == 0 {
        0
    } else {
        openings(bytes.drop_last()) + if is_nesting_mark(bytes.last()) {
            1nat
        } else {
            0nat
        }
    }
}

/// Whether a metadata text is read at all: it must not hold more marks of
/// nesting than the limit, wherever in the text they stand.
pub open spec fn readable(text: Seq<char>) -> bool {
    openings(encode_utf8(text)) <= METADATA_NESTING_LIMIT
}

/// Parses a text with `toml`, and reads the string under a key from the
/// table (`str::parse::<toml::Value>`, `Value::get`, `Value::as_str`).
/// The result depends on the text and the key alone. The parser recurses
/// on nested arrays and tables and on the segments of dotted keys and of
/// headers; the bound on the text keeps that shallow.
#[verifier::external_body]
fn toml_string(text: &str, key: &str) -> (r: Option<String>)
    requires
        readable(text@),
    ensures
        opt_text(r) == toml_string_of(text@, key@),
{
    match text.parse::<toml::Value>() {
        Ok(meta) => match meta.get(key) {
            Some(value) => value.as_str().map(String::from),
            None => None,
        },
        Err(_) => None,
    }
}

/// Whether the bytes hold no more marks of nesting than the limit.
fn few_openings(bytes: &[u8]) -> (r: bool)
    ensures
        r == (openings(bytes@) <= METADATA_NESTING_LIMIT),
{
    let mut count: usize = 0;
    let mut i: usize = 0;
    assert(bytes@.subrange(0, 0) =~= Seq::empty());
    while i < bytes.len()
        invariant
            i <= bytes@.len(),
            count <= i,
            count == openings(bytes@.subrange(0, i as int)),
        decreases bytes@.len() - i,
    {
        assert(bytes@.subrange(0, i + 1).drop_last() == bytes@.subrange(0, i as int));
        assert(bytes@.subrange(0, i + 1).last() == bytes@[i as int]);
        if bytes[i] == 0x5B || bytes[i] == 0x7B || bytes[i] == 0x2E {
            count += 1;
        }
        i += 1;
    }
    assert(bytes@.subrange(0, i as int) == bytes@);
    count <= METADATA_NESTING_LIMIT
}

/// The name to show for a game: the one its metadata gives, else the name
/// of its file.
pub open spec fn shown_name(parsed: Option<Seq<char>>, file_name: Seq<char>) -> Seq<char> {
    match parsed {
        Some(n) => n,
        None => file_name,
    }
}

/// The name that the metadata file of a game gives: the string under the
/// key `name`, if there is such a file, it is read, and it holds one.
pub open spec fn metadata_name(metadata: Option<Seq<char>>) -> Option<Seq<char>> {
    match metadata {
        Some(t) => if readable(t) {
            toml_string_of(t, "name"@)
        } else {
            None
        },
        None => None,
    }
}

/// The name to show for a game, given what its metadata says.
pub fn display_name(parsed: Option<String>, file_name: &str) -> (r: String)
    ensures
        r@ == shown_name(opt_text(parsed), file_name@),
{
    match parsed {
        Some(n) => n,
        None => String::from_str(file_name),
    }
}

impl GameInfo {
    pub fn new(path: String, name: String) -> (r: Self)
        ensures
            r@ == (GameInfoView { path: path@, name: name@ }),
    {
        GameInfo { path, name }
    }

    pub fn path(&self) -> (p: &str)
        ensures
            p@ == self@.path,
    {
        self.path.as_str()
    }

    pub fn text(&self) -> (n: String)
        ensures
            n@ == self@.name,
    {
        self.name.clone()
    }
}

/// The name of a core as the menu shows it.
pub fn core_text(core: &CoreInfo) -> (n: String)
    ensures
        n@ == core@.sys_info.library_name,
{
    core.name()
}

/// What the menu holds.
pub struct MenuView {
    pub games: Seq<GameInfoView>,
    pub emus: Seq<CoreInfoView>,
}

/// The views of a list of games.
pub open spec fn game_views(s: Seq<GameInfo>) -> Seq<GameInfoView> {
    Seq::new(s.len(), |i: int| s[i]@)
}

/// The views of a list of cores.
pub open spec fn core_views(s: Seq<CoreInfo>) -> Seq<CoreInfoView> {
    Seq::new(s.len(), |i: int| s[i]@)
}

/// The place of the highlight after a move in a list of `len` entries. A
/// step up from the first entry, which wraps the index round to the
/// largest number, leads to the last entry; a step beyond the last entry
/// leads to the first. In an empty list the highlight stays at zero.
pub open spec fn wrapped_index(len: usize, index: usize) -> usize {
    if len == 0 {
        0
    } else if index == usize::MAX {
        (len - 1) as usize
    } else if index >= len {
        0
    } else {
        index
    }
}

/// The first entry of the page that shows entry `index`, where a page
/// holds `window_size` entries.
pub open spec fn page_start(window_size: usize, index: usize) -> int {
    (index as int / window_size as int) * window_size as int
}

/// The number of entries on the page that starts at `start`.
pub open spec fn page_count(window_size: usize, len: usize, start: int) -> int {
    if start + window_size <= len {
        window_size as int
    } else {
        len - start
    }
}

/// The games and cores on offer.
pub struct Menu {
    games: Vec<GameInfo>,
    emus: Vec<CoreInfo>,
}

impl View for Menu {
    type V = MenuView;

    closed spec fn view(&self) -> MenuView {
        MenuView { games: game_views(self.games@), emus: core_views(self.emus@) }
    }
}

impl Menu {
    /// Whether a file in the games directory is the metadata of a game
    /// rather than a game.
    pub fn is_metadata(path: &str) -> (r: bool)
        ensures
            r == (extension_of(path@) == Some("toml"@)),
    {
        match path_extension(path) {
            Some(ext) => str_eq(ext.as_str(), "toml"),
            None => false,
        }
    }

    /// Where the metadata of a game lies: beside the game, under its name
    /// with `.toml` added.
    pub fn metadata_path(path: &str) -> (r: String)
        ensures
            r@ == path@ + "."@ + "toml"@,
    {
        String::from_str(path).concat(".").concat("toml")
    }

    /// The name to show for a game whose file is called `file_name`, given
    /// the text of its metadata file, if it has one that could be read.
    pub fn try_get_metadata(file_name: &str, metadata: Option<&str>) -> (r: String)
        ensures
            r@ == shown_name(
                metadata_name(
                    match metadata {
                        Some(t) => Some(t@),
                        None => None,
                    },
                ),
                file_name@,
            ),
    {
        let parsed = match metadata {
            Some(text) => if few_openings(text.as_bytes()) {
                toml_string(text, "name")
            } else {
                None
            },
            None => None,
        };
        display_name(parsed, file_name)
    }

    /// Takes a file of the games directory as a game, unless it is the
    /// metadata of one. `metadata` is the text of the file at
    /// `metadata_path`, if there is one that could be read.
    pub fn process_game(path: &str, metadata: Option<&str>) -> (r: Option<GameInfo>)
        ensures
            r is Some <==> extension_of(path@) != Some("toml"@) && file_name_of(path@) is Some,
            r matches Some(g) ==> g@.path == path@ && g@.name == shown_name(
                metadata_name(
                    match metadata {
                        Some(t) => Some(t@),
                        None => None,
                    },
                ),
                file_name_of(path@)->0,
            ),
    {
        if Self::is_metadata(path) {
            return None;
        }
        match path_file_name(path) {
            Some(file_name) => {
                let n = Self::try_get_metadata(file_name.as_str(), metadata);
                Some(GameInfo { path: String::from_str(path), name: n })
            },
            None => None,
        }
    }

    /// A menu of the given games, with no cores on offer yet.
    pub fn new(games: Vec<GameInfo>) -> (r: Self)
        ensures
            r@.games == game_views(games@),
            r@.emus == Seq::<CoreInfoView>::empty(),
    {
        let r = Menu { games, emus: Vec::new() };
        assert(core_views(r.emus@) =~= Seq::<CoreInfoView>::empty());
        r
    }

    /// The games, in the order in which they are shown.
    pub fn games(&self) -> (g: &Vec<GameInfo>)
        ensures
            game_views(g@) == self@.games,
    {
        &self.games
    }

    /// The cores on offer for the chosen game.
    pub fn cores(&self) -> (c: &Vec<CoreInfo>)
        ensures
            core_views(c@) == self@.emus,
    {
        &self.emus
    }

    pub fn set_cores(&mut self, cores: Vec<CoreInfo>)
        ensures
            final(self)@ == (MenuView { emus: core_views(cores@), ..old(self)@ }),
    {
        self.emus = cores;
    }

    /// The number of entries that fit on a page of a screen of the given
    /// height.
    pub fn window_size(height: u16) -> (r: usize)
        requires
            height >= MENU_TOP_MARGIN,
        ensures
            r == (height - MENU_TOP_MARGIN) / (MENU_ITEM_HEIGHT as int),
    {
        ((height - MENU_TOP_MARGIN) / MENU_ITEM_HEIGHT) as usize
    }

    /// The height at which the entry in the given row of a page is
    /// written, in pixels from the top.
    pub fn item_y(row: u16) -> (y: i32)
        requires
            MENU_TOP_MARGIN + row * MENU_ITEM_HEIGHT <= u16::MAX,
        ensures
            y == MENU_TOP_MARGIN + row * MENU_ITEM_HEIGHT,
    {
        (MENU_TOP_MARGIN + (row * MENU_ITEM_HEIGHT)) as i32
    }

    /// The part of a list of `len` entries to draw when entry `index` is
    /// highlighted: the first entry of its page, and how many follow.
    pub fn page(window_size: usize, len: usize, index: usize) -> (r: (usize, usize))
        requires
            window_size > 0,
            index < len || len == 0 && index == 0,
        ensures
            r.0 == page_start(window_size, index),
            r.1 == page_count(window_size, len, r.0 as int),
            r.0 <= index,
            r.0 + r.1 <= len,
            len > 0 ==> index < r.0 + r.1,
    {
        let pages = index / window_size;
        assert(pages * window_size <= index && index < pages * window_size + window_size)
            by (nonlinear_arith)
            requires
                pages == index as int / window_size as int,
                window_size > 0,
                index >= 0,
        ;
        let start = pages * window_size;
        let end = if len - start < window_size {
            len
        } else {
            start + window_size
        };
        (start, end - start)
    }

    /// The place of the highlight after a move, see `wrapped_index`.
    pub fn safe_index(&self, sel: MenuSel, index: usize) -> (r: usize)
        ensures
            r == wrapped_index(
                match sel {
                    MenuSel::Game => self@.games.len() as usize,
                    MenuSel::Core => self@.emus.len() as usize,
                },
                index,
            ),
    {
        match sel {
            MenuSel::Game => safe_index_inner(self.games.len(), index),
            MenuSel::Core => safe_index_inner(self.emus.len(), index),
        }
    }

    /// The core at the given place of the list, if there is one.
    pub fn get_core(&self, index: usize) -> (r: Option<CoreInfo>)
        ensures
            r is Some <==> index < self@.emus.len(),
            r matches Some(c) ==> c@ == self@.emus[index as int],
    {
        if index < self.emus.len() {
            Some(self.emus[index].clone())
        } else {
            None
        }
    }

    /// Where the game at the given place of the list lies; empty where
    /// there is no such game.
    pub fn get_path(&self, index: usize) -> (r: String)
        ensures
            r@ == if index < self@.games.len() {
                self@.games[index as int].path
            } else {
                Seq::<char>::empty()
            },
    {
        if index < self.games.len() {
            self.games[index].path.clone()
        } else {
            String::new()
        }
    }

    pub fn num_cores(&self) -> (n: usize)
        ensures
            n == self@.emus.len(),
    {
        self.emus.len()
    }

    pub fn num_games(&self) -> (n: usize)
        ensures
            n == self@.games.len(),
    {
        self.games.len()
    }
}

/// The place of the highlight after a move in a list of `len` entries.
pub fn safe_index_inner(len: usize, index: usize) -> (r: usize)
    ensures
        r == wrapped_index(len, index),
        len > 0 ==> r < len,
{
    if len == 0 {
        0
    } else if index == usize::MAX {
        // If max, wrapped round from zero so go to last item
        len - 1
    } else if index >= len {
        0
    } else {
        index
    }
}

/// The order of texts in memory: byte by byte, and a text before every
/// text that it starts.
pub open spec fn lex_le(a: Seq<u8>, b: Seq<u8>) -> bool
    decreases a.len(),
{
    if a.len() == 0 {
        true
    } else if b.len() == 0 {
        false
    } else if a[0] != b[0] {
        a[0] < b[0]
    } else {
        lex_le(a.drop_first(), b.drop_first())
    }
}

/// The order in which games are shown: by name, in the order of the
/// bytes of the names.
pub open spec fn name_le(a: GameInfoView, b: GameInfoView) -> bool {
    lex_le(encode_utf8(a.name), encode_utf8(b.name))
}

/// Each game of the list comes before the next in the order of names.
pub open spec fn sorted_by_name(s: Seq<GameInfoView>) -> bool {
    forall|i: int| 0 <= i < s.len() - 1 ==> name_le(#[trigger] s[i], s[i + 1])
}

/// Of two texts, one comes before the other or they are the same.
pub proof fn lemma_lex_total(a: Seq<u8>, b: Seq<u8>)
    ensures
        lex_le(a, b) || lex_le(b, a),
    decreases a.len(),
{
    if a.len() > 0 && b.len() > 0 && a[0] == b[0] {
        lemma_lex_total(a.drop_first(), b.drop_first());
    }
}

/// Whether `a` comes before `b` in the order of texts in memory, or is
/// the same.
pub fn bytes_le(a: &[u8], b: &[u8]) -> (r: bool)
    ensures
        r == lex_le(a@, b@),
{
    let mut i: usize = 0;
    assert(a@.subrange(0, a@.len() as int) == a@);
    assert(b@.subrange(0, b@.len() as int) == b@);
    while i < a.len() && i < b.len()
        invariant
            i <= a@.len(),
            i <= b@.len(),
            lex_le(a@, b@) == lex_le(
                a@.subrange(i as int, a@.len() as int),
                b@.subrange(i as int, b@.len() as int),
            ),
        decreases a@.len() - i,
    {
        let ghost ra = a@.subrange(i as int, a@.len() as int);
        let ghost rb = b@.subrange(i as int, b@.len() as int);
        assert(ra[0] == a@[i as int]);
        assert(rb[0] == b@[i as int]);
        assert(ra.drop_first() == a@.subrange(i + 1, a@.len() as int));
        assert(rb.drop_first() == b@.subrange(i + 1, b@.len() as int));
        if a[i] != b[i] {
            return a[i] < b[i];
        }
        i += 1;
    }
    i == a.len()
}

/// Puts games in the order in which the menu shows them: by name. The
/// result holds the same games; which of two games with one name comes
/// first is left open.
pub fn sort_games(games: Vec<GameInfo>) -> (r: Vec<GameInfo>)
    ensures
        sorted_by_name(game_views(r@)),
        game_views(r@).to_multiset() == game_views(games@).to_multiset(),
{
    let mut rest = games;
    let mut out: Vec<GameInfo> = Vec::new();
    assert(game_views(out@) =~= Seq::empty());
    proof {
        broadcast use vstd::seq_lib::group_to_multiset_ensures;

        assert(game_views(out@).to_multiset() =~= vstd::multiset::Multiset::empty());
    }
    while rest.len() > 0
        invariant
            sorted_by_name(game_views(out@)),
            game_views(out@).to_multiset().add(game_views(rest@).to_multiset()) == game_views(
                games@,
            ).to_multiset(),
        decreases rest@.len(),
    {
        let ghost rest_before = game_views(rest@);
        let ghost out_before = game_views(out@);
        let g = match rest.pop() {
            Some(g) => g,
            None => {
                assert(false);
                GameInfo { path: String::new(), name: String::new() }
            },
        };
        assert(rest_before =~= game_views(rest@).push(g@));
        let mut k: usize = 0;
        while k < out.len() && bytes_le(out[k].name.as_str().as_bytes(), g.name.as_str().as_bytes())
            invariant
                k <= out@.len(),
                forall|j: int| 0 <= j < k ==> name_le(#[trigger] game_views(out@)[j], g@),
            decreases out@.len() - k,
        {
            assert(name_le(game_views(out@)[k as int], g@));
            k += 1;
        }
        proof {
            if k < out@.len() {
                lemma_lex_total(
                    encode_utf8(game_views(out@)[k as int].name),
                    encode_utf8(g@.name),
                );
            }
        }
        out.insert(k, g);
        proof {
            broadcast use vstd::seq_lib::group_to_multiset_ensures;

            let after = game_views(out@);
            assert(after =~= out_before.insert(k as int, g@));
            assert forall|i: int| 0 <= i < after.len() - 1 implies name_le(
                #[trigger] after[i],
                after[i + 1],
            ) by {
                if i < k - 1 {
                    assert(name_le(out_before[i], out_before[i + 1]));
                } else if i == k - 1 {
                    assert(name_le(out_before[i], g@));
                } else if i == k {
                } else {
                    assert(name_le(out_before[i - 1], out_before[i]));
                }
            }
            assert(after.remove(k as int) =~= out_before);
            assert(after[k as int] == g@);
            assert(after.to_multiset().count(g@) > 0);
            assert(after.to_multiset() =~= out_before.to_multiset().insert(g@));
            assert(rest_before.to_multiset() =~= game_views(rest@).to_multiset().insert(g@));
            assert(after.to_multiset().add(game_views(rest@).to_multiset())
                =~= out_before.to_multiset().add(rest_before.to_multiset()));
        }
    }
    proof {
        broadcast use vstd::seq_lib::group_to_multiset_ensures;

        assert(game_views(rest@) =~= Seq::empty());
        assert(game_views(rest@).to_multiset() =~= vstd::multiset::Multiset::empty());
        assert(game_views(out@).to_multiset().add(game_views(rest@).to_multiset())
            =~= game_views(out@).to_multiset());
    }
    out
}

/// A step up from the first entry leads to the last one, a step beyond
/// the last entry leads to the first, and every other place stays. The
/// result is a place of the list, unless the list is empty, where it is
/// zero.
pub proof fn law_index_wraparound(len: usize, index: usize)
    ensures
        len > 0 ==> wrapped_index(len, usize::MAX) == len - 1,
        len > 0 && index >= len && index != usize::MAX ==> wrapped_index(len, index) == 0,
        index < len ==> wrapped_index(len, index) == index,
        len > 0 ==> wrapped_index(len, index) < len,
        len == 0 ==> wrapped_index(len, index) == 0,
{
}

} // verus!

//! The states that the frontend moves through, from the splash screen over
//! the menus into a game and back, and what decides each move.

use crate::commands::ScreenToast;
use crate::commands::ScreenToastView;
use crate::enums::RetroPadButton;
use crate::error::GamepieError;
use crate::controller::state_of;
use crate::menu::core_views;
use crate::menu::wrapped_index;
use crate::menu::Menu;
use crate::menu::MenuSel;
use crate::menu::MenuView;
use crate::paths::extension_of;
use crate::paths::path_extension;
use crate::portable::PString;
use crate::problem::Problem;
use crate::problem::ProblemView;
use crate::proxy::RetroProxy;
use crate::types::CoreInfo;
use crate::types::CoreInfoView;
use vstd::prelude::*;
use vstd::string::*;

verus! {

/// How long the splash screen stays, in nanoseconds.
pub const SPLASH_DURATION: u64 = 3_000_000_000;

/// How long the error screen stays, in nanoseconds.
pub const ERROR_DURATION: u64 = 3_000_000_000;

/// The time between two polls of the menu, in nanoseconds.
pub const MENU_FRAME_DURATION: u64 = 30_000_000;

/// The time for which the buttons of the case are left alone after one of
/// them was pressed, in nanoseconds.
pub const BUTTON_BLANK_DURATION: u64 = 500_000_000;

/// Where the highlight of a menu stands, and whether a button was down
/// at the last poll.
#[derive(Clone, Copy, Debug, PartialEq, Eq, Structural)]
pub struct MenuState {
    pub index: usize,
    pub pressed: bool,
}

impl MenuState {
    pub fn new(index: usize, pressed: bool) -> (r: Self)
        ensures
            r == (MenuState { index, pressed }),
    {
        Self { index, pressed }
    }

    /// The state in which a menu is entered: the highlight on the first
    /// entry, and a button counted as down, so that the press that led
    /// here is not taken a second time.
    pub open spec fn entered() -> MenuState {
        MenuState { index: 0, pressed: true }
    }
}

impl Default for MenuState {
    fn default() -> (r: Self)
        ensures
            r == MenuState::entered(),
    {
        Self { index: 0, pressed: true }
    }
}

/// What a poll of the joypad means for a menu.
#[derive(Clone, Copy, Debug, PartialEq, Eq, Structural)]
pub struct MenuInfo {
    pub start_game: bool,
    pub back: bool,
    pub unsafe_index: usize,
    pub new_pressed: bool,
}

/// What a poll of the joypad means for a menu. A button counts only on
/// its edge, that is while no button was down at the last poll. Up and
/// down move the highlight by one, and the index may leave the list by
/// that: a step up from zero wraps round to the largest number.
pub open spec fn menu_info_of(keys: Seq<i16>, state: MenuState) -> MenuInfo {
    let a_press = state_of(keys, RetroPadButton::A) == 1;
    let b_press = state_of(keys, RetroPadButton::B) == 1;
    let up_press = state_of(keys, RetroPadButton::Up) == 1;
    let dn_press = state_of(keys, RetroPadButton::Down) == 1;
    MenuInfo {
        start_game: a_press && !state.pressed,
        back: b_press && !state.pressed,
        unsafe_index: if state.pressed {
            state.index
        } else if up_press {
            if state.index == 0 {
                usize::MAX
            } else {
                (state.index - 1) as usize
            }
        } else if dn_press {
            if state.index == usize::MAX {
                0
            } else {
                (state.index + 1) as usize
            }
        } else {
            state.index
        },
        new_pressed: up_press || dn_press || a_press,
    }
}

/// Reads the buttons that control the menu from the mediator.
pub fn get_menu_info<S>(proxy: &RetroProxy<S>, state: &MenuState) -> (r: MenuInfo)
    ensures
        r == menu_info_of(proxy@.keys, *state),
{
    let a_press = proxy.input_state(RetroPadButton::A) == 1;
    let b_press = proxy.input_state(RetroPadButton::B) == 1;
    let up_press = proxy.input_state(RetroPadButton::Up) == 1;
    let dn_press = proxy.input_state(RetroPadButton::Down) == 1;
    let new_pressed = up_press || dn_press || a_press;
    let delta = if state.pressed {
        state.index
    } else if up_press {
        if state.index == 0 {
            usize::MAX
        } else {
            state.index - 1
        }
    } else if dn_press {
        if state.index == usize::MAX {
            0
        } else {
            state.index + 1
        }
    } else {
        state.index
    };
    MenuInfo {
        start_game: a_press && !state.pressed,
        back: b_press && !state.pressed,
        unsafe_index: delta,
        new_pressed,
    }
}

/// The states of the frontend. `C` is a loaded core.
pub enum GamepieState<C> {
    /// Initial state
    Init,
    /// Select a game (current index, button was pressed)
    SelectGame(MenuState),
    /// Start a game (path to game, game index, current index and button
    /// was pressed)
    StartGame(String, usize, MenuState),
    /// Running game (loaded core)
    Game(C),
    /// Exit game
    ExitGame,
    /// Got an error (error)
    Error(GamepieError),
}

/// The states of the frontend, as plain values.
pub enum GamepieStateView<C> {
    Init,
    SelectGame(MenuState),
    StartGame(Seq<char>, usize, MenuState),
    Game(C),
    ExitGame,
    Error(GamepieError),
}

impl<C> View for GamepieState<C> {
    type V = GamepieStateView<C>;

    open spec fn view(&self) -> GamepieStateView<C> {
        match self {
            GamepieState::Init => GamepieStateView::Init,
            GamepieState::SelectGame(s) => GamepieStateView::SelectGame(*s),
            GamepieState::StartGame(g, i, s) => GamepieStateView::StartGame(g@, *i, *s),
            GamepieState::Game(c) => GamepieStateView::Game(*c),
            GamepieState::ExitGame => GamepieStateView::ExitGame,
            GamepieState::Error(e) => GamepieStateView::Error(*e),
        }
    }
}

/// What is known from outside when a move is decided: whether the user
/// asked to leave, whether the user asked to go back, and what the joypad
/// says, which is nothing while there is no mediator.
pub struct Inputs {
    pub request_exit: bool,
    pub request_back: bool,
    pub menu: Option<MenuInfo>,
}

/// What is to be shown before the joypad is read.
#[derive(Clone, Copy, Debug, PartialEq, Eq, Structural)]
pub enum Entry {
    /// Nothing is shown.
    Nothing,
    /// Make a mediator for the menu, show the splash screen, and wait for
    /// the duration of the splash.
    Splash,
    /// Draw the list with the highlight at the index.
    DrawMenu(MenuSel, usize),
    /// Show the error, and wait for the duration of the error screen.
    ShowError(GamepieError),
}

impl Entry {
    /// How long what is shown stays before the joypad is read, in
    /// nanoseconds: the splash and the error screen stay for their
    /// durations, a menu and nothing do not wait.
    pub open spec fn wait_of(self) -> u64 {
        match self {
            Entry::Splash => SPLASH_DURATION,
            Entry::ShowError(_) => ERROR_DURATION,
            Entry::DrawMenu(_, _) => 0,
            Entry::Nothing => 0,
        }
    }

    /// How long to wait once this is shown, in nanoseconds.
    pub fn wait(&self) -> (r: u64)
        ensures
            r == self.wait_of(),
    {
        match self {
            Entry::Splash => SPLASH_DURATION,
            Entry::ShowError(_) => ERROR_DURATION,
            Entry::DrawMenu(_, _) => 0,
            Entry::Nothing => 0,
        }
    }
}

/// What is to be done after a move was decided.
pub struct Step<C> {
    /// Wait this long, in nanoseconds.
    pub sleep: u64,
    /// Take back the request to go back.
    pub clear_back: bool,
    /// Run the core for a frame.
    pub tick: bool,
    /// Load this core with this game, and report what came of it.
    pub load: Option<(CoreInfo, String)>,
    /// End this core.
    pub unload: Option<C>,
}

/// What is to be done after a move was decided, as plain values.
pub struct StepView<C> {
    pub sleep: u64,
    pub clear_back: bool,
    pub tick: bool,
    pub load: Option<(CoreInfoView, Seq<char>)>,
    pub unload: Option<C>,
}

impl<C> View for Step<C> {
    type V = StepView<C>;

    open spec fn view(&self) -> StepView<C> {
        StepView {
            sleep: self.sleep,
            clear_back: self.clear_back,
            tick: self.tick,
            load: match self.load {
                Some((c, g)) => Some((c@, g@)),
                None => None,
            },
            unload: self.unload,
        }
    }
}

impl<C> StepView<C> {
    /// Nothing is to be done.
    pub open spec fn idle() -> StepView<C> {
        StepView { sleep: 0, clear_back: false, tick: false, load: None, unload: None }
    }
}

/// The cores of the list that take files with the given extension, in
/// the order of the list. Without an extension no core is compatible.
pub open spec fn compatible(cores: Seq<CoreInfoView>, ext: Option<Seq<char>>) -> Seq<
    CoreInfoView,
> {
    match ext {
        Some(e) => cores.filter(|c: CoreInfoView| c.supports(e)),
        None => Seq::empty(),
    }
}

/// What the frontend holds apart from its collaborators: the directory
/// under which it keeps its files, the cores it found, the menu, and its
/// state.
pub struct GamepieView<C> {
    pub root_dir: Seq<char>,
    pub cores: Seq<CoreInfoView>,
    pub menu: MenuView,
    pub state: Option<GamepieStateView<C>>,
}

impl<C> GamepieView<C> {
    /// Whether the main loop goes on: it ends in the exit state, and
    /// where there is no state.
    pub open spec fn running(self) -> bool {
        !(self.state is None || self.state == Some(GamepieStateView::<C>::ExitGame))
    }

    /// What is to be shown before the joypad is read.
    pub open spec fn entry(self) -> Entry {
        match self.state {
            Some(GamepieStateView::Init) => Entry::Splash,
            Some(GamepieStateView::SelectGame(s)) => Entry::DrawMenu(MenuSel::Game, s.index),
            Some(GamepieStateView::StartGame(_, _, s)) => if self.menu.emus.len() > 1 {
                Entry::DrawMenu(MenuSel::Core, s.index)
            } else {
                Entry::Nothing
            },
            Some(GamepieStateView::Error(e)) => Entry::ShowError(e),
            _ => Entry::Nothing,
        }
    }

    /// Where the highlight of the menu on screen stands, while a menu is
    /// on screen.
    pub open spec fn menu_state(self) -> Option<MenuState> {
        match self.state {
            Some(GamepieStateView::SelectGame(s)) => Some(s),
            Some(GamepieStateView::StartGame(_, _, s)) => Some(s),
            _ => None,
        }
    }

    /// The frontend in another state.
    pub open spec fn at(self, state: GamepieStateView<C>) -> GamepieView<C> {
        GamepieView { state: Some(state), ..self }
    }

    /// The move out of the first state: to the exit where the user asked
    /// to leave or to go back, to the error of no games where there are
    /// none, else to the list of games.
    pub open spec fn from_init(self, inputs: Inputs) -> (GamepieView<C>, StepView<C>) {
        if inputs.request_exit || inputs.request_back {
            (self.at(GamepieStateView::ExitGame), StepView::idle())
        } else if self.menu.games.len() == 0 {
            (self.at(GamepieStateView::Error(GamepieError::NoGames)), StepView::idle())
        } else {
            (self.at(GamepieStateView::SelectGame(MenuState::entered())), StepView::idle())
        }
    }

    /// The move out of the list of games.
    pub open spec fn from_select(self, state: MenuState, inputs: Inputs) -> (
        GamepieView<C>,
        StepView<C>,
    ) {
        match inputs.menu {
            None => (self.at(GamepieStateView::Error(GamepieError::System)), StepView::idle()),
            Some(info) => {
                if inputs.request_exit {
                    (self.at(GamepieStateView::ExitGame), StepView::idle())
                } else if inputs.request_back {
                    (
                        self.at(GamepieStateView::ExitGame),
                        StepView { clear_back: true, ..StepView::idle() },
                    )
                } else if info.start_game {
                    let path = if state.index < self.menu.games.len() {
                        self.menu.games[state.index as int].path
                    } else {
                        Seq::<char>::empty()
                    };
                    let cores = compatible(self.cores, extension_of(path));
                    if cores.len() == 0 {
                        (
                            self.at(GamepieStateView::Error(GamepieError::NoCore)),
                            StepView::idle(),
                        )
                    } else {
                        (
                            GamepieView {
                                menu: MenuView { emus: cores, ..self.menu },
                                state: Some(
                                    GamepieStateView::StartGame(
                                        path,
                                        state.index,
                                        MenuState::entered(),
                                    ),
                                ),
                                ..self
                            },
                            StepView::idle(),
                        )
                    }
                } else {
                    (
                        self.at(
                            GamepieStateView::SelectGame(
                                MenuState {
                                    index: wrapped_index(
                                        self.menu.games.len() as usize,
                                        info.unsafe_index,
                                    ),
                                    pressed: info.new_pressed,
                                },
                            ),
                        ),
                        StepView { sleep: MENU_FRAME_DURATION, ..StepView::idle() },
                    )
                }
            },
        }
    }

    /// The move out of the list of cores. With one core on offer it is
    /// loaded at once, without a press.
    pub open spec fn from_start(
        self,
        game: Seq<char>,
        game_index: usize,
        state: MenuState,
        inputs: Inputs,
    ) -> (GamepieView<C>, StepView<C>) {
        match inputs.menu {
            None => (self.at(GamepieStateView::Error(GamepieError::System)), StepView::idle()),
            Some(info) => {
                if inputs.request_exit {
                    (self.at(GamepieStateView::ExitGame), StepView::idle())
                } else if inputs.request_back || info.back {
                    (
                        self.at(
                            GamepieStateView::SelectGame(
                                MenuState { index: game_index, pressed: true },
                            ),
                        ),
                        StepView { clear_back: true, ..StepView::idle() },
                    )
                } else if info.start_game || self.menu.emus.len() == 1 {
                    if state.index < self.menu.emus.len() {
                        (
                            self,
                            StepView {
                                load: Some((self.menu.emus[state.index as int], game)),
                                ..StepView::idle()
                            },
                        )
                    } else {
                        (
                            self.at(GamepieStateView::Error(GamepieError::System)),
                            StepView::idle(),
                        )
                    }
                } else {
                    (
                        self.at(
                            GamepieStateView::StartGame(
                                game,
                                game_index,
                                MenuState {
                                    index: wrapped_index(
                                        self.menu.emus.len() as usize,
                                        info.unsafe_index,
                                    ),
                                    pressed: info.new_pressed,
                                },
                            ),
                        ),
                        StepView { sleep: MENU_FRAME_DURATION, ..StepView::idle() },
                    )
                }
            },
        }
    }

    /// The move out of a running game: back to the first state, ending
    /// the core, where the user asked to leave or to go back; else the
    /// core runs a frame.
    pub open spec fn from_game(self, core: C, inputs: Inputs) -> (GamepieView<C>, StepView<C>) {
        if inputs.request_exit {
            (self.at(GamepieStateView::Init), StepView { unload: Some(core), ..StepView::idle() })
        } else if inputs.request_back {
            (
                self.at(GamepieStateView::Init),
                StepView { unload: Some(core), clear_back: true, ..StepView::idle() },
            )
        } else {
            (self, StepView { tick: true, ..StepView::idle() })
        }
    }

    /// The move that the frontend makes, and what is to be done after it.
    pub open spec fn stepped(self, inputs: Inputs) -> (GamepieView<C>, StepView<C>) {
        match self.state {
            Some(GamepieStateView::Init) => self.from_init(inputs),
            Some(GamepieStateView::SelectGame(s)) => self.from_select(s, inputs),
            Some(GamepieStateView::StartGame(g, i, s)) => self.from_start(g, i, s, inputs),
            Some(GamepieStateView::Game(c)) => self.from_game(c, inputs),
            Some(GamepieStateView::ExitGame) => (self, StepView::idle()),
            Some(GamepieStateView::Error(_)) => (self.at(GamepieStateView::Init), StepView::idle()),
            None => (self.at(GamepieStateView::Error(GamepieError::System)), StepView::idle()),
        }
    }

    /// The state after a core was loaded, or was not.
    pub open spec fn loaded(self, result: Result<C, GamepieError>) -> GamepieView<C> {
        match result {
            Ok(c) => self.at(GamepieStateView::Game(c)),
            Err(e) => self.at(GamepieStateView::Error(e)),
        }
    }

    /// The core that is lost when the state is given up for an error.
    pub open spec fn dropped(self) -> Option<C> {
        match self.state {
            Some(GamepieStateView::Game(c)) => Some(c),
            _ => None,
        }
    }

    /// The state after an error took over.
    pub open spec fn failed(self, e: GamepieError) -> GamepieView<C> {
        self.at(GamepieStateView::Error(e))
    }
}

/// What the channel of problems holds at the moment.
pub enum ProblemEvent {
    /// Nothing is waiting.
    Empty,
    /// The channel has no sender left.
    Disconnected,
    /// The problem that is first in line.
    Pending(Problem),
}

/// What a problem leads to: a toast to pass on to the overlay, and a core
/// to end because an error took over the state.
pub struct Drained<C> {
    pub forward: Option<ScreenToast>,
    pub unload: Option<C>,
}

/// The frontend.
pub struct Gamepie<C> {
    root_dir: PString,
    cores: Vec<CoreInfo>,
    menu: Menu,
    state: Option<GamepieState<C>>,
}

impl<C> View for Gamepie<C> {
    type V = GamepieView<C>;

    closed spec fn view(&self) -> GamepieView<C> {
        GamepieView {
            root_dir: self.root_dir@,
            cores: core_views(self.cores@),
            menu: self.menu@,
            state: match self.state {
                Some(s) => Some(s@),
                None => None,
            },
        }
    }
}

impl<C> Gamepie<C> {
    /// The frontend in its first state.
    pub fn new(root_dir: PString, cores: Vec<CoreInfo>, menu: Menu) -> (r: Self)
        ensures
            r@.cores == core_views(cores@),
            r@.menu == menu@,
            r@.state == Some(GamepieStateView::<C>::Init),
            r@.root_dir == root_dir@,
    {
        Gamepie { root_dir, cores, menu, state: Some(GamepieState::Init) }
    }

    /// The directory under which the frontend keeps its files.
    pub fn root_dir(&self) -> (r: &PString)
        ensures
            r@ == self@.root_dir,
    {
        &self.root_dir
    }

    pub fn menu(&self) -> (m: &Menu)
        ensures
            m@ == self@.menu,
    {
        &self.menu
    }

    /// The core that runs, while a game is played.
    pub fn running_core(&mut self) -> (c: Option<&mut C>)
        ensures
            final(self)@.root_dir == old(self)@.root_dir,
            final(self)@.cores == old(self)@.cores,
            final(self)@.menu == old(self)@.menu,
            match c {
                Some(r) => old(self)@.state == Some(GamepieStateView::Game(*r))
                    && final(self)@.state == Some(GamepieStateView::Game(*final(r))),
                None => !(old(self)@.state matches Some(GamepieStateView::Game(_)))
                    && final(self)@ == old(self)@,
            },
    {
        match &mut self.state {
            Some(GamepieState::Game(c)) => Some(c),
            _ => None,
        }
    }

    /// Whether the main loop goes on.
    pub fn is_running(&self) -> (r: bool)
        ensures
            r == self@.running(),
    {
        match &self.state {
            Some(GamepieState::ExitGame) => false,
            None => false,
            _ => true,
        }
    }

    /// Where the highlight of the menu on screen stands, while a menu is
    /// on screen. The buttons are read against it.
    pub fn menu_state(&self) -> (r: Option<MenuState>)
        ensures
            r == self@.menu_state(),
    {
        match &self.state {
            Some(GamepieState::SelectGame(s)) => Some(*s),
            Some(GamepieState::StartGame(_, _, s)) => Some(*s),
            _ => None,
        }
    }

    /// What is to be shown before the joypad is read.
    pub fn entry(&self) -> (e: Entry)
        ensures
            e == self@.entry(),
    {
        match &self.state {
            Some(GamepieState::Init) => Entry::Splash,
            Some(GamepieState::SelectGame(s)) => Entry::DrawMenu(MenuSel::Game, s.index),
            Some(GamepieState::StartGame(_, _, s)) => {
                // If only one core, going to force loading that emulator anyway
                if self.menu.num_cores() > 1 {
                    Entry::DrawMenu(MenuSel::Core, s.index)
                } else {
                    Entry::Nothing
                }
            },
            Some(GamepieState::Error(e)) => Entry::ShowError(*e),
            _ => Entry::Nothing,
        }
    }

    /// The cores that can run the game at the given path.
    pub fn get_cores_for_game(&self, path: &str) -> (r: Vec<CoreInfo>)
        ensures
            core_views(r@) == compatible(self@.cores, extension_of(path@)),
    {
        let mut cores: Vec<CoreInfo> = Vec::new();
        match path_extension(path) {
            Some(ext) => {
                let ghost keep = |c: CoreInfoView| c.supports(ext@);
                let mut i: usize = 0;
                assert(core_views(self.cores@).subrange(0, 0) =~= Seq::empty());
                assert(core_views(cores@) =~= Seq::<CoreInfoView>::empty());
                proof {
                    reveal(Seq::filter);
                }
                while i < self.cores.len()
                    invariant
                        i <= self.cores@.len(),
                        keep == |c: CoreInfoView| c.supports(ext@),
                        core_views(cores@) == core_views(self.cores@).subrange(0, i as int).filter(
                            keep,
                        ),
                    decreases self.cores@.len() - i,
                {
                    let ghost before = core_views(cores@);
                    let ghost prefix = core_views(self.cores@).subrange(0, i + 1);
                    proof {
                        reveal(Seq::filter);
                        assert(prefix.drop_last() == core_views(self.cores@).subrange(0, i as int));
                        assert(prefix.last() == self.cores@[i as int]@);
                    }
                    let c = &self.cores[i];
                    if c.supports(ext.as_str()) {
                        cores.push(c.clone());
                        assert(core_views(cores@) =~= before.push(self.cores@[i as int]@));
                    }
                    i += 1;
                }
                assert(core_views(self.cores@).subrange(0, i as int) =~= core_views(self.cores@));
            },
            None => {
                assert(core_views(cores@) =~= Seq::<CoreInfoView>::empty());
            },
        }
        cores
    }

    /// Makes the move that the state and the inputs call for, and says
    /// what is to be done after it. While a load is asked for, the state
    /// stays as it is until `loaded` reports what came of it.
    pub fn main_loop_inner(&mut self, inputs: &Inputs) -> (r: Step<C>)
        ensures
            (final(self)@, r@) == old(self)@.stepped(*inputs),
    {
        let mut step = Step { sleep: 0, clear_back: false, tick: false, load: None, unload: None };
        let next_state = match self.state.take() {
            Some(GamepieState::Init) => {
                // If Exit(Ctrl-C) or back(Button) then exit, will
                // be restarted by service.
                if inputs.request_exit || inputs.request_back {
                    GamepieState::ExitGame
                } else if self.menu.num_games() == 0 {
                    GamepieState::Error(GamepieError::NoGames)
                } else {
                    GamepieState::SelectGame(MenuState::default())
                }
            },
            Some(GamepieState::SelectGame(state)) => {
                // Check for button presses to change index
                match inputs.menu {
                    None => GamepieState::Error(GamepieError::System),
                    Some(info) => {
                        if inputs.request_exit {
                            GamepieState::ExitGame
                        } else if inputs.request_back {
                            step.clear_back = true;
                            GamepieState::ExitGame
                        } else if info.start_game {
                            // Get path to game
                            let path = self.menu.get_path(state.index);
                            let cores = self.get_cores_for_game(path.as_str());
                            if cores.len() == 0 {
                                GamepieState::Error(GamepieError::NoCore)
                            } else {
                                self.menu.set_cores(cores);
                                // Force pressed to 'debounce' start button
                                GamepieState::StartGame(path, state.index, MenuState::default())
                            }
                        } else {
                            step.sleep = MENU_FRAME_DURATION;
                            let new_index = self.menu.safe_index(MenuSel::Game, info.unsafe_index);
                            GamepieState::SelectGame(MenuState::new(new_index, info.new_pressed))
                        }
                    },
                }
            },
            Some(GamepieState::StartGame(game, game_index, state)) => {
                let cores = self.menu.num_cores();
                match inputs.menu {
                    None => GamepieState::Error(GamepieError::System),
                    Some(info) => {
                        if inputs.request_exit {
                            GamepieState::ExitGame
                        } else if inputs.request_back || info.back {
                            step.clear_back = true;
                            GamepieState::SelectGame(MenuState::new(game_index, true))
                        } else if info.start_game || cores == 1 {
                            match self.menu.get_core(state.index) {
                                Some(cinfo) => {
                                    step.load = Some((cinfo, game.clone()));
                                    GamepieState::StartGame(game, game_index, state)
                                },
                                None => GamepieState::Error(GamepieError::System),
                            }
                        } else {
                            step.sleep = MENU_FRAME_DURATION;
                            let new_index = self.menu.safe_index(MenuSel::Core, info.unsafe_index);
                            GamepieState::StartGame(
                                game,
                                game_index,
                                MenuState::new(new_index, info.new_pressed),
                            )
                        }
                    },
                }
            },
            Some(GamepieState::Game(core)) => {
                // Going back to init ends the core, which saves
                if inputs.request_exit {
                    step.unload = Some(core);
                    GamepieState::Init
                } else if inputs.request_back {
                    step.clear_back = true;
                    step.unload = Some(core);
                    GamepieState::Init
                } else {
                    step.tick = true;
                    GamepieState::Game(core)
                }
            },
            Some(GamepieState::ExitGame) => GamepieState::ExitGame,
            Some(GamepieState::Error(_)) => GamepieState::Init,
            None => GamepieState::Error(GamepieError::System),
        };
        self.state = Some(next_state);
        step
    }

    /// Takes what came of the load that the last move asked for: the game
    /// runs, or the error of the load takes over.
    pub fn loaded(&mut self, result: Result<C, GamepieError>)
        ensures
            final(self)@ == old(self)@.loaded(result),
    {
        self.state = match result {
            Ok(c) => Some(GamepieState::Game(c)),
            Err(e) => Some(GamepieState::Error(e)),
        };
    }

    /// Gives up the state for an error, and hands back the core that ran,
    /// if one did, so that it can be ended.
    pub fn fail(&mut self, e: GamepieError) -> (r: Option<C>)
        ensures
            final(self)@ == old(self)@.failed(e),
            r == old(self)@.dropped(),
    {
        let r = match self.state.take() {
            Some(GamepieState::Game(c)) => Some(c),
            _ => None,
        };
        self.state = Some(GamepieState::Error(e));
        r
    }

    /// Handles the problem that is first in line, after a move was made.
    /// A fatal problem takes over the state, and so does a channel
    /// without senders, as an internal error. A warning is handed back to
    /// be passed on to the overlay.
    pub fn handle_problem(&mut self, event: ProblemEvent) -> (r: Drained<C>)
        ensures
            match event {
                ProblemEvent::Empty => final(self)@ == old(self)@ && r.forward is None
                    && r.unload is None,
                ProblemEvent::Disconnected => final(self)@ == old(self)@.failed(
                    GamepieError::System,
                ) && r.forward is None && r.unload == old(self)@.dropped(),
                ProblemEvent::Pending(Problem::Fatal(e)) => final(self)@ == old(self)@.failed(e)
                    && r.forward is None && r.unload == old(self)@.dropped(),
                ProblemEvent::Pending(Problem::Warn(t)) => final(self)@ == old(self)@
                    && r.unload is None && (r.forward matches Some(f) && f@ == t@),
            },
    {
        match event {
            ProblemEvent::Empty => Drained { forward: None, unload: None },
            ProblemEvent::Disconnected => {
                // Should not ever get here as the frontend holds a sender
                // of the channel.
                let unload = self.fail(GamepieError::System);
                Drained { forward: None, unload }
            },
            ProblemEvent::Pending(Problem::Fatal(e)) => {
                let unload = self.fail(e);
                Drained { forward: None, unload }
            },
            ProblemEvent::Pending(Problem::Warn(t)) => Drained { forward: Some(t), unload: None },
        }
    }

    /// Takes note that the overlay did not take a toast: the screen may
    /// not be working, and the error of video takes over the state.
    pub fn forward_failed(&mut self) -> (r: Option<C>)
        ensures
            final(self)@ == old(self)@.failed(GamepieError::NoVideo),
            r == old(self)@.dropped(),
    {
        self.fail(GamepieError::NoVideo)
    }
}

/// How long to wait after a frame that took `elapsed` of its time, both
/// in nanoseconds; nothing where the frame took longer than its time.
pub fn frame_budget(frame_time: u64, elapsed: u64) -> (r: Option<u64>)
    ensures
        r == if elapsed <= frame_time {
            Some((frame_time - elapsed) as u64)
        } else {
            None
        },
{
    frame_time.checked_sub(elapsed)
}

/// With no games, the first state leads to the error of no games, which
/// is shown and leads back to the first state, whatever the inputs then.
pub proof fn law_no_games<C>(g: GamepieView<C>, first: Inputs, second: Inputs)
    requires
        g.state == Some(GamepieStateView::<C>::Init),
        g.menu.games.len() == 0,
        !first.request_exit,
        !first.request_back,
    ensures
        ({
            let failed = g.stepped(first).0;
            &&& failed.state == Some(GamepieStateView::<C>::Error(GamepieError::NoGames))
            &&& failed.entry() == Entry::ShowError(GamepieError::NoGames)
            &&& failed.entry().wait_of() == ERROR_DURATION
            &&& failed.stepped(second).0.state == Some(GamepieStateView::<C>::Init)
            &&& failed.stepped(second).0.menu == g.menu
            &&& g.entry().wait_of() == SPLASH_DURATION
        }),
{
}

/// A press on a game that exactly one core can run leads to the list of
/// cores, which is not drawn, and from there without another press to the
/// loading of that core with the game; once the core is loaded the game
/// runs.
pub proof fn law_single_core<C>(
    g: GamepieView<C>,
    state: MenuState,
    press: MenuInfo,
    keys: Seq<i16>,
    core: C,
)
    requires
        g.state == Some(GamepieStateView::<C>::SelectGame(state)),
        state.index < g.menu.games.len(),
        press.start_game,
        compatible(g.cores, extension_of(g.menu.games[state.index as int].path)).len() == 1,
    ensures
        ({
            let path = g.menu.games[state.index as int].path;
            let only = compatible(g.cores, extension_of(path))[0];
            let first = Inputs { request_exit: false, request_back: false, menu: Some(press) };
            let picked = g.stepped(first).0;
            let second = Inputs {
                request_exit: false,
                request_back: false,
                menu: Some(menu_info_of(keys, MenuState::entered())),
            };
            let (loading, step) = picked.stepped(second);
            &&& picked.state == Some(
                GamepieStateView::<C>::StartGame(path, state.index, MenuState::entered()),
            )
            &&& picked.entry() == Entry::Nothing
            &&& step.load == Some((only, path))
            &&& loading.loaded(Ok(core)).state == Some(GamepieStateView::<C>::Game(core))
        }),
{
}

/// A fatal problem takes over whatever state the move led to; the error
/// is then shown, and the next move leads back to the first state,
/// whatever the inputs.
pub proof fn law_fatal_overrides<C>(g: GamepieView<C>, e: GamepieError, inputs: Inputs)
    ensures
        g.failed(e).state == Some(GamepieStateView::<C>::Error(e)),
        g.failed(e).entry() == Entry::ShowError(e),
        g.failed(e).running(),
        g.failed(e).stepped(inputs).0.state == Some(GamepieStateView::<C>::Init),
        g.failed(e).stepped(inputs).1 == StepView::<C>::idle(),
{
}

/// The exit state is final: no move leads out of it, and the main loop
/// does not go on in it.
pub proof fn law_exit_is_final<C>(g: GamepieView<C>, inputs: Inputs)
    requires
        g.state == Some(GamepieStateView::<C>::ExitGame),
    ensures
        !g.running(),
        g.stepped(inputs) == (g, StepView::<C>::idle()),
{
}

} // verus!


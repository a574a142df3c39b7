//! The life of a loaded core: the steps that load it, the frames it runs,
//! the saves it makes on the way, and its end.

use crate::error::GamepieError;
use crate::paths::file_name_of;
use crate::paths::joined;
use crate::paths::path_file_name;
use crate::paths::path_join;
use crate::portable::PString;
use crate::types::CoreInfo;
use crate::types::CoreInfoView;
use crate::types::RetroGameInfo;
use crate::types::RetroSystemAvInfo;
use vstd::prelude::*;
use vstd::string::*;

verus! {

/// The time between two periodic saves, in nanoseconds.
pub const SAVE_INTERVAL: u64 = 60_000_000_000;

/// The two kinds of save: the periodic one, which alternates between two
/// files, and the final one, which writes the file that is loaded from.
#[derive(Clone, Copy, Debug, PartialEq, Eq, Structural)]
pub enum SaveType {
    Timed,
    Full,
}

/// How far the loading of a core has come. Each phase is named after the
/// step that is being waited for.
#[derive(Clone, Copy, Debug, PartialEq, Eq, Structural)]
pub enum Phase {
    /// Nothing was asked for yet.
    Unloaded,
    /// The library is being loaded.
    Library,
    /// The callbacks are being installed.
    Callbacks,
    /// The core is being initialised.
    Init,
    /// The game is being loaded.
    Game,
    /// The size of the save memory is being asked for.
    SaveSize,
    /// The save file is being read, for a save memory of this size.
    SaveRead(usize),
    /// The save data is being copied into the save memory.
    SaveCopy,
    /// The joypad is being connected.
    Controller,
    /// Geometry and timing are being asked for.
    Av,
    /// The audio channel is being started.
    Audio,
    /// The core is loaded and runs.
    Running,
    /// Loading ended with this error.
    Failed(GamepieError),
}

/// What came of the step that was asked for last.
pub enum Reply {
    /// The step was carried out.
    Done,
    /// The step could not be carried out.
    Failed,
    /// The core took the game, or refused it.
    Loaded(bool),
    /// The size of the save memory.
    Size(usize),
    /// The bytes of the save file, or nothing where there is no such file.
    File(Option<Vec<u8>>),
    /// Geometry and timing as the core reports them.
    Av(RetroSystemAvInfo),
}

/// The step to carry out next.
pub enum Request {
    LoadLibrary,
    InstallCallbacks,
    Init,
    LoadGame,
    SaveSize,
    ReadSave,
    /// Copy these bytes into the save memory; they have its size.
    CopySave(Vec<u8>),
    SetController,
    QueryAv,
    /// Hand geometry and timing to the mediator, and start the audio
    /// channel at this rate.
    StartAudio(i32),
    /// The core is loaded.
    Ready,
    /// Give up with this error.
    Abort(GamepieError),
}

/// The step to carry out next, as plain values.
pub enum RequestView {
    LoadLibrary,
    InstallCallbacks,
    Init,
    LoadGame,
    SaveSize,
    ReadSave,
    CopySave(Seq<u8>),
    SetController,
    QueryAv,
    StartAudio(i32),
    Ready,
    Abort(GamepieError),
}

impl View for Request {
    type V = RequestView;

    open spec fn view(&self) -> RequestView {
        match self {
            Request::LoadLibrary => RequestView::LoadLibrary,
            Request::InstallCallbacks => RequestView::InstallCallbacks,
            Request::Init => RequestView::Init,
            Request::LoadGame => RequestView::LoadGame,
            Request::SaveSize => RequestView::SaveSize,
            Request::ReadSave => RequestView::ReadSave,
            Request::CopySave(d) => RequestView::CopySave(d@),
            Request::SetController => RequestView::SetController,
            Request::QueryAv => RequestView::QueryAv,
            Request::StartAudio(f) => RequestView::StartAudio(*f),
            Request::Ready => RequestView::Ready,
            Request::Abort(e) => RequestView::Abort(*e),
        }
    }
}

/// The phase that follows on a reply. `has_path` says whether the game
/// has a place for its save. A reply that does not fit the phase is an
/// internal error, and a failed step fails the loading: with the error of
/// a game that did not load, or of audio where the audio did not start.
pub open spec fn next_phase(phase: Phase, has_path: bool, reply: Reply) -> Phase {
    match (phase, reply) {
        (Phase::Unloaded, Reply::Done) => Phase::Library,
        (Phase::Library, Reply::Done) => Phase::Callbacks,
        (Phase::Callbacks, Reply::Done) => Phase::Init,
        (Phase::Init, Reply::Done) => Phase::Game,
        (Phase::Game, Reply::Loaded(true)) => if has_path {
            Phase::SaveSize
        } else {
            Phase::Controller
        },
        (Phase::Game, Reply::Loaded(false)) => Phase::Failed(GamepieError::GameLoadError),
        (Phase::SaveSize, Reply::Size(n)) => if n != 0 {
            Phase::SaveRead(n)
        } else {
            Phase::Controller
        },
        (Phase::SaveRead(n), Reply::File(Some(data))) => if data@.len() == n {
            Phase::SaveCopy
        } else {
            Phase::Failed(GamepieError::MismatchSave)
        },
        (Phase::SaveRead(n), Reply::File(None)) => Phase::Controller,
        (Phase::SaveCopy, Reply::Done) => Phase::Controller,
        (Phase::Controller, Reply::Done) => Phase::Av,
        (Phase::Av, Reply::Av(info)) => Phase::Audio,
        (Phase::Audio, Reply::Done) => Phase::Running,
        (Phase::Audio, Reply::Failed) => Phase::Failed(GamepieError::NoAudio),
        (Phase::Running, _) => Phase::Failed(GamepieError::System),
        (Phase::Failed(e), _) => Phase::Failed(e),
        (_, Reply::Failed) => Phase::Failed(GamepieError::GameLoadError),
        _ => Phase::Failed(GamepieError::System),
    }
}

/// The step that a phase waits for. `data` is what the reply brought
/// that led to the phase, and `rate` the audio rate of the core.
pub open spec fn demand(phase: Phase, data: Seq<u8>, rate: i32) -> RequestView {
    match phase {
        Phase::Unloaded => RequestView::Abort(GamepieError::System),
        Phase::Library => RequestView::LoadLibrary,
        Phase::Callbacks => RequestView::InstallCallbacks,
        Phase::Init => RequestView::Init,
        Phase::Game => RequestView::LoadGame,
        Phase::SaveSize => RequestView::SaveSize,
        Phase::SaveRead(_) => RequestView::ReadSave,
        Phase::SaveCopy => RequestView::CopySave(data),
        Phase::Controller => RequestView::SetController,
        Phase::Av => RequestView::QueryAv,
        Phase::Audio => RequestView::StartAudio(rate),
        Phase::Running => RequestView::Ready,
        Phase::Failed(e) => RequestView::Abort(e),
    }
}

/// What a reply brought in bytes: the save file, if it is one.
pub open spec fn reply_data(reply: Reply) -> Seq<u8> {
    match reply {
        Reply::File(Some(data)) => data@,
        _ => Seq::empty(),
    }
}

/// The place of the save of a game: in the directory `saves` under the
/// root, under the name of the game's file with `.sav` added. A game
/// whose path names no file has no place for its save.
pub open spec fn save_path_of(root_dir: Seq<char>, game: Seq<char>) -> Option<Seq<char>> {
    match file_name_of(game) {
        Some(f) => Some(joined(joined(root_dir, "saves"@), f + "."@ + "sav"@)),
        None => None,
    }
}

/// The file that a save of the given kind writes, and the alternator
/// after it. A periodic save flips the alternator and writes the place
/// of the save with `.0` added where the alternator is then set, with
/// `.1` where it is not. The final save writes the place itself.
pub open spec fn save_target(path: Seq<char>, save_mod: bool, kind: SaveType) -> (
    Seq<char>,
    bool,
) {
    match kind {
        SaveType::Timed => if !save_mod {
            (path + ".0"@, true)
        } else {
            (path + ".1"@, false)
        },
        SaveType::Full => (path, save_mod),
    }
}

/// The loading of a core, step by step.
pub struct Loader {
    info: CoreInfo,
    game: String,
    save_path: Option<String>,
    phase: Phase,
    av: Option<RetroSystemAvInfo>,
}

/// The state of a loading.
pub struct LoaderView {
    pub info: CoreInfoView,
    pub game: Seq<char>,
    pub save_path: Option<Seq<char>>,
    pub phase: Phase,
    pub av: Option<RetroSystemAvInfo>,
}

impl View for Loader {
    type V = LoaderView;

    closed spec fn view(&self) -> LoaderView {
        LoaderView {
            info: self.info@,
            game: self.game@,
            save_path: match self.save_path {
                Some(p) => Some(p@),
                None => None,
            },
            phase: self.phase,
            av: self.av,
        }
    }
}

impl LoaderView {
    /// The state after a reply.
    pub open spec fn after(self, reply: Reply) -> LoaderView {
        LoaderView {
            phase: next_phase(self.phase, self.save_path is Some, reply),
            av: match (self.phase, reply) {
                (Phase::Av, Reply::Av(info)) => Some(info),
                _ => self.av,
            },
            ..self
        }
    }

    /// The audio rate of the core, zero while it is not known.
    pub open spec fn rate(self) -> i32 {
        match self.av {
            Some(a) => a.timing.sample_rate,
            None => 0,
        }
    }
}

/// The directory of system files under the root. A path that cannot be
/// handed to a core is an error of strings.
pub fn sys_dir(root_dir: &PString) -> (r: Result<PString, GamepieError>)
    ensures
        r is Ok <==> !joined(root_dir@, "sys"@).contains('\0'),
        r matches Ok(d) ==> d@ == joined(root_dir@, "sys"@),
        r matches Err(e) ==> e == GamepieError::String,
{
    let p = path_join(root_dir.to_str(), "sys");
    match PString::from_str(p.as_str()) {
        Ok(d) => Ok(d),
        Err(_) => Err(GamepieError::String),
    }
}

impl Loader {
    /// Prepares the loading of a game into a core.
    pub fn new(info: CoreInfo, game: &str, root_dir: &PString) -> (r: Self)
        ensures
            r@.info == info@,
            r@.game == game@,
            r@.phase == Phase::Unloaded,
            r@.av is None,
            r@.save_path == save_path_of(root_dir@, game@),
    {
        let save_path = Core::save(root_dir.to_str(), game);
        Loader { info, game: String::from_str(game), save_path, phase: Phase::Unloaded, av: None }
    }

    pub fn info(&self) -> (i: &CoreInfo)
        ensures
            i@ == self@.info,
    {
        &self.info
    }

    /// The game as it is handed to the core.
    pub fn game_info(&self) -> (g: RetroGameInfo)
        ensures
            g@ == self@.game,
    {
        RetroGameInfo::new(self.game.as_str())
    }

    pub fn save_path(&self) -> (p: Option<&str>)
        ensures
            match p {
                Some(s) => self@.save_path == Some(s@),
                None => self@.save_path is None,
            },
    {
        match &self.save_path {
            Some(s) => Some(s.as_str()),
            None => None,
        }
    }

    pub fn phase(&self) -> (p: Phase)
        ensures
            p == self@.phase,
    {
        self.phase
    }

    /// Geometry and timing of the core, once it has reported them.
    pub fn av(&self) -> (a: Option<RetroSystemAvInfo>)
        ensures
            a == self@.av,
    {
        self.av
    }

    /// Takes what came of the last step, and says which step is next.
    /// The first call takes `Done` and asks for the library.
    pub fn advance(&mut self, reply: Reply) -> (r: Request)
        ensures
            final(self)@ == old(self)@.after(reply),
            r@ == demand(final(self)@.phase, reply_data(reply), final(self)@.rate()),
    {
        let has_path = self.save_path.is_some();
        let mut kept: Vec<u8> = Vec::new();
        let next = match (self.phase, reply) {
            (Phase::Unloaded, Reply::Done) => Phase::Library,
            (Phase::Library, Reply::Done) => Phase::Callbacks,
            (Phase::Callbacks, Reply::Done) => Phase::Init,
            (Phase::Init, Reply::Done) => Phase::Game,
            (Phase::Game, Reply::Loaded(true)) => if has_path {
                Phase::SaveSize
            } else {
                Phase::Controller
            },
            (Phase::Game, Reply::Loaded(false)) => Phase::Failed(GamepieError::GameLoadError),
            (Phase::SaveSize, Reply::Size(n)) => if n != 0 {
                Phase::SaveRead(n)
            } else {
                Phase::Controller
            },
            (Phase::SaveRead(n), Reply::File(Some(data))) => if data.len() == n {
                kept = data;
                Phase::SaveCopy
            } else {
                Phase::Failed(GamepieError::MismatchSave)
            },
            (Phase::SaveRead(_), Reply::File(None)) => Phase::Controller,
            (Phase::SaveCopy, Reply::Done) => Phase::Controller,
            (Phase::Controller, Reply::Done) => Phase::Av,
            (Phase::Av, Reply::Av(info)) => {
                self.av = Some(info);
                Phase::Audio
            },
            (Phase::Audio, Reply::Done) => Phase::Running,
            (Phase::Audio, Reply::Failed) => Phase::Failed(GamepieError::NoAudio),
            (Phase::Running, _) => Phase::Failed(GamepieError::System),
            (Phase::Failed(e), _) => Phase::Failed(e),
            (_, Reply::Failed) => Phase::Failed(GamepieError::GameLoadError),
            _ => Phase::Failed(GamepieError::System),
        };
        self.phase = next;
        match next {
            Phase::Unloaded => Request::Abort(GamepieError::System),
            Phase::Library => Request::LoadLibrary,
            Phase::Callbacks => Request::InstallCallbacks,
            Phase::Init => Request::Init,
            Phase::Game => Request::LoadGame,
            Phase::SaveSize => Request::SaveSize,
            Phase::SaveRead(_) => Request::ReadSave,
            Phase::SaveCopy => Request::CopySave(kept),
            Phase::Controller => Request::SetController,
            Phase::Av => Request::QueryAv,
            Phase::Audio => Request::StartAudio(
                match self.av {
                    Some(a) => a.timing.sample_rate,
                    None => 0,
                },
            ),
            Phase::Running => Request::Ready,
            Phase::Failed(e) => Request::Abort(e),
        }
    }

    /// The loaded core, once every step is done. `now` is the time on a
    /// clock that never goes back, in nanoseconds.
    pub fn finish(self, now: u64) -> (r: Result<Core, GamepieError>)
        ensures
            r is Ok <==> self@.phase == Phase::Running && self@.av is Some,
            r matches Ok(c) ==> c@ == (CoreView {
                info: self@.info,
                av: self@.av->0,
                frame_count: 0,
                frame_time: self@.av->0.timing.frame_time,
                save_path: self@.save_path,
                save_time: now,
                save_mod: false,
            }),
            r matches Err(e) ==> e == match self@.phase {
                Phase::Failed(f) => f,
                _ => GamepieError::System,
            },
    {
        match (self.phase, self.av) {
            (Phase::Running, Some(av)) => Ok(
                Core {
                    info: self.info,
                    av,
                    frame_count: 0,
                    frame_time: av.timing.frame_time,
                    save_path: self.save_path,
                    save_time: now,
                    save_mod: false,
                },
            ),
            (Phase::Failed(e), _) => Err(e),
            _ => Err(GamepieError::System),
        }
    }
}

/// A loaded core.
pub struct Core {
    info: CoreInfo,
    av: RetroSystemAvInfo,
    frame_count: u64,
    frame_time: u64,
    save_path: Option<String>,
    save_time: u64,
    save_mod: bool,
}

/// The state of a loaded core: what it is, its geometry and timing, the
/// frames it ran, the length of a frame in nanoseconds, the place of its
/// save, the time of the last periodic save, and the alternator that
/// picks the file of the next one.
pub struct CoreView {
    pub info: CoreInfoView,
    pub av: RetroSystemAvInfo,
    pub frame_count: u64,
    pub frame_time: u64,
    pub save_path: Option<Seq<char>>,
    pub save_time: u64,
    pub save_mod: bool,
}

impl View for Core {
    type V = CoreView;

    closed spec fn view(&self) -> CoreView {
        CoreView {
            info: self.info@,
            av: self.av,
            frame_count: self.frame_count,
            frame_time: self.frame_time,
            save_path: match self.save_path {
                Some(p) => Some(p@),
                None => None,
            },
            save_time: self.save_time,
            save_mod: self.save_mod,
        }
    }
}

impl CoreView {
    /// Whether a periodic save is due at the time `now`.
    pub open spec fn save_due(self, now: u64) -> bool {
        now - self.save_time > SAVE_INTERVAL
    }

    /// The state after a save of the given kind was decided on.
    pub open spec fn saved(self, kind: SaveType) -> CoreView {
        match self.save_path {
            Some(p) => CoreView { save_mod: save_target(p, self.save_mod, kind).1, ..self },
            None => self,
        }
    }

    /// The file that a save of the given kind writes, if the game has a
    /// place for its save.
    pub open spec fn save_file(self, kind: SaveType) -> Option<Seq<char>> {
        match self.save_path {
            Some(p) => Some(save_target(p, self.save_mod, kind).0),
            None => None,
        }
    }

    /// The state after a frame that ended at the time `now`.
    pub open spec fn ticked(self, now: u64) -> CoreView {
        let counted = CoreView { frame_count: (self.frame_count + 1) as u64, ..self };
        if self.save_due(now) {
            CoreView { save_time: now, ..counted.saved(SaveType::Timed) }
        } else {
            counted
        }
    }
}

/// The steps that end a core, in their order.
pub enum Teardown {
    /// Write the save memory to this file.
    Save(String),
    UnloadGame,
    Deinit,
    StopAudio,
}

impl Core {
    /// The place of the save of a game, see `save_path_of`.
    pub fn save(root_dir: &str, game: &str) -> (r: Option<String>)
        ensures
            match r {
                Some(p) => save_path_of(root_dir@, game@) == Some(p@),
                None => save_path_of(root_dir@, game@) is None,
            },
    {
        match path_file_name(game) {
            Some(f) => {
                let save_file = f.concat(".").concat("sav");
                let dir = path_join(root_dir, "saves");
                Some(path_join(dir.as_str(), save_file.as_str()))
            },
            None => None,
        }
    }

    pub fn info(&self) -> (i: &CoreInfo)
        ensures
            i@ == self@.info,
    {
        &self.info
    }

    pub fn av(&self) -> (a: RetroSystemAvInfo)
        ensures
            a == self@.av,
    {
        self.av
    }

    pub fn frame_count(&self) -> (n: u64)
        ensures
            n == self@.frame_count,
    {
        self.frame_count
    }

    /// The length of a frame, in nanoseconds.
    pub fn frame_time(&self) -> (t: u64)
        ensures
            t == self@.frame_time,
    {
        self.frame_time
    }

    /// Counts a frame that the core has run and that ended at the time
    /// `now`, and returns the file to save to where a periodic save is
    /// due: more than the save interval after the last one.
    pub fn tick(&mut self, now: u64) -> (r: Option<String>)
        requires
            old(self)@.frame_count < u64::MAX,
        ensures
            final(self)@ == old(self)@.ticked(now),
            match r {
                Some(p) => old(self)@.save_due(now) && old(self)@.save_file(SaveType::Timed)
                    == Some(p@),
                None => !old(self)@.save_due(now) || old(self)@.save_path is None,
            },
    {
        self.frame_count += 1;

        if now > self.save_time && now - self.save_time > SAVE_INTERVAL {
            let r = self.do_save(SaveType::Timed);
            self.save_time = now;
            r
        } else {
            None
        }
    }

    /// Decides on a save of the given kind, and returns the file to write
    /// if the game has a place for its save.
    pub fn do_save(&mut self, kind: SaveType) -> (r: Option<String>)
        ensures
            final(self)@ == old(self)@.saved(kind),
            match r {
                Some(p) => old(self)@.save_file(kind) == Some(p@),
                None => old(self)@.save_file(kind) is None,
            },
    {
        match &self.save_path {
            Some(save) => {
                let save = save.clone();
                let target = match kind {
                    SaveType::Timed => {
                        let flipped = !self.save_mod;
                        self.save_mod = flipped;
                        if flipped {
                            save.concat(".0")
                        } else {
                            save.concat(".1")
                        }
                    },
                    SaveType::Full => save,
                };
                Some(target)
            },
            None => None,
        }
    }

    /// Whether the save memory is to be written, given its size or that
    /// the size could not be had: an empty or unknown save memory is not
    /// written.
    pub fn has_save_memory(size: Option<usize>) -> (r: bool)
        ensures
            r == (size matches Some(n) && n != 0),
    {
        match size {
            Some(n) => n != 0,
            None => false,
        }
    }

    /// Ends the core, and returns the steps of its end in their order: the
    /// final save where the game has a place for its save, then the
    /// unloading of the game and of the core, then the end of the audio.
    pub fn teardown(self) -> (r: Vec<Teardown>)
        ensures
            match self@.save_path {
                Some(p) => r@.len() == 4 && (r@[0] matches Teardown::Save(s) && s@ == p)
                    && r@[1] is UnloadGame && r@[2] is Deinit && r@[3] is StopAudio,
                None => r@.len() == 3 && r@[0] is UnloadGame && r@[1] is Deinit
                    && r@[2] is StopAudio,
            },
    {
        let mut core = self;
        let mut steps: Vec<Teardown> = Vec::new();
        match core.do_save(SaveType::Full) {
            Some(p) => {
                steps.push(Teardown::Save(p));
            },
            None => {},
        }
        steps.push(Teardown::UnloadGame);
        steps.push(Teardown::Deinit);
        steps.push(Teardown::StopAudio);
        steps
    }
}

/// Two periodic saves in a row write different files, the place of the
/// save with `.0` and with `.1` added, and leave the alternator as it
/// was. The final save writes the place of the save itself, whatever the
/// alternator says, and does not touch it.
pub proof fn law_alternating_save(path: Seq<char>, save_mod: bool)
    ensures
        ({
            let first = save_target(path, save_mod, SaveType::Timed);
            let second = save_target(path, first.1, SaveType::Timed);
            &&& first.0 == path + ".0"@ || first.0 == path + ".1"@
            &&& second.0 == path + ".0"@ || second.0 == path + ".1"@
            &&& first.0 != second.0
            &&& first.1 != save_mod
            &&& second.1 == save_mod
        }),
        save_target(path, save_mod, SaveType::Full) == (path, save_mod),
        save_target(path, !save_mod, SaveType::Full).0 == path,
{
    reveal_strlit(".0");
    reveal_strlit(".1");
    let a = path + ".0"@;
    let b = path + ".1"@;
    assert(a[path.len() as int + 1] == '0');
    assert(b[path.len() as int + 1] == '1');
}

/// Where every step goes well, the steps come in this order: the library,
/// the callbacks, the initialisation, the game, then the save where the
/// game has a place for one and the core a save memory, then the joypad,
/// geometry and timing, and the audio, after which the core runs.
pub proof fn law_load_order(size: usize, data: Vec<u8>, av: RetroSystemAvInfo)
    requires
        size != 0,
        data@.len() == size,
    ensures
        next_phase(Phase::Unloaded, true, Reply::Done) == Phase::Library,
        next_phase(Phase::Library, true, Reply::Done) == Phase::Callbacks,
        next_phase(Phase::Callbacks, true, Reply::Done) == Phase::Init,
        next_phase(Phase::Init, true, Reply::Done) == Phase::Game,
        next_phase(Phase::Game, true, Reply::Loaded(true)) == Phase::SaveSize,
        next_phase(Phase::Game, false, Reply::Loaded(true)) == Phase::Controller,
        next_phase(Phase::SaveSize, true, Reply::Size(size)) == Phase::SaveRead(size),
        next_phase(Phase::SaveSize, true, Reply::Size(0)) == Phase::Controller,
        next_phase(Phase::SaveRead(size), true, Reply::File(Some(data))) == Phase::SaveCopy,
        next_phase(Phase::SaveRead(size), true, Reply::File(None)) == Phase::Controller,
        next_phase(Phase::SaveCopy, true, Reply::Done) == Phase::Controller,
        next_phase(Phase::Controller, true, Reply::Done) == Phase::Av,
        next_phase(Phase::Av, true, Reply::Av(av)) == Phase::Audio,
        next_phase(Phase::Audio, true, Reply::Done) == Phase::Running,
{
}

/// Once the loading has failed it stays failed, with the error it failed
/// with, whatever comes after.
pub proof fn law_failure_stays(e: GamepieError, has_path: bool, reply: Reply)
    ensures
        next_phase(Phase::Failed(e), has_path, reply) == Phase::Failed(e),
{
}

/// A save file whose length is not the size of the save memory fails the
/// loading with the error of a mismatched save, and no copy is asked for;
/// one of the right length is copied whole.
pub proof fn law_save_mismatch(state: LoaderView, size: usize, data: Vec<u8>)
    requires
        state.phase == Phase::SaveRead(size),
    ensures
        ({
            let reply = Reply::File(Some(data));
            let after = state.after(reply);
            let request = demand(after.phase, reply_data(reply), after.rate());
            if data@.len() == size {
                request == RequestView::CopySave(data@)
            } else {
                &&& after.phase == Phase::Failed(GamepieError::MismatchSave)
                &&& request == RequestView::Abort(GamepieError::MismatchSave)
            }
        }),
{
}

} // verus!

//! What a core reports of itself, and what is known of a core that was
//! found on disk.

use crate::portable::split_on;
use crate::portable::str_eq;
use crate::portable::str_split;
use crate::portable::str_views;
use vstd::prelude::*;
use vstd::string::*;

verus! {

/// What a core reports of itself.
#[derive(Debug)]
pub struct RetroSystemInfo {
    pub library_name: String,
    pub library_version: String,
    pub valid_extensions: String,
    pub need_fullpath: bool,
    pub block_extract: bool,
}

/// What a core reports of itself, as plain text.
pub struct RetroSystemInfoView {
    pub library_name: Seq<char>,
    pub library_version: Seq<char>,
    pub valid_extensions: Seq<char>,
    pub need_fullpath: bool,
    pub block_extract: bool,
}

impl View for RetroSystemInfo {
    type V = RetroSystemInfoView;

    open spec fn view(&self) -> RetroSystemInfoView {
        RetroSystemInfoView {
            library_name: self.library_name@,
            library_version: self.library_version@,
            valid_extensions: self.valid_extensions@,
            need_fullpath: self.need_fullpath,
            block_extract: self.block_extract,
        }
    }
}

impl Clone for RetroSystemInfo {
    fn clone(&self) -> (r: Self)
        ensures
            r@ == self@,
    {
        RetroSystemInfo {
            library_name: self.library_name.clone(),
            library_version: self.library_version.clone(),
            valid_extensions: self.valid_extensions.clone(),
            need_fullpath: self.need_fullpath,
            block_extract: self.block_extract,
        }
    }
}

/// The texts of a list of strings.
pub open spec fn string_views(v: Seq<String>) -> Seq<Seq<char>> {
    Seq::new(v.len(), |i: int| v[i]@)
}

/// The parts written one after another with `sep` between them.
pub open spec fn join(parts: Seq<Seq<char>>, sep: Seq<char>) -> Seq<char>
    decreases parts.len(),
{
    if parts.len() == 0 {
        Seq::empty()
    } else if parts.len() == 1 {
        parts[0]
    } else {
        join(parts.drop_last(), sep) + sep + parts.last()
    }
}

/// Copies a list of strings.
pub fn clone_strings(v: &Vec<String>) -> (r: Vec<String>)
    ensures
        string_views(r@) == string_views(v@),
{
    let mut out: Vec<String> = Vec::new();
    let mut i: usize = 0;
    while i < v.len()
        invariant
            i <= v@.len(),
            string_views(out@) == string_views(v@).subrange(0, i as int),
        decreases v@.len() - i,
    {
        let ghost before = string_views(out@);
        let s = v[i].clone();
        out.push(s);
        assert(string_views(out@) =~= before.push(v@[i as int]@));
        assert(string_views(out@) =~= string_views(v@).subrange(0, i + 1));
        i += 1;
    }
    assert(string_views(v@).subrange(0, i as int) =~= string_views(v@));
    out
}

/// A core found on disk.
pub struct CoreInfo {
    path: String,
    sys_info: RetroSystemInfo,
    extensions: Vec<String>,
}

/// What is known of a core: where it lies, what it reports of itself, and
/// the file extensions that it takes.
pub struct CoreInfoView {
    pub path: Seq<char>,
    pub sys_info: RetroSystemInfoView,
    pub extensions: Seq<Seq<char>>,
}

impl CoreInfoView {
    /// Whether the core takes files with the extension `ext`.
    pub open spec fn supports(self, ext: Seq<char>) -> bool {
        self.extensions.contains(ext)
    }
}

impl View for CoreInfo {
    type V = CoreInfoView;

    closed spec fn view(&self) -> CoreInfoView {
        CoreInfoView {
            path: self.path@,
            sys_info: self.sys_info@,
            extensions: string_views(self.extensions@),
        }
    }
}

impl Clone for CoreInfo {
    fn clone(&self) -> (r: Self)
        ensures
            r@ == self@,
    {
        CoreInfo {
            path: self.path.clone(),
            sys_info: self.sys_info.clone(),
            extensions: clone_strings(&self.extensions),
        }
    }
}

impl CoreInfo {
    /// Records a core that lies at `path`. The extensions it takes are the
    /// pieces of its `|`-separated list.
    pub fn new(path: String, sys_info: RetroSystemInfo) -> (r: Self)
        ensures
            r@.path == path@,
            r@.sys_info == sys_info@,
            r@.extensions == split_on(sys_info@.valid_extensions, '|'),
    {
        let pieces = str_split(sys_info.valid_extensions.as_str(), '|');
        let mut extensions: Vec<String> = Vec::new();
        let mut i: usize = 0;
        while i < pieces.len()
            invariant
                i <= pieces@.len(),
                string_views(extensions@) == str_views(pieces@).subrange(0, i as int),
            decreases pieces@.len() - i,
        {
            let ghost before = string_views(extensions@);
            let s = String::from_str(pieces[i]);
            extensions.push(s);
            assert(string_views(extensions@) =~= before.push(pieces@[i as int]@));
            assert(string_views(extensions@) =~= str_views(pieces@).subrange(0, i + 1));
            i += 1;
        }
        assert(str_views(pieces@).subrange(0, i as int) =~= str_views(pieces@));
        CoreInfo { path, sys_info, extensions }
    }

    /// The extensions that the core takes, separated by `", "`.
    pub fn extensions_str(&self) -> (s: String)
        ensures
            s@ == join(self@.extensions, ", "@),
    {
        let mut out = String::new();
        let mut i: usize = 0;
        while i < self.extensions.len()
            invariant
                i <= self.extensions@.len(),
                out@ == join(string_views(self.extensions@).subrange(0, i as int), ", "@),
            decreases self.extensions@.len() - i,
        {
            let ghost parts = string_views(self.extensions@).subrange(0, i + 1);
            assert(parts.drop_last() == string_views(self.extensions@).subrange(0, i as int));
            assert(parts.last() == self.extensions@[i as int]@);
            if i > 0 {
                out.append(", ");
            } else {
                assert(out@ =~= Seq::empty());
            }
            out.append(self.extensions[i].as_str());
            assert(out@ =~= join(parts, ", "@));
            i += 1;
        }
        assert(string_views(self.extensions@).subrange(0, i as int) =~= string_views(
            self.extensions@,
        ));
        out
    }

    /// Whether the core takes files with the extension `ext`.
    pub fn supports(&self, ext: &str) -> (r: bool)
        ensures
            r == self@.supports(ext@),
    {
        let mut i: usize = 0;
        while i < self.extensions.len()
            invariant
                i <= self.extensions@.len(),
                forall|j: int| 0 <= j < i ==> string_views(self.extensions@)[j] != ext@,
            decreases self.extensions@.len() - i,
        {
            if str_eq(self.extensions[i].as_str(), ext) {
                assert(string_views(self.extensions@)[i as int] == ext@);
                return true;
            }
            i += 1;
        }
        false
    }

    pub fn name(&self) -> (s: String)
        ensures
            s@ == self@.sys_info.library_name,
    {
        self.sys_info.library_name.clone()
    }

    pub fn path(&self) -> (s: &str)
        ensures
            s@ == self@.path,
    {
        self.path.as_str()
    }

    pub fn sys_info(&self) -> (i: &RetroSystemInfo)
        ensures
            i@ == self@.sys_info,
    {
        &self.sys_info
    }
}

/// The picture that a core produces: its size as it starts, and the
/// largest size it may take later.
#[derive(Clone, Copy, Debug, PartialEq, Eq, Structural)]
pub struct RetroGameGeometry {
    pub base_width: u32,
    pub base_height: u32,
    pub max_width: u32,
    pub max_height: u32,
}

/// The pace of a core: how long one frame lasts, in nanoseconds, and how
/// many audio samples it produces per second.
#[derive(Clone, Copy, Debug, PartialEq, Eq, Structural)]
pub struct RetroSystemTiming {
    pub frame_time: u64,
    pub sample_rate: i32,
}

/// Geometry and timing, as a core reports them once a game is loaded.
#[derive(Clone, Copy, Debug, PartialEq, Eq, Structural)]
pub struct RetroSystemAvInfo {
    pub geometry: RetroGameGeometry,
    pub timing: RetroSystemTiming,
}

/// The game to hand to a core.
pub struct RetroGameInfo {
    path: String,
}

impl View for RetroGameInfo {
    type V = Seq<char>;

    closed spec fn view(&self) -> Seq<char> {
        self.path@
    }
}

impl RetroGameInfo {
    pub fn new(path: &str) -> (r: Self)
        ensures
            r@ == path@,
    {
        RetroGameInfo { path: String::from_str(path) }
    }

    /// Where the game lies.
    pub fn path(&self) -> (p: &str)
        ensures
            p@ == self@,
    {
        self.path.as_str()
    }
}

} // verus!

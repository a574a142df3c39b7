//! Where the frontend keeps its files, and the parts of a path that it
//! reads.

use std::path::Path;
use vstd::prelude::*;

verus! {

pub const EMU_PATH: &'static str = "emulators";

pub const ROM_PATH: &'static str = "roms";

pub const SAVE_PATH: &'static str = "saves";

pub const SYS_PATH: &'static str = "sys";

pub const METADATA_EXT: &'static str = "toml";

pub const SAVEDATA_EXT: &'static str = "sav";

/// The extension of the file that a path names, as `Path::extension`
/// reads it; `None` where the path names no file or the file has none.
pub uninterp spec fn extension_of(path: Seq<char>) -> Option<Seq<char>>;

/// The last component of a path, as `Path::file_name` reads it; `None`
/// where the path ends in `..` or is a root.
pub uninterp spec fn file_name_of(path: Seq<char>) -> Option<Seq<char>>;

/// The path adjoined to a base, as `Path::join` builds it.
pub uninterp spec fn joined(base: Seq<char>, part: Seq<char>) -> Seq<char>;

/// The text of an optional string.
pub open spec fn opt_text(s: Option<String>) -> Option<Seq<char>> {
    match s {
        Some(t) => Some(t@),
        None => None,
    }
}

/// `Path::extension` on a path given as text. The result depends on the
/// text alone.
#[verifier::external_body]
pub(crate) fn path_extension(path: &str) -> (r: Option<String>)
    ensures
        opt_text(r) == extension_of(path@),
{
    match Path::new(path).extension() {
        Some(e) => e.to_str().map(String::from),
        None => None,
    }
}

/// `Path::file_name` on a path given as text. The result depends on the
/// text alone.
#[verifier::external_body]
pub(crate) fn path_file_name(path: &str) -> (r: Option<String>)
    ensures
        opt_text(r) == file_name_of(path@),
{
    match Path::new(path).file_name() {
        Some(f) => f.to_str().map(String::from),
        None => None,
    }
}

/// `Path::join` on paths given as text, with the result as text again.
/// The result depends on the two texts alone.
#[verifier::external_body]
pub(crate) fn path_join(base: &str, part: &str) -> (r: String)
    ensures
        r@ == joined(base@, part@),
{
    Path::new(base).join(part).to_string_lossy().into_owned()
}

} // verus!

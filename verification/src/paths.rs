//! Where things are under the game directory, and what file names say of themselves.
//!
//! A path is a sequence of components: the first is the directory it starts from, the
//! others are joined onto it one by one.
use vstd::prelude::*;

use crate::error::Error;
use crate::text::{chars_of, concat, str_eq, string_of_range};

verus! {

/// The operating systems the game ships binaries for.
#[derive(Clone, Copy, Debug, PartialEq, Eq)]
pub enum TargetOs {
    Windows,
    Linux,
    Macos,
}

/// What a directory listing tells of one entry: its name, its full path, whether it is
/// a regular file, its size and its modification time (seconds and nanoseconds since
/// the epoch) where they could be read.
#[derive(Clone, Debug)]
pub struct DirEntryInfo {
    pub name: String,
    pub path: String,
    pub is_file: bool,
    pub size: Option<u64>,
    pub modified: Option<(i64, u32)>,
}

/// The components of the game's add-ons directory below the game directory.
pub open spec fn addons_components() -> Seq<Seq<char>> {
    seq!["game"@, "citadel"@, "addons"@]
}

/// The add-ons directory, or a profile's folder inside it.
pub open spec fn addons_path_spec(game_path: Seq<char>, profile_folder: Option<Seq<char>>) -> Seq<
    Seq<char>,
> {
    match profile_folder {
        Some(p) => seq![game_path] + addons_components() + seq![p],
        None => seq![game_path] + addons_components(),
    }
}

/// The name of the directory that holds the game's binaries on `os`.
pub open spec fn bin_dir_name(os: TargetOs) -> Seq<char> {
    match os {
        TargetOs::Windows => "win64"@,
        TargetOs::Linux => "linuxsteamrt64"@,
        TargetOs::Macos => "osx64"@,
    }
}

/// Views of path components.
pub open spec fn component_views(v: Seq<String>) -> Seq<Seq<char>> {
    v.map_values(|x: String| x@)
}

/// The game path, or the error that it is not set.
pub fn require_game_path(game_path: Option<String>) -> (r: Result<String, Error>)
    ensures
        match game_path {
            Some(p) => r == Ok::<String, Error>(p),
            None => r == Err::<String, Error>(Error::GamePathNotSet),
        },
{
    match game_path {
        Some(p) => Ok(p),
        None => Err(Error::GamePathNotSet),
    }
}

/// The add-ons directory of the game at `game_path`, or the folder `profile_folder`
/// inside it.
pub fn addons_path(game_path: &str, profile_folder: Option<&str>) -> (r: Vec<String>)
    ensures
        component_views(r@) == addons_path_spec(
            game_path@,
            match profile_folder {
                Some(p) => Some(p@),
                None => None,
            },
        ),
{
    let mut r: Vec<String> = Vec::new();
    r.push(game_path.to_owned());
    r.push("game".to_owned());
    r.push("citadel".to_owned());
    r.push("addons".to_owned());
    match profile_folder {
        Some(p) => {
            r.push(p.to_owned());
        },
        None => {},
    }
    assert(component_views(r@) =~= addons_path_spec(
        game_path@,
        match profile_folder {
            Some(p) => Some(p@),
            None => None,
        },
    ));
    r
}

/// The directory where the game writes its crash dumps: its binaries directory.
pub fn get_crash_dumps_dir(game_path: Option<String>, os: TargetOs) -> (r: Result<Vec<String>, Error>)
    ensures
        match game_path {
            Some(g) => r matches Ok(v) && component_views(v@) == seq![
                g@,
                "game"@,
                "bin"@,
                bin_dir_name(os),
            ],
            None => r == Err::<Vec<String>, Error>(Error::GamePathNotSet),
        },
{
    let g = match game_path {
        Some(g) => g,
        None => {
            return Err(Error::GamePathNotSet);
        },
    };
    let mut r: Vec<String> = Vec::new();
    r.push(g);
    r.push("game".to_owned());
    r.push("bin".to_owned());
    let bin = match os {
        TargetOs::Windows => "win64",
        TargetOs::Linux => "linuxsteamrt64",
        TargetOs::Macos => "osx64",
    };
    r.push(bin.to_owned());
    assert(component_views(r@) =~= seq![r@[0]@, "game"@, "bin"@, bin_dir_name(os)]);
    Ok(r)
}

/// The position of the last `c` in `s`, or -1.
pub open spec fn last_index_of(s: Seq<char>, c: char) -> int
    decreases s.len(),
{
    if s.len() == 0 {
        -1
    } else if s.last() == c {
        s.len() - 1
    } else {
        last_index_of(s.drop_last(), c)
    }
}

/// The extension of a file name as `Path::extension` gives it: what follows the last
/// dot, unless there is no dot, the only dot leads the name, or the name is `..`.
pub open spec fn extension_of(name: Seq<char>) -> Option<Seq<char>> {
    let i = last_index_of(name, '.');
    if name == ".."@ || i <= 0 {
        None
    } else {
        Some(name.subrange(i + 1, name.len() as int))
    }
}

/// The stem of a file name as `Path::file_stem` gives it: what precedes the last dot,
/// or the whole name when there is no dot, the only dot leads it, or it is `..`.
pub open spec fn stem_of(name: Seq<char>) -> Seq<char> {
    let i = last_index_of(name, '.');
    if name == ".."@ || i <= 0 {
        name
    } else {
        name.subrange(0, i)
    }
}

pub proof fn lemma_last_index_bounds(s: Seq<char>, c: char)
    ensures
        -1 <= last_index_of(s, c) < s.len(),
        last_index_of(s, c) >= 0 ==> s[last_index_of(s, c)] == c,
        forall|k: int| last_index_of(s, c) < k < s.len() ==> s[k] != c,
    decreases s.len(),
{
    if s.len() > 0 && s.last() != c {
        let t = s.drop_last();
        lemma_last_index_bounds(t, c);
        assert forall|k: int| last_index_of(s, c) < k < s.len() implies s[k] != c by {
            if k < s.len() - 1 {
                assert(t[k] == s[k]);
            }
        }
    }
}

/// The position of the last `c` in `cs`, if any.
fn find_last(cs: &Vec<char>, c: char) -> (r: Option<usize>)
    ensures
        match r {
            Some(i) => i as int == last_index_of(cs@, c),
            None => last_index_of(cs@, c) == -1,
        },
{
    let mut i: usize = cs.len();
    assert(cs@.take(cs@.len() as int) =~= cs@);
    while i > 0
        invariant
            i <= cs@.len(),
            last_index_of(cs@, c) == last_index_of(cs@.take(i as int), c),
        decreases i,
    {
        assert(cs@.take(i as int).drop_last() =~= cs@.take(i - 1));
        if cs[i - 1] == c {
            return Some(i - 1);
        }
        i = i - 1;
    }
    None
}

/// The extension of a file name (see [`extension_of`]).
pub fn file_extension(name: &str) -> (r: Option<String>)
    ensures
        match r {
            Some(e) => extension_of(name@) == Some(e@),
            None => extension_of(name@) is None,
        },
{
    let cs = chars_of(name);
    assert(cs@.take(cs@.len() as int) =~= cs@);
    proof {
        lemma_last_index_bounds(cs@, '.');
    }
    if str_eq(name, "..") {
        return None;
    }
    match find_last(&cs, '.') {
        Some(i) => {
            if i == 0 {
                None
            } else {
                Some(string_of_range(&cs, i + 1, cs.len()))
            }
        },
        None => None,
    }
}

/// The stem of a file name (see [`stem_of`]).
pub fn file_stem(name: &str) -> (r: String)
    ensures
        r@ == stem_of(name@),
{
    let cs = chars_of(name);
    assert(cs@.take(cs@.len() as int) =~= cs@);
    proof {
        lemma_last_index_bounds(cs@, '.');
    }
    if str_eq(name, "..") {
        return name.to_owned();
    }
    match find_last(&cs, '.') {
        Some(i) => {
            if i == 0 {
                name.to_owned()
            } else {
                string_of_range(&cs, 0, i)
            }
        },
        None => name.to_owned(),
    }
}

/// Whether a file name's extension is `vpk` (the test `Path::extension() == Some("vpk")`).
pub fn has_vpk_extension(name: &str) -> (r: bool)
    ensures
        r == (extension_of(name@) == Some("vpk"@)),
{
    match file_extension(name) {
        Some(e) => str_eq(e.as_str(), "vpk"),
        None => false,
    }
}

/// The name of the text file that holds the parsed form of a crash dump.
pub fn parsed_dump_file_name(dump_name: &str) -> (r: String)
    ensures
        r@ == stem_of(dump_name@) + ".txt"@,
{
    let stem = file_stem(dump_name);
    concat(stem.as_str(), ".txt")
}

/// Where the vanilla `gameinfo.gi` is served from by the API at `api_url`.
pub fn vanilla_gameinfo_url(api_url: &str) -> (r: String)
    ensures
        r@ == api_url@ + "/artifacts/deadlock/gameinfo.gi"@,
{
    concat(api_url, "/artifacts/deadlock/gameinfo.gi")
}

/// `base` with one more component.
pub fn child_path(base: &Vec<String>, name: &str) -> (r: Vec<String>)
    ensures
        component_views(r@) == component_views(base@).push(name@),
{
    let mut r: Vec<String> = Vec::new();
    let mut i: usize = 0;
    while i < base.len()
        invariant
            i <= base@.len(),
            component_views(r@) == component_views(base@).take(i as int),
        decreases base@.len() - i,
    {
        r.push(base[i].clone());
        assert(component_views(base@).take(i + 1) =~= component_views(base@).take(i as int).push(
            base@[i as int]@,
        ));
        assert(component_views(r@) =~= component_views(base@).take(i + 1));
        i = i + 1;
    }
    assert(component_views(base@).take(base@.len() as int) =~= component_views(base@));
    r.push(name.to_owned());
    assert(component_views(r@) =~= component_views(base@).push(name@));
    r
}

/// Where a mod's download goes: `mods/<mod id>` in the application's data directory.
pub fn mod_target_dir(local_data_dir: &str, mod_id: &str) -> (r: Vec<String>)
    ensures
        component_views(r@) == seq![local_data_dir@, "mods"@, mod_id@],
{
    let mut r: Vec<String> = Vec::new();
    r.push(local_data_dir.to_owned());
    r.push("mods".to_owned());
    r.push(mod_id.to_owned());
    assert(component_views(r@) =~= seq![local_data_dir@, "mods"@, mod_id@]);
    r
}

} // verus!

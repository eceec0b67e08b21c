//! Finding the folder of the game among the places where it is usually
//! installed.

use vstd::prelude::*;
use vstd::string::*;

verus! {

/// Whether `i` is the first place at which `flags` holds true.
pub open spec fn is_first_true(flags: Seq<bool>, i: int) -> bool {
    0 <= i < flags.len() && flags[i] && forall|j: int| 0 <= j < i ==> !flags[j]
}

/// Whether `i` is the last place at which `flags` holds true.
pub open spec fn is_last_true(flags: Seq<bool>, i: int) -> bool {
    0 <= i < flags.len() && flags[i] && forall|j: int| i < j < flags.len() ==> !flags[j]
}

/// Whether `flags` holds true nowhere.
pub open spec fn none_true(flags: Seq<bool>) -> bool {
    forall|j: int| 0 <= j < flags.len() ==> !flags[j]
}

/// The first of the candidates that exists: `exists[i]` is whether
/// candidate `i` was found on disk.
pub fn first_present(exists: &Vec<bool>) -> (r: Option<usize>)
    ensures
        match r {
            Some(i) => is_first_true(exists@, i as int),
            None => none_true(exists@),
        },
{
    let mut i: usize = 0;
    while i < exists.len()
        invariant
            i <= exists.len(),
            forall|j: int| 0 <= j < i ==> !exists@[j],
        decreases exists.len() - i,
    {
        if exists[i] {
            return Some(i);
        }
        i = i + 1;
    }
    None
}

/// The last of the candidates that exists. Among the drives of a system
/// the last one that exists is searched.
pub fn last_present(exists: &Vec<bool>) -> (r: Option<usize>)
    ensures
        match r {
            Some(i) => is_last_true(exists@, i as int),
            None => none_true(exists@),
        },
{
    let mut i: usize = exists.len();
    while i > 0
        invariant
            i <= exists.len(),
            forall|j: int| i <= j < exists.len() ==> !exists@[j],
        decreases i,
    {
        if exists[i - 1] {
            return Some(i - 1);
        }
        i = i - 1;
    }
    None
}

/// The places where the game is usually installed, below the folder of the
/// applications or the root of a drive, in the order in which they are
/// tried.
pub open spec fn install_places() -> Seq<Seq<char>> {
    seq![
        "Program Files/Steam/steamapps/common/Hollow Knight"@,
        "Program Files (x86)/Steam/steamapps/common/Hollow Knight"@,
        "Program Files/GOG Galaxy/Games/Hollow Knight"@,
        "Program Files (x86)/GOG Galaxy/Games/Hollow Knight"@,
        "Steam/steamapps/common/Hollow Knight"@,
        "GOG Galaxy/Games/Hollow Knight"@,
    ]
}

/// The places of the folder of the assemblies below the folder of the game,
/// one for each way in which the game is shipped, in the order in which they
/// are tried.
pub open spec fn managed_places() -> Seq<Seq<char>> {
    seq![
        "Hollow Knight_Data/Managed"@,
        "hollow_knight_Data/Managed"@,
        "Contents/Resources/Data/Managed"@,
    ]
}

/// The places where the game is usually installed.
pub fn static_paths() -> (r: Vec<String>)
    ensures
        r.deep_view() == install_places(),
{
    let mut v: Vec<String> = Vec::new();
    v.push("Program Files/Steam/steamapps/common/Hollow Knight".to_owned());
    v.push("Program Files (x86)/Steam/steamapps/common/Hollow Knight".to_owned());
    v.push("Program Files/GOG Galaxy/Games/Hollow Knight".to_owned());
    v.push("Program Files (x86)/GOG Galaxy/Games/Hollow Knight".to_owned());
    v.push("Steam/steamapps/common/Hollow Knight".to_owned());
    v.push("GOG Galaxy/Games/Hollow Knight".to_owned());
    assert(v.deep_view() =~= install_places());
    v
}

/// The places of the folder of the assemblies below the folder of the game.
pub fn suffixes() -> (r: Vec<String>)
    ensures
        r.deep_view() == managed_places(),
{
    let mut v: Vec<String> = Vec::new();
    v.push("Hollow Knight_Data/Managed".to_owned());
    v.push("hollow_knight_Data/Managed".to_owned());
    v.push("Contents/Resources/Data/Managed".to_owned());
    assert(v.deep_view() =~= managed_places());
    v
}

/// A path below a folder: the folder, a slash, the path.
pub open spec fn below(base: Seq<char>, path: Seq<char>) -> Seq<char> {
    base + "/"@ + path
}

/// The mods root of a game that lies in `game_dir` and keeps its assemblies
/// at `suffix` below it: the folder `Mods` among the assemblies.
pub open spec fn mods_root_of(game_dir: Seq<char>, suffix: Seq<char>) -> Seq<char> {
    game_dir + "/"@ + suffix + "/Mods"@
}

/// A path below a folder.
pub fn join(base: &str, path: &str) -> (r: String)
    ensures
        r@ == below(base@, path@),
{
    let mut p = base.to_owned();
    p.append("/");
    p.append(path);
    p
}

/// The mods root of a game that lies in `game_dir` and keeps its assemblies
/// at `suffix` below it.
pub fn mods_root(game_dir: &str, suffix: &str) -> (r: String)
    ensures
        r@ == mods_root_of(game_dir@, suffix@),
{
    let mut p = game_dir.to_owned();
    p.append("/");
    p.append(suffix);
    p.append("/Mods");
    p
}

} // verus!

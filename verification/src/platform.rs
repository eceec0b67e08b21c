//! What differs from one operating system to the next: where the modding
//! API is downloaded from, and where the game keeps its saves.

use crate::text::same_text;
use vstd::prelude::*;
use vstd::string::*;

verus! {

/// The operating systems that the game runs on.
#[derive(Clone, Copy, Debug, PartialEq, Eq, Structural)]
pub enum Platform {
    Linux,
    Mac,
    Windows,
}

/// The system that goes by the name: `linux`, `mac` or `windows`; none for
/// any other name.
pub open spec fn platform_named(os: Seq<char>) -> Option<Platform> {
    if os == "linux"@ {
        Some(Platform::Linux)
    } else if os == "mac"@ {
        Some(Platform::Mac)
    } else if os == "windows"@ {
        Some(Platform::Windows)
    } else {
        None
    }
}

/// The address from which the modding API is downloaded for a system.
pub open spec fn api_url_of(p: Platform) -> Seq<char> {
    match p {
        Platform::Linux =>
            "https://github.com/hk-modding/api/releases/latest/download/ModdingApiLinux.zip"@,
        Platform::Mac =>
            "https://github.com/hk-modding/api/releases/latest/download/ModdingApiMac.zip"@,
        Platform::Windows =>
            "https://github.com/hk-modding/api/releases/latest/download/ModdingApiWin.zip"@,
    }
}

/// The folder in which the game keeps its saves and the settings of the
/// mods. `config_dir` and `data_dir` are the folders that the system gives
/// to applications for their configuration and for their data.
pub open spec fn saves_dir_of(p: Platform, config_dir: Seq<char>, data_dir: Seq<char>) -> Seq<
    char,
> {
    match p {
        Platform::Linux => config_dir + "/unity3d/Team Cherry/Hollow Knight"@,
        Platform::Mac => data_dir + "/unity.Team Cherry.Hollow Knight"@,
        Platform::Windows => data_dir + "/../LocalLow/Team Cherry/Hollow Knight"@,
    }
}

/// The file of a save slot: `user`, the number of the slot and `.dat`, in
/// the folder of the saves. `slot` is the number in decimal.
pub open spec fn save_file_of(saves_dir: Seq<char>, slot: Seq<char>) -> Seq<char> {
    saves_dir + "/user"@ + slot + ".dat"@
}

impl Platform {
    /// The system that goes by the name.
    pub fn named(os: &str) -> (r: Option<Platform>)
        ensures
            r == platform_named(os@),
    {
        if same_text(os, "linux") {
            Some(Platform::Linux)
        } else if same_text(os, "mac") {
            Some(Platform::Mac)
        } else if same_text(os, "windows") {
            Some(Platform::Windows)
        } else {
            None
        }
    }

    /// The address from which the modding API is downloaded.
    pub fn api_url(&self) -> (r: &'static str)
        ensures
            r@ == api_url_of(*self),
    {
        match self {
            Platform::Linux =>
                "https://github.com/hk-modding/api/releases/latest/download/ModdingApiLinux.zip",
            Platform::Mac =>
                "https://github.com/hk-modding/api/releases/latest/download/ModdingApiMac.zip",
            Platform::Windows =>
                "https://github.com/hk-modding/api/releases/latest/download/ModdingApiWin.zip",
        }
    }

    /// The folder in which the game keeps its saves.
    pub fn saves_dir(&self, config_dir: &str, data_dir: &str) -> (r: String)
        ensures
            r@ == saves_dir_of(*self, config_dir@, data_dir@),
    {
        match self {
            Platform::Linux => {
                let mut p = config_dir.to_owned();
                p.append("/unity3d/Team Cherry/Hollow Knight");
                p
            },
            Platform::Mac => {
                let mut p = data_dir.to_owned();
                p.append("/unity.Team Cherry.Hollow Knight");
                p
            },
            Platform::Windows => {
                let mut p = data_dir.to_owned();
                p.append("/../LocalLow/Team Cherry/Hollow Knight");
                p
            },
        }
    }
}

/// The file of a save slot.
pub fn save_file(saves_dir: &str, slot: &str) -> (r: String)
    ensures
        r@ == save_file_of(saves_dir@, slot@),
{
    let mut p = saves_dir.to_owned();
    p.append("/user");
    p.append(slot);
    p.append(".dat");
    p
}

} // verus!

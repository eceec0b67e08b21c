//! Reading a mod's state off the two places where its folder may lie.

use vstd::prelude::*;
use vstd::string::*;

verus! {

/// The folder of a mod that is enabled: the mods root, a slash, the name.
pub open spec fn mod_dir_of(root: Seq<char>, name: Seq<char>) -> Seq<char> {
    root + "/"@ + name
}

/// The folder that holds the disabled mods: `Disabled` under the mods root.
pub open spec fn disabled_dir_of(root: Seq<char>) -> Seq<char> {
    root + "/Disabled"@
}

/// The folder of a mod that is disabled: its name under the `Disabled`
/// folder.
pub open spec fn disabled_mod_dir_of(root: Seq<char>, name: Seq<char>) -> Seq<char> {
    root + "/Disabled/"@ + name
}

/// The folder of a mod that is enabled.
pub fn mod_dir(root: &str, name: &str) -> (r: String)
    ensures
        r@ == mod_dir_of(root@, name@),
{
    let mut p = root.to_owned();
    p.append("/");
    p.append(name);
    p
}

/// The folder that holds the disabled mods.
pub fn disabled_dir(root: &str) -> (r: String)
    ensures
        r@ == disabled_dir_of(root@),
{
    let mut p = root.to_owned();
    p.append("/Disabled");
    p
}

/// The folder of a mod that is disabled.
pub fn disabled_mod_dir(root: &str, name: &str) -> (r: String)
    ensures
        r@ == disabled_mod_dir_of(root@, name@),
{
    let mut p = root.to_owned();
    p.append("/Disabled/");
    p.append(name);
    p
}

/// What one look at the disk shows for one mod name: whether a folder of that
/// name lies directly under the mods root, and whether one lies under the
/// `Disabled` folder of the mods root.
#[derive(Clone, Copy, Debug, PartialEq, Eq, Structural)]
pub struct Presence {
    pub in_mods: bool,
    pub in_disabled: bool,
}

impl Presence {
    /// What the disk shows when the two places were looked at: `in_mods` is
    /// whether the folder of the mod exists under the mods root,
    /// `in_disabled` whether it exists under `Disabled`. Where the `Disabled`
    /// folder itself is missing, nothing exists under it.
    pub fn new(in_mods: bool, in_disabled: bool) -> (r: Presence)
        ensures
            r == (Presence { in_mods, in_disabled }),
    {
        Presence { in_mods, in_disabled }
    }

    /// Neither folder exists.
    pub fn absent() -> (r: Presence)
        ensures
            r == (Presence { in_mods: false, in_disabled: false }),
    {
        Presence { in_mods: false, in_disabled: false }
    }

    /// A mod counts as installed when its folder lies in either place.
    pub open spec fn installed(self) -> bool {
        self.in_mods || self.in_disabled
    }

    /// A mod counts as enabled when its folder lies under the mods root and
    /// no folder of that name lies under `Disabled`.
    pub open spec fn enabled(self) -> bool {
        self.in_mods && !self.in_disabled
    }

    /// Whether the mod is installed: its folder lies in either place.
    pub fn is_installed(&self) -> (r: bool)
        ensures
            r == self.installed(),
    {
        self.in_mods || self.in_disabled
    }

    /// Whether the mod is enabled: its folder lies under the mods root and
    /// not under `Disabled`.
    pub fn is_enabled(&self) -> (r: bool)
        ensures
            r == self.enabled(),
    {
        self.in_mods && !self.in_disabled
    }
}

} // verus!

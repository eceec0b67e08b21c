//! Switching the modding API on and off, and bringing its files into place.
//! The API replaces one assembly of the game; the assembly that is not in
//! use is kept beside it as a backup.

use crate::lifecycle::{action_views, Action, ActionView};
use crate::text::same_text;
use vstd::prelude::*;
use vstd::string::*;

verus! {

/// The folder that holds the assemblies of the game: the parent of the
/// mods root.
pub open spec fn managed_dir_of(root: Seq<char>) -> Seq<char> {
    root + "/.."@
}

/// The assembly that the game loads.
pub open spec fn assembly_of(root: Seq<char>) -> Seq<char> {
    managed_dir_of(root) + "/Assembly-CSharp.dll"@
}

/// The backup of the assembly of the game as it was shipped.
pub open spec fn vanilla_backup_of(root: Seq<char>) -> Seq<char> {
    managed_dir_of(root) + "/Assembly-CSharp.dll.vanilla"@
}

/// The backup of the assembly of the modding API.
pub open spec fn modded_backup_of(root: Seq<char>) -> Seq<char> {
    managed_dir_of(root) + "/Assembly-CSharp.dll.modded"@
}

/// The folder that holds the assemblies of the game.
pub fn managed_dir(root: &str) -> (r: String)
    ensures
        r@ == managed_dir_of(root@),
{
    let mut p = root.to_owned();
    p.append("/..");
    p
}

/// The assembly that the game loads.
pub fn assembly(root: &str) -> (r: String)
    ensures
        r@ == assembly_of(root@),
{
    let mut p = managed_dir(root);
    p.append("/Assembly-CSharp.dll");
    p
}

/// The backup of the assembly of the game as it was shipped.
pub fn vanilla_backup(root: &str) -> (r: String)
    ensures
        r@ == vanilla_backup_of(root@),
{
    let mut p = managed_dir(root);
    p.append("/Assembly-CSharp.dll.vanilla");
    p
}

/// The backup of the assembly of the modding API.
pub fn modded_backup(root: &str) -> (r: String)
    ensures
        r@ == modded_backup_of(root@),
{
    let mut p = managed_dir(root);
    p.append("/Assembly-CSharp.dll.modded");
    p
}

/// Whether the API counts as installed: the assembly of the game lies in
/// its backup, and the assembly of the API does not.
pub fn check_api_installed(vanilla_exists: bool, modded_exists: bool) -> (r: bool)
    ensures
        r == (vanilla_exists && !modded_exists),
{
    vanilla_exists && !modded_exists
}

/// What a toggle of the API comes to.
#[derive(Clone, Copy, Debug, PartialEq, Eq, Structural)]
pub enum ApiToggle {
    /// The API is in use and is switched off.
    SwitchOff,
    /// The API lies in its backup and is switched on.
    SwitchOn,
    /// There is no backup at all: the API has to be downloaded.
    Install,
}

/// What a toggle of the API comes to, given which backups exist. With the
/// backup of the game alone, the API is in use and is switched off; with
/// the backup of the API alone, it is switched on; with neither, it is
/// downloaded. With both there is no telling which assembly is in use.
pub open spec fn toggle_of(vanilla_exists: bool, modded_exists: bool) -> Option<ApiToggle> {
    if vanilla_exists && modded_exists {
        None
    } else if vanilla_exists {
        Some(ApiToggle::SwitchOff)
    } else if modded_exists {
        Some(ApiToggle::SwitchOn)
    } else {
        Some(ApiToggle::Install)
    }
}

/// What a toggle of the API comes to, given which backups exist; none where
/// both exist.
pub fn toggle_api(vanilla_exists: bool, modded_exists: bool) -> (r: Option<ApiToggle>)
    ensures
        r == toggle_of(vanilla_exists, modded_exists),
{
    if vanilla_exists && modded_exists {
        None
    } else if vanilla_exists {
        Some(ApiToggle::SwitchOff)
    } else if modded_exists {
        Some(ApiToggle::SwitchOn)
    } else {
        Some(ApiToggle::Install)
    }
}

/// The renames that a toggle takes. To switch the API off, the assembly in
/// use goes to the backup of the API, and the backup of the game takes its
/// place; to switch it on, the other way round. A download renames nothing.
pub open spec fn toggle_plan(root: Seq<char>, toggle: ApiToggle) -> Seq<ActionView> {
    match toggle {
        ApiToggle::SwitchOff => seq![
            ActionView::Rename { from: assembly_of(root), to: modded_backup_of(root) },
            ActionView::Rename { from: vanilla_backup_of(root), to: assembly_of(root) },
        ],
        ApiToggle::SwitchOn => seq![
            ActionView::Rename { from: assembly_of(root), to: vanilla_backup_of(root) },
            ActionView::Rename { from: modded_backup_of(root), to: assembly_of(root) },
        ],
        ApiToggle::Install => Seq::empty(),
    }
}

impl ApiToggle {
    /// Whether the API is in use once the toggle was carried out.
    pub fn api_enabled(&self) -> (r: bool)
        ensures
            r == (*self != ApiToggle::SwitchOff),
    {
        match self {
            ApiToggle::SwitchOff => false,
            _ => true,
        }
    }

    /// The renames that the toggle takes, in their order.
    pub fn plan(&self, root: &str) -> (r: Vec<Action>)
        ensures
            action_views(r@) == toggle_plan(root@, *self),
    {
        let mut plan: Vec<Action> = Vec::new();
        match self {
            ApiToggle::SwitchOff => {
                plan.push(Action::Rename { from: assembly(root), to: modded_backup(root) });
                plan.push(Action::Rename { from: vanilla_backup(root), to: assembly(root) });
            },
            ApiToggle::SwitchOn => {
                plan.push(Action::Rename { from: assembly(root), to: vanilla_backup(root) });
                plan.push(Action::Rename { from: modded_backup(root), to: assembly(root) });
            },
            ApiToggle::Install => {},
        }
        assert(action_views(plan@) =~= toggle_plan(root@, *self));
        plan
    }
}

/// What is done with one file of the API that was unpacked to the folder
/// `temp`. Where the game has no file of that name, the new file is moved
/// in. Where it has one with another digest, the new file takes its place;
/// if the file is the assembly of the game, the old one is kept as the
/// backup of the game first. Where it has one with the same digest,
/// nothing is done.
pub open spec fn api_file_plan(
    root: Seq<char>,
    temp: Seq<char>,
    file: Seq<char>,
    local_exists: bool,
    same_digest: bool,
) -> Seq<ActionView> {
    let from = temp + "/"@ + file;
    let to = managed_dir_of(root) + "/"@ + file;
    if !local_exists {
        seq![ActionView::Rename { from, to }]
    } else if same_digest {
        Seq::empty()
    } else if file == "Assembly-CSharp.dll"@ {
        seq![
            ActionView::Rename { from: to, to: vanilla_backup_of(root) },
            ActionView::Rename { from, to },
        ]
    } else {
        seq![ActionView::Rename { from, to }]
    }
}

/// What is done with one file of the API that was unpacked to the folder
/// `temp`. `local_exists` is whether the game has a file of that name,
/// `same_digest` whether the two files have the same digest.
pub fn plan_api_file(root: &str, temp: &str, file: &str, local_exists: bool, same_digest: bool) -> (r:
    Vec<Action>)
    ensures
        action_views(r@) == api_file_plan(root@, temp@, file@, local_exists, same_digest),
{
    let mut plan: Vec<Action> = Vec::new();
    if !local_exists || !same_digest {
        let mut from = temp.to_owned();
        from.append("/");
        from.append(file);
        let mut to = managed_dir(root);
        to.append("/");
        to.append(file);
        if local_exists && same_text(file, "Assembly-CSharp.dll") {
            plan.push(Action::Rename { from: to.clone(), to: vanilla_backup(root) });
        }
        plan.push(Action::Rename { from, to });
    }
    assert(action_views(plan@) =~= api_file_plan(root@, temp@, file@, local_exists, same_digest));
    plan
}

} // verus!

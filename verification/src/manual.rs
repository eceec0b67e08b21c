//! Mods that were put in place by hand: installing one from a file, telling
//! which folders hold one, and finding what a mod brought along.

use crate::catalog::has_record;
use crate::inspect::{mod_dir, mod_dir_of};
use crate::lifecycle::{action_views, Action, ActionView};
use crate::mod_links::local::{
    LocalModLinks, LocalModManifest, ManifestView, ModDependencies, ModLink, ModLinkView, ModTags,
};
use crate::text::{
    file_extension, file_extension_of, file_stem, file_stem_of, same_but_for_case, same_text,
    same_text_ignoring_case,
};
use vstd::prelude::*;
use vstd::string::*;

verus! {

/// The record of a mod that was installed by hand: nothing is known of it
/// but its name.
pub open spec fn manual_record(name: Seq<char>) -> ManifestView {
    ManifestView {
        name,
        description: "No description available."@,
        version: "Unknown"@,
        link: ModLinkView { sha256: Seq::empty(), link: Seq::empty() },
        dependencies: Seq::empty(),
        repository: Seq::empty(),
        tags: Some(Seq::empty()),
        enabled: true,
        installed: true,
    }
}

impl LocalModManifest {
    /// The record of a mod that was installed by hand.
    pub fn manual(name: &str) -> (r: LocalModManifest)
        ensures
            r@ == manual_record(name@),
    {
        let r = LocalModManifest {
            name: name.to_owned(),
            description: "No description available.".to_owned(),
            version: "Unknown".to_owned(),
            link: ModLink { sha256: String::new(), link: String::new() },
            dependencies: ModDependencies { dependencies: Vec::new() },
            repository: String::new(),
            tags: Some(ModTags { tags: Vec::new() }),
            enabled: true,
            installed: true,
        };
        assert(r@.dependencies =~= Seq::<Seq<char>>::empty());
        assert(r@.tags->0 =~= Seq::<Seq<char>>::empty());
        r
    }
}

/// The name under which a file is installed as a mod: its name without the
/// extension.
pub open spec fn manual_name_of(file_name: Seq<char>) -> Seq<char> {
    file_stem_of(file_name)
}

/// What it takes to install the file at `source`, named `file_name`, as a
/// mod: a folder for the mod is created; a library is copied into it under
/// the name of the mod, an archive is unpacked into it. A file without an
/// extension cannot be installed.
pub open spec fn manual_plan(root: Seq<char>, source: Seq<char>, file_name: Seq<char>) -> Option<
    Seq<ActionView>,
> {
    match file_extension_of(file_name) {
        None => None,
        Some(ext) => {
            let name = manual_name_of(file_name);
            let dir = mod_dir_of(root, name);
            let first = ActionView::CreateModDir { path: dir };
            if ext == "dll"@ {
                Some(
                    seq![
                        first,
                        ActionView::CopyFile { from: source, to: dir + "/"@ + name + ".dll"@ },
                    ],
                )
            } else if ext == "zip"@ {
                Some(seq![first, ActionView::Extract { archive: source, into: dir }])
            } else {
                Some(seq![first])
            }
        },
    }
}

/// The installation of a mod from a file: the name of the mod, and what is
/// to be done on disk.
#[derive(Debug, PartialEq)]
pub struct ManualInstall {
    pub name: String,
    pub actions: Vec<Action>,
}

/// What it takes to install the file at `source`, named `file_name`, as a
/// mod; none for a file without an extension.
pub fn plan_manual_install(root: &str, source: &str, file_name: &str) -> (r: Option<
    ManualInstall,
>)
    ensures
        match r {
            Some(m) => m.name@ == manual_name_of(file_name@) && manual_plan(
                root@,
                source@,
                file_name@,
            ) == Some(action_views(m.actions@)),
            None => manual_plan(root@, source@, file_name@) is None,
        },
{
    match file_extension(file_name) {
        None => None,
        Some(ext) => {
            let name = file_stem(file_name);
            let dir = mod_dir(root, name.as_str());
            let mut actions: Vec<Action> = Vec::new();
            actions.push(Action::CreateModDir { path: dir.clone() });
            if same_text(ext.as_str(), "dll") {
                let mut to = dir;
                to.append("/");
                to.append(name.as_str());
                to.append(".dll");
                actions.push(Action::CopyFile { from: source.to_owned(), to });
            } else if same_text(ext.as_str(), "zip") {
                actions.push(Action::Extract { archive: source.to_owned(), into: dir });
            }
            assert(action_views(actions@) =~= manual_plan(root@, source@, file_name@)->0);
            Some(ManualInstall { name, actions })
        },
    }
}

/// Whether one of the file names has the extension `dll`.
pub open spec fn holds_library(files: Seq<Seq<char>>) -> bool {
    exists|i: int| 0 <= i < files.len() && file_extension_of(#[trigger] files[i]) == Some("dll"@)
}

/// Whether one of the file names has the extension `dll`.
pub fn has_library(files: &Vec<String>) -> (r: bool)
    ensures
        r == holds_library(files.deep_view()),
{
    let mut i: usize = 0;
    while i < files.len()
        invariant
            i <= files.len(),
            forall|j: int|
                0 <= j < i ==> file_extension_of(#[trigger] files.deep_view()[j]) != Some("dll"@),
        decreases files.len() - i,
    {
        assert(files.deep_view()[i as int] == files@[i as int]@);
        match file_extension(files[i].as_str()) {
            Some(e) => {
                if same_text(e.as_str(), "dll") {
                    return true;
                }
            },
            None => {},
        }
        i = i + 1;
    }
    false
}

/// A folder that was found under the mods root or under `Disabled`: its
/// name, the names of the files in it, and whether it lies under
/// `Disabled`.
#[derive(Debug, PartialEq)]
pub struct FolderListing {
    pub name: String,
    pub files: Vec<String>,
    pub disabled: bool,
}

/// A `FolderListing` as a value of the contracts.
pub struct FolderListingView {
    pub name: Seq<char>,
    pub files: Seq<Seq<char>>,
    pub disabled: bool,
}

impl View for FolderListing {
    type V = FolderListingView;

    open spec fn view(&self) -> FolderListingView {
        FolderListingView {
            name: self.name@,
            files: self.files.deep_view(),
            disabled: self.disabled,
        }
    }
}

/// A mod that was installed by hand and is not in the catalog.
#[derive(Debug, PartialEq)]
pub struct ManualMod {
    pub name: String,
    pub enabled: bool,
}

/// A `ManualMod` as a value of the contracts.
pub struct ManualModView {
    pub name: Seq<char>,
    pub enabled: bool,
}

impl View for ManualMod {
    type V = ManualModView;

    open spec fn view(&self) -> ManualModView {
        ManualModView { name: self.name@, enabled: self.enabled }
    }
}

/// A list of folders as values of the contracts.
pub open spec fn listing_views(folders: Seq<FolderListing>) -> Seq<FolderListingView> {
    Seq::new(folders.len(), |i: int| folders[i]@)
}

/// A list of mods that were installed by hand, as values of the contracts.
pub open spec fn manual_views(mods: Seq<ManualMod>) -> Seq<ManualModView> {
    Seq::new(mods.len(), |i: int| mods[i]@)
}

/// Whether a folder holds a mod that was installed by hand: its name has no
/// extension, the catalog has no record of that name, and it holds a
/// library.
pub open spec fn is_manual_mod(cat: Seq<ManifestView>, folder: FolderListingView) -> bool {
    file_extension_of(folder.name) is None && !has_record(cat, folder.name) && holds_library(
        folder.files,
    )
}

/// The mods that were installed by hand, among the folders, in their order.
/// A mod is enabled when its folder does not lie under `Disabled`.
pub open spec fn manual_mods_of(cat: Seq<ManifestView>, folders: Seq<FolderListingView>) -> Seq<
    ManualModView,
>
    decreases folders.len(),
{
    if folders.len() == 0 {
        Seq::empty()
    } else {
        let rest = manual_mods_of(cat, folders.drop_last());
        let f = folders.last();
        if is_manual_mod(cat, f) {
            rest.push(ManualModView { name: f.name, enabled: !f.disabled })
        } else {
            rest
        }
    }
}

impl LocalModLinks {
    /// The mods that were installed by hand and are not in the catalog,
    /// among the folders that were found on disk.
    pub fn fetch_manually_installed_mods(&self, folders: &Vec<FolderListing>) -> (r: Vec<
        ManualMod,
    >)
        ensures
            manual_views(r@) == manual_mods_of(self@, listing_views(folders@)),
    {
        let ghost all = listing_views(folders@);
        let mut out: Vec<ManualMod> = Vec::new();
        let mut i: usize = 0;
        assert(manual_views(out@) =~= manual_mods_of(self@, all.take(0)));
        while i < folders.len()
            invariant
                i <= folders.len(),
                all == listing_views(folders@),
                manual_views(out@) == manual_mods_of(self@, all.take(i as int)),
            decreases folders.len() - i,
        {
            let ghost before = manual_views(out@);
            assert(all.take(i + 1).drop_last() =~= all.take(i as int));
            assert(all.take(i + 1).last() == folders@[i as int]@);
            let f = &folders[i];
            let plain = file_extension(f.name.as_str()).is_none();
            if plain && !self.contains(f.name.as_str()) && has_library(&f.files) {
                out.push(ManualMod { name: f.name.clone(), enabled: !f.disabled });
                assert(manual_views(out@) =~= before.push(
                    ManualModView { name: f@.name, enabled: !f@.disabled },
                ));
            }
            i = i + 1;
        }
        assert(all.take(folders.len() as int) =~= all);
        out
    }
}

/// Whether a file name is that of a read-me: `readme`, in any case of its
/// letters, with the extension `txt` or `md`.
pub open spec fn is_readme_name(file_name: Seq<char>) -> bool {
    &&& file_extension_of(file_name) matches Some(ext)
    &&& (ext == "txt"@ || ext == "md"@)
    &&& same_but_for_case(file_stem_of(file_name), "readme"@)
}

/// Whether a file name is that of a read-me.
pub fn is_readme(file_name: &str) -> (r: bool)
    ensures
        r == is_readme_name(file_name@),
{
    match file_extension(file_name) {
        None => false,
        Some(ext) => {
            let stem = file_stem(file_name);
            (same_text(ext.as_str(), "txt") || same_text(ext.as_str(), "md"))
                && same_text_ignoring_case(stem.as_str(), "readme")
        },
    }
}

/// The place of the first read-me among the file names, if there is one.
pub fn find_readme(files: &Vec<String>) -> (r: Option<usize>)
    ensures
        match r {
            Some(i) => i < files@.len() && is_readme_name(files@[i as int]@) && forall|j: int|
                0 <= j < i ==> !is_readme_name(#[trigger] files@[j]@),
            None => forall|j: int| 0 <= j < files@.len() ==> !is_readme_name(#[trigger] files@[j]@),
        },
{
    let mut i: usize = 0;
    while i < files.len()
        invariant
            i <= files.len(),
            forall|j: int| 0 <= j < i ==> !is_readme_name(#[trigger] files@[j]@),
        decreases files.len() - i,
    {
        if is_readme(files[i].as_str()) {
            return Some(i);
        }
        i = i + 1;
    }
    None
}

/// The name of the file in which the game keeps the global settings of a
/// mod, given a file of the mod: for a library, its name without the
/// extension and `.GlobalSettings.json` behind it; for any other file,
/// none.
pub open spec fn global_settings_of(file_name: Seq<char>) -> Option<Seq<char>> {
    if file_extension_of(file_name) == Some("dll"@) {
        Some(file_stem_of(file_name) + ".GlobalSettings.json"@)
    } else {
        None
    }
}

/// The name of the file in which the game keeps the global settings of a
/// mod, given a file of the mod.
pub fn global_settings_name(file_name: &str) -> (r: Option<String>)
    ensures
        match r {
            Some(n) => global_settings_of(file_name@) == Some(n@),
            None => global_settings_of(file_name@) is None,
        },
{
    match file_extension(file_name) {
        None => None,
        Some(ext) => {
            if same_text(ext.as_str(), "dll") {
                let mut n = file_stem(file_name);
                n.append(".GlobalSettings.json");
                Some(n)
            } else {
                None
            }
        },
    }
}

} // verus!

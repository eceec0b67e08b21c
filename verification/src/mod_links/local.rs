//! The catalog that the settings keep: one record for each mod, with the two
//! flags that say whether it is installed and whether it is enabled.

use crate::text::copy_texts;
use vstd::prelude::*;

verus! {

/// The names of the mods that a mod needs, in the order in which they were
/// listed.
#[derive(Debug, PartialEq)]
pub struct ModDependencies {
    pub dependencies: Vec<String>,
}

impl View for ModDependencies {
    type V = Seq<Seq<char>>;

    open spec fn view(&self) -> Seq<Seq<char>> {
        self.dependencies.deep_view()
    }
}

impl Clone for ModDependencies {
    fn clone(&self) -> (r: Self)
        ensures
            r@ == self@,
    {
        ModDependencies { dependencies: copy_texts(&self.dependencies) }
    }
}

/// Where a mod is downloaded from, and the SHA-256 digest of what is found
/// there, in hexadecimal; an empty digest means that none is known.
#[derive(Debug, PartialEq)]
pub struct ModLink {
    pub sha256: String,
    pub link: String,
}

/// A `ModLink` as a value of the contracts.
pub struct ModLinkView {
    pub sha256: Seq<char>,
    pub link: Seq<char>,
}

impl View for ModLink {
    type V = ModLinkView;

    open spec fn view(&self) -> ModLinkView {
        ModLinkView { sha256: self.sha256@, link: self.link@ }
    }
}

impl Clone for ModLink {
    fn clone(&self) -> (r: Self)
        ensures
            r@ == self@,
    {
        ModLink { sha256: self.sha256.clone(), link: self.link.clone() }
    }
}

/// The tags of a mod, in the order in which they were listed.
#[derive(Debug, PartialEq)]
pub struct ModTags {
    pub tags: Vec<String>,
}

impl View for ModTags {
    type V = Seq<Seq<char>>;

    open spec fn view(&self) -> Seq<Seq<char>> {
        self.tags.deep_view()
    }
}

impl Clone for ModTags {
    fn clone(&self) -> (r: Self)
        ensures
            r@ == self@,
    {
        ModTags { tags: copy_texts(&self.tags) }
    }
}

/// One record of a catalog as a value of the contracts. A record of the
/// remote list and a record of the settings have the same fields, so one
/// type stands for both.
pub struct ManifestView {
    pub name: Seq<char>,
    pub description: Seq<char>,
    pub version: Seq<char>,
    pub link: ModLinkView,
    pub dependencies: Seq<Seq<char>>,
    pub repository: Seq<char>,
    pub tags: Option<Seq<Seq<char>>>,
    pub enabled: bool,
    pub installed: bool,
}

/// The tags of a record as a value of the contracts.
pub open spec fn tags_view(tags: Option<ModTags>) -> Option<Seq<Seq<char>>> {
    match tags {
        Some(t) => Some(t@),
        None => None,
    }
}

/// A copy of the optional tags of a record.
pub fn copy_tags(tags: &Option<ModTags>) -> (r: Option<ModTags>)
    ensures
        tags_view(r) == tags_view(*tags),
{
    match tags {
        Some(t) => Some(t.clone()),
        None => None,
    }
}

/// The record that the settings keep of one mod.
#[derive(Debug, PartialEq)]
pub struct LocalModManifest {
    pub name: String,
    pub description: String,
    pub version: String,
    pub link: ModLink,
    pub dependencies: ModDependencies,
    pub repository: String,
    pub tags: Option<ModTags>,
    pub enabled: bool,
    pub installed: bool,
}

impl View for LocalModManifest {
    type V = ManifestView;

    open spec fn view(&self) -> ManifestView {
        ManifestView {
            name: self.name@,
            description: self.description@,
            version: self.version@,
            link: self.link@,
            dependencies: self.dependencies@,
            repository: self.repository@,
            tags: tags_view(self.tags),
            enabled: self.enabled,
            installed: self.installed,
        }
    }
}

impl Clone for LocalModManifest {
    fn clone(&self) -> (r: Self)
        ensures
            r@ == self@,
    {
        LocalModManifest {
            name: self.name.clone(),
            description: self.description.clone(),
            version: self.version.clone(),
            link: self.link.clone(),
            dependencies: self.dependencies.clone(),
            repository: self.repository.clone(),
            tags: copy_tags(&self.tags),
            enabled: self.enabled,
            installed: self.installed,
        }
    }
}

/// The records of a list of manifests as values of the contracts.
pub open spec fn records(manifests: Seq<LocalModManifest>) -> Seq<ManifestView> {
    Seq::new(manifests.len(), |i: int| manifests[i]@)
}

/// A copy of a list of records, record for record.
pub fn copy_records(v: &Vec<LocalModManifest>) -> (r: Vec<LocalModManifest>)
    ensures
        records(r@) == records(v@),
{
    let mut r: Vec<LocalModManifest> = Vec::new();
    let mut i: usize = 0;
    while i < v.len()
        invariant
            i <= v.len(),
            r@.len() == i,
            forall|j: int| 0 <= j < i ==> r@[j]@ == v@[j]@,
        decreases v.len() - i,
    {
        r.push(v[i].clone());
        i = i + 1;
    }
    assert(records(r@) =~= records(v@));
    r
}

/// The catalog that the settings keep.
#[derive(Debug, PartialEq)]
pub struct LocalModLinks {
    pub manifests: Vec<LocalModManifest>,
}

impl View for LocalModLinks {
    type V = Seq<ManifestView>;

    open spec fn view(&self) -> Seq<ManifestView> {
        records(self.manifests@)
    }
}

impl Clone for LocalModLinks {
    fn clone(&self) -> (r: Self)
        ensures
            r@ == self@,
    {
        LocalModLinks { manifests: copy_records(&self.manifests) }
    }
}

impl Default for LocalModLinks {
    /// A catalog without records.
    fn default() -> (r: Self)
        ensures
            r@ == Seq::<ManifestView>::empty(),
    {
        let r = LocalModLinks { manifests: Vec::new() };
        assert(r@ =~= Seq::<ManifestView>::empty());
        r
    }
}

} // verus!

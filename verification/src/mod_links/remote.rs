//! The catalog as the remote list gives it.

use crate::mod_links::local::{
    copy_tags, tags_view, LocalModManifest, ManifestView, ModDependencies, ModLink, ModTags,
};
use vstd::prelude::*;

verus! {

/// One record of the remote list. The two flags are not part of the list:
/// they start out false and are set from what the disk shows.
#[derive(Debug, PartialEq)]
pub struct RemoteModManifest {
    pub name: String,
    pub description: String,
    pub version: String,
    pub link: ModLink,
    pub dependencies: ModDependencies,
    pub repository: String,
    pub tags: Option<ModTags>,
    pub enabled: bool,
    pub installed: bool,
}

impl View for RemoteModManifest {
    type V = ManifestView;

    open spec fn view(&self) -> ManifestView {
        ManifestView {
            name: self.name@,
            description: self.description@,
            version: self.version@,
            link: self.link@,
            dependencies: self.dependencies@,
            repository: self.repository@,
            tags: tags_view(self.tags),
            enabled: self.enabled,
            installed: self.installed,
        }
    }
}

impl Clone for RemoteModManifest {
    fn clone(&self) -> (r: Self)
        ensures
            r@ == self@,
    {
        RemoteModManifest {
            name: self.name.clone(),
            description: self.description.clone(),
            version: self.version.clone(),
            link: self.link.clone(),
            dependencies: self.dependencies.clone(),
            repository: self.repository.clone(),
            tags: copy_tags(&self.tags),
            enabled: self.enabled,
            installed: self.installed,
        }
    }
}

impl RemoteModManifest {
    /// The record that the settings keep of this mod: the same fields, with
    /// the two flags as given.
    pub fn to_local(&self, installed: bool, enabled: bool) -> (r: LocalModManifest)
        ensures
            r@ == (ManifestView { installed, enabled, ..self@ }),
    {
        LocalModManifest {
            name: self.name.clone(),
            description: self.description.clone(),
            version: self.version.clone(),
            link: self.link.clone(),
            dependencies: self.dependencies.clone(),
            repository: self.repository.clone(),
            tags: copy_tags(&self.tags),
            enabled,
            installed,
        }
    }
}

/// The records of a remote list as values of the contracts.
pub open spec fn remote_records(manifests: Seq<RemoteModManifest>) -> Seq<ManifestView> {
    Seq::new(manifests.len(), |i: int| manifests[i]@)
}

/// The remote list.
#[derive(Debug, PartialEq)]
pub struct RemoteModLinks {
    pub manifests: Vec<RemoteModManifest>,
}

impl View for RemoteModLinks {
    type V = Seq<ManifestView>;

    open spec fn view(&self) -> Seq<ManifestView> {
        remote_records(self.manifests@)
    }
}

impl Clone for RemoteModLinks {
    fn clone(&self) -> (r: Self)
        ensures
            r@ == self@,
    {
        let mut out: Vec<RemoteModManifest> = Vec::new();
        let mut i: usize = 0;
        while i < self.manifests.len()
            invariant
                i <= self.manifests.len(),
                out@.len() == i,
                forall|j: int| 0 <= j < i ==> out@[j]@ == self.manifests@[j]@,
            decreases self.manifests.len() - i,
        {
            out.push(self.manifests[i].clone());
            i = i + 1;
        }
        let r = RemoteModLinks { manifests: out };
        assert(r@ =~= self@);
        r
    }
}

impl RemoteModLinks {
    /// A remote list without records.
    pub fn new() -> (r: RemoteModLinks)
        ensures
            r@ == Seq::<ManifestView>::empty(),
    {
        let r = RemoteModLinks { manifests: Vec::new() };
        assert(r@ =~= Seq::<ManifestView>::empty());
        r
    }
}

} // verus!

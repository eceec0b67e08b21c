//! Work on the catalog that the settings keep: finding a record, setting its
//! flags, telling whether a mod is out of date, and merging the remote list
//! with what the disk shows.

use crate::inspect::Presence;
use crate::mod_links::local::{
    records, LocalModLinks, LocalModManifest, ManifestView, ModDependencies,
    ModLink, ModLinkView,
};
use crate::mod_links::remote::RemoteModLinks;
use crate::text::same_text;
use vstd::prelude::*;
use vstd::string::*;

verus! {

/// Whether the catalog holds a record of that name.
pub open spec fn has_record(cat: Seq<ManifestView>, name: Seq<char>) -> bool {
    exists|i: int| 0 <= i < cat.len() && (#[trigger] cat[i]).name == name
}

/// Whether the catalog holds a record of that name whose version is another
/// text than `version`. Versions are compared as texts, character for
/// character; no order among them is looked at.
pub open spec fn out_of_date(cat: Seq<ManifestView>, name: Seq<char>, version: Seq<char>) -> bool {
    exists|i: int|
        0 <= i < cat.len() && (#[trigger] cat[i]).name == name && cat[i].version != version
}

/// The catalog with `enabled` set in the records of that name.
pub open spec fn with_enabled(cat: Seq<ManifestView>, name: Seq<char>, enabled: bool) -> Seq<
    ManifestView,
> {
    Seq::new(
        cat.len(),
        |i: int|
            if cat[i].name == name {
                ManifestView { enabled, ..cat[i] }
            } else {
                cat[i]
            },
    )
}

/// The catalog with both flags set in the records of that name.
pub open spec fn with_flags(
    cat: Seq<ManifestView>,
    name: Seq<char>,
    installed: bool,
    enabled: bool,
) -> Seq<ManifestView> {
    Seq::new(
        cat.len(),
        |i: int|
            if cat[i].name == name {
                ManifestView { installed, enabled, ..cat[i] }
            } else {
                cat[i]
            },
    )
}

/// The catalog after a mod was installed of which no version is known, as
/// a mod is that was put in place by hand: where it holds records of that
/// name, they are flagged installed and enabled and keep their other fields;
/// where it holds none, `record` is added at the end.
pub open spec fn with_installed(cat: Seq<ManifestView>, record: ManifestView) -> Seq<
    ManifestView,
> {
    if has_record(cat, record.name) {
        with_flags(cat, record.name, true, true)
    } else {
        cat.push(record)
    }
}

/// The catalog with the records of the name of `record` brought up to what
/// was installed: they are flagged installed and enabled, and their
/// version, address and digest are those of `record`; what else they hold
/// stays.
pub open spec fn with_release(cat: Seq<ManifestView>, record: ManifestView) -> Seq<
    ManifestView,
> {
    Seq::new(
        cat.len(),
        |i: int|
            if cat[i].name == record.name {
                ManifestView {
                    installed: true,
                    enabled: true,
                    version: record.version,
                    link: record.link,
                    ..cat[i]
                }
            } else {
                cat[i]
            },
    )
}

/// The catalog after `record` was downloaded and installed: where it holds
/// records of that name, they are brought up to what was installed; where
/// it holds none, `record` is added at the end.
pub open spec fn with_downloaded(cat: Seq<ManifestView>, record: ManifestView) -> Seq<
    ManifestView,
> {
    if has_record(cat, record.name) {
        with_release(cat, record)
    } else {
        cat.push(record)
    }
}

/// The record of a mod that was installed from an address and of which no
/// more is known than what the installation was given.
pub open spec fn downloaded_record(
    name: Seq<char>,
    version: Seq<char>,
    sha256: Seq<char>,
    link: Seq<char>,
) -> ManifestView {
    ManifestView {
        name,
        description: Seq::empty(),
        version,
        link: ModLinkView { sha256, link },
        dependencies: Seq::empty(),
        repository: Seq::empty(),
        tags: None,
        enabled: true,
        installed: true,
    }
}

/// The names of the records, in their order.
pub open spec fn names_of(cat: Seq<ManifestView>) -> Seq<Seq<char>> {
    Seq::new(cat.len(), |i: int| cat[i].name)
}

/// The remote records with their two flags set from what the disk shows for
/// each: record `i` is installed and enabled as `seen[i]` says.
pub open spec fn sighted(remote: Seq<ManifestView>, seen: Seq<Presence>) -> Seq<ManifestView>
    recommends
        seen.len() == remote.len(),
{
    Seq::new(
        remote.len(),
        |i: int|
            ManifestView {
                installed: seen[i].installed(),
                enabled: seen[i].enabled(),
                ..remote[i]
            },
    )
}

/// The names of the remote records of which the saved catalog holds no
/// record, in the order of the remote list.
pub open spec fn unknown_names(saved: Seq<ManifestView>, remote: Seq<ManifestView>) -> Seq<
    Seq<char>,
>
    decreases remote.len(),
{
    if remote.len() == 0 {
        Seq::empty()
    } else {
        let rest = unknown_names(saved, remote.drop_last());
        if !has_record(saved, remote.last().name) {
            rest.push(remote.last().name)
        } else {
            rest
        }
    }
}

/// The names that are new in the remote list. Against an empty saved
/// catalog, which is that of a first run, nothing counts as new.
pub open spec fn new_names(saved: Seq<ManifestView>, remote: Seq<ManifestView>) -> Seq<
    Seq<char>,
> {
    if saved.len() == 0 {
        Seq::empty()
    } else {
        unknown_names(saved, remote)
    }
}

/// The names of the remote records whose mod the saved catalog holds in
/// another version, in the order of the remote list.
pub open spec fn outdated_names(saved: Seq<ManifestView>, remote: Seq<ManifestView>) -> Seq<
    Seq<char>,
>
    decreases remote.len(),
{
    if remote.len() == 0 {
        Seq::empty()
    } else {
        let rest = outdated_names(saved, remote.drop_last());
        if out_of_date(saved, remote.last().name, remote.last().version) {
            rest.push(remote.last().name)
        } else {
            rest
        }
    }
}

/// Of the first `n` records, those whose mod the disk shows as enabled,
/// where `enabled_only` is true, or as installed, where it is false; record
/// `i` goes by `seen[i]`.
pub open spec fn records_seen(
    cat: Seq<ManifestView>,
    seen: Seq<Presence>,
    enabled_only: bool,
    n: nat,
) -> Seq<ManifestView>
    decreases n,
{
    if n == 0 {
        Seq::empty()
    } else {
        let rest = records_seen(cat, seen, enabled_only, (n - 1) as nat);
        let shown = if enabled_only {
            seen[n - 1].enabled()
        } else {
            seen[n - 1].installed()
        };
        if shown {
            rest.push(cat[n - 1])
        } else {
            rest
        }
    }
}

/// No two records of the catalog have the same name.
pub open spec fn record_names_unique(cat: Seq<ManifestView>) -> bool {
    forall|i: int, j: int|
        0 <= i < j < cat.len() ==> (#[trigger] cat[i]).name != (#[trigger] cat[j]).name
}

/// The catalog that the settings hold after a merge of the remote list:
/// the remote records flagged as the disk shows them, whatever the settings
/// held before; with another number of sightings than records, what they
/// held before.
pub open spec fn catalog_after_merge(
    saved: Seq<ManifestView>,
    remote: Seq<ManifestView>,
    seen: Seq<Presence>,
) -> Seq<ManifestView> {
    if seen.len() == remote.len() {
        sighted(remote, seen)
    } else {
        saved
    }
}

/// A mod of which the catalog holds no record is never out of date. Where
/// the catalog holds one record of the name, the mod is out of date exactly
/// when the version of that record is another text than the one asked
/// about.
pub proof fn lemma_out_of_date(
    cat: Seq<ManifestView>,
    name: Seq<char>,
    version: Seq<char>,
    i: int,
)
    ensures
        !has_record(cat, name) ==> !out_of_date(cat, name, version),
        record_names_unique(cat) && 0 <= i < cat.len() && cat[i].name == name ==> (out_of_date(
            cat,
            name,
            version,
        ) <==> cat[i].version != version),
{
    if out_of_date(cat, name, version) {
        let k = choose|k: int|
            0 <= k < cat.len() && (#[trigger] cat[k]).name == name && cat[k].version != version;
        assert(cat[k].name == name);
        if record_names_unique(cat) && 0 <= i < cat.len() && cat[i].name == name {
            assert(k == i);
        }
    }
}

/// Merging the same remote list twice, with the disk unchanged in between,
/// gives the same catalog both times.
pub proof fn lemma_merge_idempotent(
    saved: Seq<ManifestView>,
    remote: Seq<ManifestView>,
    seen: Seq<Presence>,
)
    ensures
        catalog_after_merge(catalog_after_merge(saved, remote, seen), remote, seen)
            == catalog_after_merge(saved, remote, seen),
        seen.len() == remote.len() ==> catalog_after_merge(saved, remote, seen) == sighted(
            remote,
            seen,
        ),
{
}

/// Where no two records have the same name, none of the changes that the
/// engine makes to a catalog brings two such records about: not setting
/// flags, not noting an installation, not flagging a remote list as the
/// disk shows it.
pub proof fn lemma_names_stay_unique(
    cat: Seq<ManifestView>,
    name: Seq<char>,
    installed: bool,
    enabled: bool,
    record: ManifestView,
    seen: Seq<Presence>,
)
    requires
        record_names_unique(cat),
    ensures
        record_names_unique(with_enabled(cat, name, enabled)),
        record_names_unique(with_flags(cat, name, installed, enabled)),
        record_names_unique(with_installed(cat, record)),
        record_names_unique(with_downloaded(cat, record)),
        record_names_unique(sighted(cat, seen)),
{
    let a = with_enabled(cat, name, enabled);
    assert forall|i: int, j: int| 0 <= i < j < a.len() implies (#[trigger] a[i]).name != (
    #[trigger] a[j]).name by {
        assert(cat[i].name != cat[j].name);
    }
    let b = with_flags(cat, name, installed, enabled);
    assert forall|i: int, j: int| 0 <= i < j < b.len() implies (#[trigger] b[i]).name != (
    #[trigger] b[j]).name by {
        assert(cat[i].name != cat[j].name);
    }
    let c = with_installed(cat, record);
    assert forall|i: int, j: int| 0 <= i < j < c.len() implies (#[trigger] c[i]).name != (
    #[trigger] c[j]).name by {
        if has_record(cat, record.name) {
            assert(cat[i].name != cat[j].name);
        } else if j < cat.len() {
            assert(cat[i].name != cat[j].name);
        } else {
            assert(cat[i].name != record.name);
        }
    }
    let d = sighted(cat, seen);
    assert forall|i: int, j: int| 0 <= i < j < d.len() implies (#[trigger] d[i]).name != (
    #[trigger] d[j]).name by {
        assert(cat[i].name != cat[j].name);
    }
    let e = with_downloaded(cat, record);
    assert forall|i: int, j: int| 0 <= i < j < e.len() implies (#[trigger] e[i]).name != (
    #[trigger] e[j]).name by {
        if has_record(cat, record.name) {
            assert(cat[i].name != cat[j].name);
        } else if j < cat.len() {
            assert(cat[i].name != cat[j].name);
        } else {
            assert(cat[i].name != record.name);
        }
    }
}

/// A name is reported as unknown exactly when the remote list holds a record
/// of that name and the saved catalog holds none.
pub proof fn lemma_unknown_names(
    saved: Seq<ManifestView>,
    remote: Seq<ManifestView>,
    name: Seq<char>,
)
    ensures
        unknown_names(saved, remote).contains(name) <==> has_record(remote, name) && !has_record(
            saved,
            name,
        ),
        unknown_names(saved, remote).len() <= remote.len(),
    decreases remote.len(),
{
    let out = unknown_names(saved, remote);
    if remote.len() > 0 {
        let rest = remote.drop_last();
        let sub = unknown_names(saved, rest);
        let last = remote.last();
        lemma_unknown_names(saved, rest, name);
        if out.contains(name) {
            let k = choose|k: int| 0 <= k < out.len() && out[k] == name;
            if k < sub.len() {
                assert(sub[k] == name);
                assert(sub.contains(name));
                let m = choose|m: int| 0 <= m < rest.len() && (#[trigger] rest[m]).name == name;
                assert(remote[m].name == name);
            } else {
                assert(remote[remote.len() - 1].name == name);
            }
        }
        if has_record(remote, name) && !has_record(saved, name) {
            let m = choose|m: int| 0 <= m < remote.len() && (#[trigger] remote[m]).name == name;
            if m < rest.len() {
                assert(rest[m].name == name);
                let k = choose|k: int| 0 <= k < sub.len() && sub[k] == name;
                assert(out[k] == name);
            } else {
                assert(out[out.len() - 1] == name);
            }
        }
    } else {
        if out.contains(name) {
            let k = choose|k: int| 0 <= k < out.len() && out[k] == name;
        }
    }
}

/// A name is reported as outdated exactly when the remote list holds a
/// record of that name whose version the saved catalog holds otherwise.
pub proof fn lemma_outdated_names(
    saved: Seq<ManifestView>,
    remote: Seq<ManifestView>,
    name: Seq<char>,
)
    ensures
        outdated_names(saved, remote).contains(name) <==> exists|i: int|
            0 <= i < remote.len() && (#[trigger] remote[i]).name == name && out_of_date(
                saved,
                name,
                remote[i].version,
            ),
        outdated_names(saved, remote).len() <= remote.len(),
    decreases remote.len(),
{
    let out = outdated_names(saved, remote);
    if remote.len() > 0 {
        let rest = remote.drop_last();
        let sub = outdated_names(saved, rest);
        let last = remote.last();
        lemma_outdated_names(saved, rest, name);
        if out.contains(name) {
            let k = choose|k: int| 0 <= k < out.len() && out[k] == name;
            if k < sub.len() {
                assert(sub[k] == name);
                assert(sub.contains(name));
                let m = choose|m: int|
                    0 <= m < rest.len() && (#[trigger] rest[m]).name == name && out_of_date(
                        saved,
                        name,
                        rest[m].version,
                    );
                assert(remote[m].name == name && out_of_date(saved, name, remote[m].version));
            } else {
                let m = remote.len() - 1;
                assert(remote[m].name == name && out_of_date(saved, name, remote[m].version));
            }
        }
        if exists|i: int|
            0 <= i < remote.len() && (#[trigger] remote[i]).name == name && out_of_date(
                saved,
                name,
                remote[i].version,
            ) {
            let m = choose|m: int|
                0 <= m < remote.len() && (#[trigger] remote[m]).name == name && out_of_date(
                    saved,
                    name,
                    remote[m].version,
                );
            if m < rest.len() {
                assert(rest[m].name == name && out_of_date(saved, name, rest[m].version));
                let k = choose|k: int| 0 <= k < sub.len() && sub[k] == name;
                assert(out[k] == name);
            } else {
                assert(out[out.len() - 1] == name);
            }
        }
    } else {
        if out.contains(name) {
            let k = choose|k: int| 0 <= k < out.len() && out[k] == name;
        }
    }
}

/// A record is among those that the disk shows, of the first `n`, exactly
/// when it stands at a place below `n` at which the disk shows its mod.
pub proof fn lemma_records_seen(
    cat: Seq<ManifestView>,
    seen: Seq<Presence>,
    enabled_only: bool,
    n: nat,
    record: ManifestView,
)
    ensures
        records_seen(cat, seen, enabled_only, n).contains(record) <==> exists|i: int|
            0 <= i < n && #[trigger] cat[i] == record && (if enabled_only {
                seen[i].enabled()
            } else {
                seen[i].installed()
            }),
        records_seen(cat, seen, enabled_only, n).len() <= n,
    decreases n,
{
    let out = records_seen(cat, seen, enabled_only, n);
    let shown = |i: int|
        if enabled_only {
            seen[i].enabled()
        } else {
            seen[i].installed()
        };
    if n > 0 {
        let sub = records_seen(cat, seen, enabled_only, (n - 1) as nat);
        lemma_records_seen(cat, seen, enabled_only, (n - 1) as nat, record);
        if out.contains(record) {
            let k = choose|k: int| 0 <= k < out.len() && out[k] == record;
            if k < sub.len() {
                assert(sub[k] == record);
                assert(sub.contains(record));
                let m = choose|m: int| 0 <= m < n - 1 && #[trigger] cat[m] == record && shown(m);
                assert(0 <= m < n && cat[m] == record && shown(m));
            } else {
                assert(cat[n - 1] == record && shown(n - 1));
            }
        }
        if exists|i: int| 0 <= i < n && #[trigger] cat[i] == record && shown(i) {
            let m = choose|m: int| 0 <= m < n && #[trigger] cat[m] == record && shown(m);
            if m < n - 1 {
                assert(0 <= m < n - 1 && cat[m] == record && shown(m));
                let k = choose|k: int| 0 <= k < sub.len() && sub[k] == record;
                assert(out[k] == record);
            } else {
                assert(out[out.len() - 1] == record);
            }
        }
    } else {
        if out.contains(record) {
            let k = choose|k: int| 0 <= k < out.len() && out[k] == record;
        }
    }
}

/// Once a mod was noted as installed, the catalog holds a record of its
/// name, and every record of that name is flagged installed and enabled.
/// The records of other names are as they were.
pub proof fn lemma_with_installed(cat: Seq<ManifestView>, record: ManifestView)
    requires
        record.installed,
        record.enabled,
    ensures
        has_record(with_installed(cat, record), record.name),
        forall|i: int|
            0 <= i < with_installed(cat, record).len() && (#[trigger] with_installed(
                cat,
                record,
            )[i]).name == record.name ==> with_installed(cat, record)[i].installed
                && with_installed(cat, record)[i].enabled,
        forall|i: int|
            0 <= i < cat.len() && (#[trigger] cat[i]).name != record.name ==> with_installed(
                cat,
                record,
            )[i] == cat[i],
{
    let w = with_installed(cat, record);
    if has_record(cat, record.name) {
        let k = choose|k: int| 0 <= k < cat.len() && (#[trigger] cat[k]).name == record.name;
        assert(w[k].name == record.name);
    } else {
        assert(w[cat.len() as int].name == record.name);
        assert forall|i: int| 0 <= i < w.len() && (#[trigger] w[i]).name == record.name implies w[i].installed
            && w[i].enabled by {
            if i < cat.len() {
                assert(cat[i].name == record.name);
            }
        }
    }
}

/// Once a mod was downloaded and installed, the catalog holds a record of
/// its name; every record of that name is flagged installed and enabled and
/// holds the version, the address and the digest that were installed, so
/// that the mod is not out of date against that version. The records of
/// other names are as they were.
pub proof fn lemma_with_downloaded(cat: Seq<ManifestView>, record: ManifestView)
    requires
        record.installed,
        record.enabled,
    ensures
        has_record(with_downloaded(cat, record), record.name),
        forall|i: int|
            0 <= i < with_downloaded(cat, record).len() && (#[trigger] with_downloaded(
                cat,
                record,
            )[i]).name == record.name ==> {
                &&& with_downloaded(cat, record)[i].installed
                &&& with_downloaded(cat, record)[i].enabled
                &&& with_downloaded(cat, record)[i].version == record.version
                &&& with_downloaded(cat, record)[i].link == record.link
            },
        forall|i: int|
            0 <= i < cat.len() && (#[trigger] cat[i]).name != record.name ==> with_downloaded(
                cat,
                record,
            )[i] == cat[i],
        !out_of_date(with_downloaded(cat, record), record.name, record.version),
{
    let w = with_downloaded(cat, record);
    if has_record(cat, record.name) {
        let k = choose|k: int| 0 <= k < cat.len() && (#[trigger] cat[k]).name == record.name;
        assert(w[k].name == record.name);
    } else {
        assert(w[cat.len() as int].name == record.name);
    }
    assert forall|i: int| 0 <= i < w.len() && (#[trigger] w[i]).name == record.name implies {
        &&& w[i].installed
        &&& w[i].enabled
        &&& w[i].version == record.version
        &&& w[i].link == record.link
    } by {
        if !has_record(cat, record.name) && i < cat.len() {
            assert(cat[i].name == record.name);
        }
    }
    if out_of_date(w, record.name, record.version) {
        let k = choose|k: int|
            0 <= k < w.len() && (#[trigger] w[k]).name == record.name && w[k].version
                != record.version;
        assert(w[k].name == record.name);
    }
}

/// What a merge of the remote list into the settings gives back.
#[derive(Debug, PartialEq)]
pub struct Reconciled {
    /// The merged catalog, as it now stands in the settings.
    pub catalog: LocalModLinks,
    /// The names that the catalog did not hold before.
    pub new_mods: Vec<String>,
    /// The names of the mods that the catalog held in another version.
    pub outdated_mods: Vec<String>,
}

impl LocalModManifest {
    /// The record of a mod that was installed from an address and of which
    /// no more is known than what the installation was given.
    pub fn downloaded(name: &str, version: &str, sha256: &str, link: &str) -> (r:
        LocalModManifest)
        ensures
            r@ == downloaded_record(name@, version@, sha256@, link@),
    {
        let r = LocalModManifest {
            name: name.to_owned(),
            description: String::new(),
            version: version.to_owned(),
            link: ModLink { sha256: sha256.to_owned(), link: link.to_owned() },
            dependencies: ModDependencies { dependencies: Vec::new() },
            repository: String::new(),
            tags: None,
            enabled: true,
            installed: true,
        };
        assert(r@.dependencies =~= Seq::<Seq<char>>::empty());
        r
    }
}

impl LocalModLinks {
    /// Whether the catalog holds a record of that name.
    pub fn contains(&self, name: &str) -> (r: bool)
        ensures
            r == has_record(self@, name@),
    {
        let mut i: usize = 0;
        while i < self.manifests.len()
            invariant
                i <= self.manifests.len(),
                forall|j: int| 0 <= j < i ==> self.manifests@[j]@.name != name@,
            decreases self.manifests.len() - i,
        {
            if same_text(self.manifests[i].name.as_str(), name) {
                assert(self@[i as int].name == name@);
                return true;
            }
            i = i + 1;
        }
        false
    }

    /// Whether the mod is out of date: the catalog holds a record of that
    /// name, and its version is another text than `remote_version`.
    pub fn check_for_update(&self, name: &str, remote_version: &str) -> (r: bool)
        ensures
            r == out_of_date(self@, name@, remote_version@),
    {
        let mut i: usize = 0;
        while i < self.manifests.len()
            invariant
                i <= self.manifests.len(),
                forall|j: int|
                    0 <= j < i ==> !(self.manifests@[j]@.name == name@
                        && self.manifests@[j]@.version != remote_version@),
            decreases self.manifests.len() - i,
        {
            if same_text(self.manifests[i].name.as_str(), name) && !same_text(
                self.manifests[i].version.as_str(),
                remote_version,
            ) {
                assert(self@[i as int].name == name@ && self@[i as int].version
                    != remote_version@);
                return true;
            }
            i = i + 1;
        }
        false
    }

    /// Sets `enabled` in the records of that name.
    pub fn set_enabled(&mut self, name: &str, enabled: bool)
        ensures
            final(self)@ == with_enabled(old(self)@, name@, enabled),
    {
        let ghost before = self@;
        let mut i: usize = 0;
        while i < self.manifests.len()
            invariant
                i <= self.manifests.len(),
                self.manifests@.len() == before.len(),
                forall|j: int| 0 <= j < i ==> self.manifests@[j]@ == with_enabled(
                    before,
                    name@,
                    enabled,
                )[j],
                forall|j: int| i <= j < before.len() ==> self.manifests@[j]@ == before[j],
            decreases self.manifests.len() - i,
        {
            if same_text(self.manifests[i].name.as_str(), name) {
                self.manifests[i].enabled = enabled;
            }
            i = i + 1;
        }
        assert(self@ =~= with_enabled(before, name@, enabled));
    }

    /// Sets both flags in the records of that name.
    pub fn set_flags(&mut self, name: &str, installed: bool, enabled: bool)
        ensures
            final(self)@ == with_flags(old(self)@, name@, installed, enabled),
    {
        let ghost before = self@;
        let mut i: usize = 0;
        while i < self.manifests.len()
            invariant
                i <= self.manifests.len(),
                self.manifests@.len() == before.len(),
                forall|j: int| 0 <= j < i ==> self.manifests@[j]@ == with_flags(
                    before,
                    name@,
                    installed,
                    enabled,
                )[j],
                forall|j: int| i <= j < before.len() ==> self.manifests@[j]@ == before[j],
            decreases self.manifests.len() - i,
        {
            if same_text(self.manifests[i].name.as_str(), name) {
                self.manifests[i].installed = installed;
                self.manifests[i].enabled = enabled;
            }
            i = i + 1;
        }
        assert(self@ =~= with_flags(before, name@, installed, enabled));
    }

    /// Notes that `record` was installed: where the catalog holds records of
    /// that name, they are flagged installed and enabled; where it holds
    /// none, `record` is added at the end. Returns whether it was added.
    pub fn note_installed(&mut self, record: LocalModManifest) -> (added: bool)
        ensures
            final(self)@ == with_installed(old(self)@, record@),
            added == !has_record(old(self)@, record@.name),
    {
        if self.contains(record.name.as_str()) {
            self.set_flags(record.name.as_str(), true, true);
            false
        } else {
            let ghost before = self@;
            self.manifests.push(record);
            assert(self@ =~= before.push(record@));
            true
        }
    }

    /// Notes that `record` was downloaded and installed: where the catalog
    /// holds records of that name, they are flagged installed and enabled
    /// and take the version, the address and the digest of `record`; where
    /// it holds none, `record` is added at the end. Returns whether it was
    /// added.
    pub fn note_downloaded(&mut self, record: LocalModManifest) -> (added: bool)
        ensures
            final(self)@ == with_downloaded(old(self)@, record@),
            added == !has_record(old(self)@, record@.name),
    {
        if !self.contains(record.name.as_str()) {
            let ghost before = self@;
            self.manifests.push(record);
            assert(self@ =~= before.push(record@));
            return true;
        }
        let ghost before = self@;
        let mut i: usize = 0;
        while i < self.manifests.len()
            invariant
                i <= self.manifests.len(),
                self.manifests@.len() == before.len(),
                forall|j: int| 0 <= j < i ==> self.manifests@[j]@ == with_release(
                    before,
                    record@,
                )[j],
                forall|j: int| i <= j < before.len() ==> self.manifests@[j]@ == before[j],
            decreases self.manifests.len() - i,
        {
            if same_text(self.manifests[i].name.as_str(), record.name.as_str()) {
                self.manifests[i].installed = true;
                self.manifests[i].enabled = true;
                self.manifests[i].version = record.version.clone();
                self.manifests[i].link = record.link.clone();
            }
            i = i + 1;
        }
        assert(self@ =~= with_release(before, record@));
        false
    }

    /// The names of the records, in their order: the names to look for on
    /// disk.
    pub fn names(&self) -> (r: Vec<String>)
        ensures
            r.deep_view() == names_of(self@),
    {
        let mut out: Vec<String> = Vec::new();
        let mut i: usize = 0;
        while i < self.manifests.len()
            invariant
                i <= self.manifests.len(),
                out@.len() == i,
                forall|j: int| 0 <= j < i ==> out@[j]@ == self.manifests@[j]@.name,
            decreases self.manifests.len() - i,
        {
            out.push(self.manifests[i].name.clone());
            i = i + 1;
        }
        assert(out.deep_view() =~= names_of(self@));
        out
    }

    /// The records whose mod the disk shows as enabled, where `enabled_only`
    /// is true, or as installed, where it is false. `seen[i]` is what the
    /// disk shows for record `i`; with any other number of sightings than
    /// records there is no answer.
    pub fn select_seen(&self, seen: &Vec<Presence>, enabled_only: bool) -> (r: Option<
        Vec<LocalModManifest>,
    >)
        ensures
            r is Some <==> seen@.len() == self@.len(),
            r matches Some(v) ==> records(v@) == records_seen(
                self@,
                seen@,
                enabled_only,
                self@.len(),
            ),
    {
        if seen.len() != self.manifests.len() {
            return None;
        }
        let mut out: Vec<LocalModManifest> = Vec::new();
        let mut i: usize = 0;
        assert(records(out@) =~= records_seen(self@, seen@, enabled_only, 0));
        while i < self.manifests.len()
            invariant
                i <= self.manifests.len(),
                seen@.len() == self.manifests@.len(),
                records(out@) == records_seen(self@, seen@, enabled_only, i as nat),
            decreases self.manifests.len() - i,
        {
            let ghost before = records(out@);
            let shown = if enabled_only {
                seen[i].is_enabled()
            } else {
                seen[i].is_installed()
            };
            if shown {
                out.push(self.manifests[i].clone());
                assert(records(out@) =~= before.push(self@[i as int]));
            }
            i = i + 1;
        }
        Some(out)
    }
}

impl RemoteModLinks {
    /// The names of the records, in their order: the names to look for on
    /// disk.
    pub fn names(&self) -> (r: Vec<String>)
        ensures
            r.deep_view() == names_of(self@),
    {
        let mut out: Vec<String> = Vec::new();
        let mut i: usize = 0;
        while i < self.manifests.len()
            invariant
                i <= self.manifests.len(),
                out@.len() == i,
                forall|j: int| 0 <= j < i ==> out@[j]@ == self.manifests@[j]@.name,
            decreases self.manifests.len() - i,
        {
            out.push(self.manifests[i].name.clone());
            i = i + 1;
        }
        assert(out.deep_view() =~= names_of(self@));
        out
    }

    /// The catalog that this list gives when each record is flagged as the
    /// disk shows its mod: `seen[i]` is what the disk shows for record `i`.
    /// With any other number of sightings than records there is no answer.
    pub fn merge_with_disk(&self, seen: &Vec<Presence>) -> (r: Option<LocalModLinks>)
        ensures
            r is Some <==> seen@.len() == self@.len(),
            r matches Some(c) ==> c@ == sighted(self@, seen@),
    {
        if seen.len() != self.manifests.len() {
            return None;
        }
        let mut out: Vec<LocalModManifest> = Vec::new();
        let mut i: usize = 0;
        while i < self.manifests.len()
            invariant
                i <= self.manifests.len(),
                seen@.len() == self.manifests@.len(),
                out@.len() == i,
                forall|j: int| 0 <= j < i ==> out@[j]@ == sighted(self@, seen@)[j],
            decreases self.manifests.len() - i,
        {
            let p = seen[i];
            out.push(self.manifests[i].to_local(p.is_installed(), p.is_enabled()));
            i = i + 1;
        }
        let c = LocalModLinks { manifests: out };
        assert(c@ =~= sighted(self@, seen@));
        Some(c)
    }

    /// The names of this list that are new to the saved catalog.
    pub fn names_new_to(&self, saved: &LocalModLinks) -> (r: Vec<String>)
        ensures
            r.deep_view() == new_names(saved@, self@),
    {
        let mut out: Vec<String> = Vec::new();
        if saved.manifests.len() == 0 {
            assert(out.deep_view() =~= Seq::<Seq<char>>::empty());
            return out;
        }
        let mut i: usize = 0;
        assert(out.deep_view() =~= unknown_names(saved@, self@.take(0)));
        while i < self.manifests.len()
            invariant
                i <= self.manifests.len(),
                out.deep_view() == unknown_names(saved@, self@.take(i as int)),
            decreases self.manifests.len() - i,
        {
            let ghost before = out.deep_view();
            assert(self@.take(i + 1).drop_last() =~= self@.take(i as int));
            assert(self@.take(i + 1).last() == self.manifests@[i as int]@);
            if !saved.contains(self.manifests[i].name.as_str()) {
                out.push(self.manifests[i].name.clone());
                assert(out.deep_view() =~= before.push(self.manifests@[i as int]@.name));
            }
            i = i + 1;
        }
        assert(self@.take(self.manifests.len() as int) =~= self@);
        out
    }

    /// The names of this list whose mod the saved catalog holds in another
    /// version.
    pub fn names_outdated_in(&self, saved: &LocalModLinks) -> (r: Vec<String>)
        ensures
            r.deep_view() == outdated_names(saved@, self@),
    {
        let mut out: Vec<String> = Vec::new();
        let mut i: usize = 0;
        assert(out.deep_view() =~= outdated_names(saved@, self@.take(0)));
        while i < self.manifests.len()
            invariant
                i <= self.manifests.len(),
                out.deep_view() == outdated_names(saved@, self@.take(i as int)),
            decreases self.manifests.len() - i,
        {
            let ghost before = out.deep_view();
            assert(self@.take(i + 1).drop_last() =~= self@.take(i as int));
            assert(self@.take(i + 1).last() == self.manifests@[i as int]@);
            if saved.check_for_update(
                self.manifests[i].name.as_str(),
                self.manifests[i].version.as_str(),
            ) {
                out.push(self.manifests[i].name.clone());
                assert(out.deep_view() =~= before.push(self.manifests@[i as int]@.name));
            }
            i = i + 1;
        }
        assert(self@.take(self.manifests.len() as int) =~= self@);
        out
    }
}

} // verus!

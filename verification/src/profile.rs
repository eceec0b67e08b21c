//! Profiles: named lists of mods that are meant to be enabled together.

use crate::text::{copy_texts, same_text};
use vstd::prelude::*;

verus! {

/// A profile: its name, and the names of the mods that it enables, in order.
#[derive(Debug, PartialEq)]
pub struct Profile {
    pub name: String,
    pub mods: Vec<String>,
}

/// A `Profile` as a value of the contracts.
pub struct ProfileView {
    pub name: Seq<char>,
    pub mods: Seq<Seq<char>>,
}

impl View for Profile {
    type V = ProfileView;

    open spec fn view(&self) -> ProfileView {
        ProfileView { name: self.name@, mods: self.mods.deep_view() }
    }
}

impl Clone for Profile {
    fn clone(&self) -> (r: Self)
        ensures
            r@ == self@,
    {
        Profile { name: self.name.clone(), mods: copy_texts(&self.mods) }
    }
}

/// A list of profiles as values of the contracts.
pub open spec fn profile_views(profiles: Seq<Profile>) -> Seq<ProfileView> {
    Seq::new(profiles.len(), |i: int| profiles[i]@)
}

/// Whether one of the profiles has the name.
pub open spec fn has_profile(profiles: Seq<ProfileView>, name: Seq<char>) -> bool {
    exists|i: int| 0 <= i < profiles.len() && (#[trigger] profiles[i]).name == name
}

/// No two profiles of the list have the same name.
pub open spec fn names_unique(profiles: Seq<ProfileView>) -> bool {
    forall|i: int, j: int|
        0 <= i < j < profiles.len() ==> (#[trigger] profiles[i]).name != (
        #[trigger] profiles[j]).name
}

/// The profiles of the list whose name is `name`, where `keep` is true, or
/// those whose name is not `name`, where it is false; in their order.
pub open spec fn profiles_by_name(profiles: Seq<ProfileView>, name: Seq<char>, keep: bool) -> Seq<
    ProfileView,
>
    decreases profiles.len(),
{
    if profiles.len() == 0 {
        Seq::empty()
    } else {
        let rest = profiles_by_name(profiles.drop_last(), name, keep);
        if (profiles.last().name == name) == keep {
            rest.push(profiles.last())
        } else {
            rest
        }
    }
}

/// The profiles that do not have the name, in their order.
pub open spec fn without_profile(profiles: Seq<ProfileView>, name: Seq<char>) -> Seq<
    ProfileView,
> {
    profiles_by_name(profiles, name, false)
}

/// The profiles that are picked by a list of names: for each name in turn,
/// the profiles of that name in their order.
pub open spec fn picked_profiles(profiles: Seq<ProfileView>, names: Seq<Seq<char>>) -> Seq<
    ProfileView,
>
    decreases names.len(),
{
    if names.len() == 0 {
        Seq::empty()
    } else {
        picked_profiles(profiles, names.drop_last()) + profiles_by_name(
            profiles,
            names.last(),
            true,
        )
    }
}

/// Adding a profile under a name that no profile has keeps the names
/// apart.
pub proof fn lemma_push_keeps_names_unique(profiles: Seq<ProfileView>, added: ProfileView)
    requires
        names_unique(profiles),
        !has_profile(profiles, added.name),
    ensures
        names_unique(profiles.push(added)),
        has_profile(profiles.push(added), added.name),
{
    let after = profiles.push(added);
    assert forall|i: int, j: int| 0 <= i < j < after.len() implies (#[trigger] after[i]).name != (
    #[trigger] after[j]).name by {
        if j == profiles.len() {
            assert(profiles[i].name != added.name);
        } else {
            assert(profiles[i].name != profiles[j].name);
        }
    }
    assert(after[profiles.len() as int].name == added.name);
}

/// What is left when the profiles of a name are taken out holds no profile
/// of that name, and holds a profile of any other name exactly when there
/// was one before.
pub proof fn lemma_without_profile(profiles: Seq<ProfileView>, name: Seq<char>, other: Seq<char>)
    requires
        other != name,
    ensures
        !has_profile(without_profile(profiles, name), name),
        has_profile(without_profile(profiles, name), other) == has_profile(profiles, other),
        without_profile(profiles, name).len() <= profiles.len(),
    decreases profiles.len(),
{
    let out = without_profile(profiles, name);
    if profiles.len() > 0 {
        let rest = profiles.drop_last();
        let sub = without_profile(rest, name);
        let last = profiles.last();
        lemma_without_profile(rest, name, other);
        if has_profile(out, name) {
            let k = choose|k: int| 0 <= k < out.len() && (#[trigger] out[k]).name == name;
            if k < sub.len() {
                assert(sub[k].name == name);
            }
        }
        if has_profile(out, other) {
            let k = choose|k: int| 0 <= k < out.len() && (#[trigger] out[k]).name == other;
            if k < sub.len() {
                assert(sub[k].name == other);
                let m = choose|m: int| 0 <= m < rest.len() && (#[trigger] rest[m]).name == other;
                assert(profiles[m].name == other);
            } else {
                assert(profiles[profiles.len() - 1].name == other);
            }
        }
        if has_profile(profiles, other) {
            let m = choose|m: int|
                0 <= m < profiles.len() && (#[trigger] profiles[m]).name == other;
            if m < rest.len() {
                assert(rest[m].name == other);
                let k = choose|k: int| 0 <= k < sub.len() && (#[trigger] sub[k]).name == other;
                assert(out[k].name == other);
            } else {
                assert(out[out.len() - 1].name == other);
            }
        }
    }
}

/// The profiles after others were brought in: each of the others is added
/// in its turn, unless a profile of its name is there by then.
pub open spec fn with_imported(profiles: Seq<ProfileView>, imported: Seq<ProfileView>) -> Seq<
    ProfileView,
>
    decreases imported.len(),
{
    if imported.len() == 0 {
        profiles
    } else {
        let so_far = with_imported(profiles, imported.drop_last());
        if has_profile(so_far, imported.last().name) {
            so_far
        } else {
            so_far.push(imported.last())
        }
    }
}

/// Bringing profiles in keeps the names apart, and keeps the profiles that
/// were there at their places.
pub proof fn lemma_import_keeps_names_unique(
    profiles: Seq<ProfileView>,
    imported: Seq<ProfileView>,
)
    requires
        names_unique(profiles),
    ensures
        names_unique(with_imported(profiles, imported)),
        with_imported(profiles, imported).len() >= profiles.len(),
        with_imported(profiles, imported).take(profiles.len() as int) == profiles,
    decreases imported.len(),
{
    if imported.len() > 0 {
        let so_far = with_imported(profiles, imported.drop_last());
        lemma_import_keeps_names_unique(profiles, imported.drop_last());
        if !has_profile(so_far, imported.last().name) {
            lemma_push_keeps_names_unique(so_far, imported.last());
            assert(so_far.push(imported.last()).take(profiles.len() as int) =~= so_far.take(
                profiles.len() as int,
            ));
        }
    } else {
        assert(profiles.take(profiles.len() as int) =~= profiles);
    }
}

/// A copy of a list of profiles, profile for profile.
pub fn copy_profiles(v: &Vec<Profile>) -> (r: Vec<Profile>)
    ensures
        profile_views(r@) == profile_views(v@),
{
    let mut r: Vec<Profile> = Vec::new();
    let mut i: usize = 0;
    while i < v.len()
        invariant
            i <= v.len(),
            r@.len() == i,
            forall|j: int| 0 <= j < i ==> r@[j]@ == v@[j]@,
        decreases v.len() - i,
    {
        r.push(v[i].clone());
        i = i + 1;
    }
    assert(profile_views(r@) =~= profile_views(v@));
    r
}

/// Whether one of the profiles has the name.
pub fn profile_exists(profiles: &Vec<Profile>, name: &str) -> (r: bool)
    ensures
        r == has_profile(profile_views(profiles@), name@),
{
    let mut i: usize = 0;
    while i < profiles.len()
        invariant
            i <= profiles.len(),
            forall|j: int| 0 <= j < i ==> profiles@[j]@.name != name@,
        decreases profiles.len() - i,
    {
        if same_text(profiles[i].name.as_str(), name) {
            assert(profile_views(profiles@)[i as int].name == name@);
            return true;
        }
        i = i + 1;
    }
    false
}

/// Appends to `out` the profiles whose name is `name`, where `keep` is true,
/// or those whose name is not `name`, where it is false; in their order.
fn append_by_name(out: &mut Vec<Profile>, profiles: &Vec<Profile>, name: &str, keep: bool)
    ensures
        profile_views(final(out)@) == profile_views(old(out)@) + profiles_by_name(
            profile_views(profiles@),
            name@,
            keep,
        ),
{
    let ghost all = profile_views(profiles@);
    let ghost start = profile_views(out@);
    let mut i: usize = 0;
    assert(profile_views(out@) =~= start + profiles_by_name(all.take(0), name@, keep));
    while i < profiles.len()
        invariant
            i <= profiles.len(),
            all == profile_views(profiles@),
            profile_views(out@) == start + profiles_by_name(all.take(i as int), name@, keep),
        decreases profiles.len() - i,
    {
        let ghost before = profile_views(out@);
        assert(all.take(i + 1).drop_last() =~= all.take(i as int));
        assert(all.take(i + 1).last() == profiles@[i as int]@);
        if same_text(profiles[i].name.as_str(), name) == keep {
            out.push(profiles[i].clone());
            assert(profile_views(out@) =~= before.push(profiles@[i as int]@));
            assert(profile_views(out@) =~= start + profiles_by_name(
                all.take(i + 1),
                name@,
                keep,
            ));
        }
        i = i + 1;
    }
    assert(all.take(profiles.len() as int) =~= all);
}

/// The profiles that do not have the name, in their order.
pub fn remove_profile(profiles: &Vec<Profile>, name: &str) -> (r: Vec<Profile>)
    ensures
        profile_views(r@) == without_profile(profile_views(profiles@), name@),
{
    let mut out: Vec<Profile> = Vec::new();
    append_by_name(&mut out, profiles, name, false);
    assert(profile_views(out@) =~= without_profile(profile_views(profiles@), name@));
    out
}

/// The profiles that a list of names picks, for export: for each name in
/// turn, the profiles of that name in their order.
pub fn pick_profiles(profiles: &Vec<Profile>, names: &Vec<String>) -> (r: Vec<Profile>)
    ensures
        profile_views(r@) == picked_profiles(profile_views(profiles@), names.deep_view()),
{
    let ghost all = profile_views(profiles@);
    let ghost wanted = names.deep_view();
    let mut out: Vec<Profile> = Vec::new();
    let mut i: usize = 0;
    assert(profile_views(out@) =~= picked_profiles(all, wanted.take(0)));
    while i < names.len()
        invariant
            i <= names.len(),
            all == profile_views(profiles@),
            wanted == names.deep_view(),
            profile_views(out@) == picked_profiles(all, wanted.take(i as int)),
        decreases names.len() - i,
    {
        append_by_name(&mut out, profiles, names[i].as_str(), true);
        proof {
            assert(wanted.take(i + 1).drop_last() =~= wanted.take(i as int));
            assert(wanted.take(i + 1).last() == names@[i as int]@);
        }
        i = i + 1;
    }
    assert(wanted.take(names.len() as int) =~= wanted);
    out
}

} // verus!

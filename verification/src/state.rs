//! The state of the application and the commands that work on it. A
//! command that changes the disk says what is to be done there, one action
//! at a time, and takes in what came of it; the catalog is changed only by
//! the step that brings the change to its end, so that it never says what
//! the disk does not show.

use crate::catalog::{
    catalog_after_merge, downloaded_record, new_names, out_of_date, outdated_names, records_seen,
    sighted, with_downloaded, with_installed, Reconciled,
};
use crate::change::{
    catalog_after_change, catalog_changed, change_start, lemma_change_inv, lemma_change_outcome,
    ChangeKind, ModChange,
};
use crate::error::{EngineError, EngineErrorView, ErrorKind};
use crate::inspect::Presence;
use crate::install::{InstallEvent, InstallJob, InstallStep, install_start};
use crate::lifecycle::{disable_plan, enable_plan, uninstall_plan, Action, ActionView};
use crate::mod_links::local::{records, LocalModManifest, ManifestView};
use crate::mod_links::remote::RemoteModLinks;
use crate::manual::{manual_name_of, manual_plan, plan_manual_install, ManualInstall};
use crate::profile::{
    copy_profiles, has_profile, pick_profiles, picked_profiles, profile_exists, profile_views,
    remove_profile, with_imported, without_profile, Profile, ProfileView,
};
use crate::settings::{first_run_settings, Settings, SettingsView};
use vstd::prelude::*;
use vstd::string::*;

verus! {

/// The state of the application: how far the download in flight has come,
/// and the settings.
#[derive(Debug, PartialEq)]
pub struct App {
    /// The percentage of the download in flight, from 0 to 100.
    pub current_download_progress: u8,
    pub settings: Settings,
}

/// The `App` as a value of the contracts.
pub struct AppView {
    pub current_download_progress: u8,
    pub settings: SettingsView,
}

impl View for App {
    type V = AppView;

    open spec fn view(&self) -> AppView {
        AppView {
            current_download_progress: self.current_download_progress,
            settings: self.settings@,
        }
    }
}

impl Default for App {
    /// The state of a first run: nothing downloaded, and the settings of a
    /// first run.
    fn default() -> (r: Self)
        ensures
            r@ == (AppView { current_download_progress: 0, settings: first_run_settings() }),
    {
        App { current_download_progress: 0, settings: Settings::default() }
    }
}

/// The failure of a command that found no mods root.
pub open spec fn missing_root(name: Seq<char>, root: Seq<char>) -> EngineErrorView {
    EngineErrorView { kind: ErrorKind::Filesystem, name, place: root }
}

/// The failure of a command that named a profile which the settings do not
/// hold.
pub open spec fn unknown_profile(name: Seq<char>) -> EngineErrorView {
    EngineErrorView { kind: ErrorKind::NotFound, name, place: Seq::empty() }
}

/// The settings with another catalog.
pub open spec fn with_catalog(s: SettingsView, catalog: Seq<ManifestView>) -> SettingsView {
    SettingsView { mod_links: catalog, ..s }
}

/// The settings with other profiles.
pub open spec fn with_profiles(s: SettingsView, profiles: Seq<ProfileView>) -> SettingsView {
    SettingsView { profiles, ..s }
}

/// Whether an installation that stands at this step has downloaded
/// nothing: the disk is still to be looked at, or the mod was found on disk
/// and is only moved into place.
pub open spec fn found_in_place(step: InstallStep) -> bool {
    step == InstallStep::Probing || step == InstallStep::Enabling
}

/// The catalog after a step of an installation. With the step that makes
/// the installation succeed, the mod is noted as installed: where it was
/// downloaded, its records take the version, the address and the digest
/// that were installed; where it was found on disk and nothing was
/// downloaded, its records are flagged and keep their version. Before that
/// step, and after it, the catalog stays as it is.
pub open spec fn catalog_after_step(
    cat: Seq<ManifestView>,
    before: crate::install::InstallJobView,
    after: crate::install::InstallJobView,
) -> Seq<ManifestView> {
    let record = downloaded_record(after.name, after.version, after.sha256, after.link);
    if after.step == InstallStep::Done && before.step != InstallStep::Done {
        if found_in_place(before.step) {
            with_installed(cat, record)
        } else {
            with_downloaded(cat, record)
        }
    } else {
        cat
    }
}

impl App {
    /// Adds a profile with the given name and mods, unless a profile of that
    /// name exists: no two profiles may have one name. Returns whether the
    /// profile was added.
    pub fn create_profile(&mut self, profile_name: String, mod_names: Vec<String>) -> (created:
        bool)
        ensures
            created == !has_profile(old(self)@.settings.profiles, profile_name@),
            created ==> final(self)@ == (AppView {
                settings: with_profiles(
                    old(self)@.settings,
                    old(self)@.settings.profiles.push(
                        ProfileView { name: profile_name@, mods: mod_names.deep_view() },
                    ),
                ),
                ..old(self)@
            }),
            !created ==> final(self)@ == old(self)@,
    {
        if profile_exists(&self.settings.profiles, profile_name.as_str()) {
            return false;
        }
        let ghost before = self@.settings.profiles;
        let ghost added = ProfileView { name: profile_name@, mods: mod_names.deep_view() };
        self.settings.profiles.push(Profile { name: profile_name, mods: mod_names });
        assert(self@.settings.profiles =~= before.push(added));
        true
    }

    /// Removes the profile of that name. Fails, and changes nothing, where
    /// the settings hold no such profile.
    pub fn delete_profile(&mut self, profile_name: &str) -> (r: Result<(), EngineError>)
        ensures
            r is Ok <==> has_profile(old(self)@.settings.profiles, profile_name@),
            r is Ok ==> final(self)@ == (AppView {
                settings: with_profiles(
                    old(self)@.settings,
                    without_profile(old(self)@.settings.profiles, profile_name@),
                ),
                ..old(self)@
            }),
            r matches Err(e) ==> e@ == unknown_profile(profile_name@) && final(self)@ == old(
                self,
            )@,
    {
        if !profile_exists(&self.settings.profiles, profile_name) {
            proof {
                reveal_strlit("");
                assert(""@ =~= Seq::<char>::empty());
            }
            return Err(EngineError::new(ErrorKind::NotFound, profile_name, ""));
        }
        let kept = remove_profile(&self.settings.profiles, profile_name);
        self.settings.profiles = kept;
        Ok(())
    }

    /// Makes the profile of that name the one in use; the empty name stands
    /// for no profile. Fails, and changes nothing, where the name is not
    /// empty and the settings hold no such profile.
    pub fn set_profile(&mut self, profile_name: String) -> (r: Result<(), EngineError>)
        ensures
            r is Ok <==> (profile_name@.len() == 0 || has_profile(
                old(self)@.settings.profiles,
                profile_name@,
            )),
            r is Ok ==> final(self)@ == (AppView {
                settings: SettingsView { current_profile: profile_name@, ..old(self)@.settings },
                ..old(self)@
            }),
            r matches Err(e) ==> e@ == unknown_profile(profile_name@) && final(self)@ == old(
                self,
            )@,
    {
        if !profile_name.as_str().is_empty() && !profile_exists(
            &self.settings.profiles,
            profile_name.as_str(),
        ) {
            proof {
                reveal_strlit("");
                assert(""@ =~= Seq::<char>::empty());
            }
            return Err(EngineError::new(ErrorKind::NotFound, profile_name.as_str(), ""));
        }
        self.settings.current_profile = profile_name;
        Ok(())
    }

    /// Brings profiles in, each in its turn; a profile whose name is taken
    /// by then is left out. Returns how many were added.
    pub fn import_profiles(&mut self, imported: &Vec<Profile>) -> (added: usize)
        ensures
            final(self)@ == (AppView {
                settings: with_profiles(
                    old(self)@.settings,
                    with_imported(old(self)@.settings.profiles, profile_views(imported@)),
                ),
                ..old(self)@
            }),
            added == final(self)@.settings.profiles.len() - old(self)@.settings.profiles.len(),
    {
        let ghost start = self@;
        let ghost all = profile_views(imported@);
        let mut added: usize = 0;
        let mut i: usize = 0;
        assert(self@.settings.profiles == with_imported(start.settings.profiles, all.take(0)));
        while i < imported.len()
            invariant
                i <= imported.len(),
                added <= i,
                all == profile_views(imported@),
                self@ == (AppView {
                    settings: with_profiles(
                        start.settings,
                        with_imported(start.settings.profiles, all.take(i as int)),
                    ),
                    ..start
                }),
                added == self@.settings.profiles.len() - start.settings.profiles.len(),
            decreases imported.len() - i,
        {
            assert(all.take(i + 1).drop_last() =~= all.take(i as int));
            assert(all.take(i + 1).last() == imported@[i as int]@);
            let p = imported[i].clone();
            if self.create_profile(p.name, p.mods) {
                added = added + 1;
            }
            i = i + 1;
        }
        assert(all.take(imported.len() as int) =~= all);
        added
    }

    /// The profiles, and the name of the one in use.
    pub fn fetch_profiles(&self) -> (r: (Vec<Profile>, String))
        ensures
            profile_views(r.0@) == self@.settings.profiles,
            r.1@ == self@.settings.current_profile,
    {
        (copy_profiles(&self.settings.profiles), self.settings.current_profile.clone())
    }

    /// The profiles that are to be exported: for each of the names in turn,
    /// the profiles of that name.
    pub fn export_profiles(&self, profile_names: &Vec<String>) -> (r: Vec<Profile>)
        ensures
            profile_views(r@) == picked_profiles(
                self@.settings.profiles,
                profile_names.deep_view(),
            ),
    {
        pick_profiles(&self.settings.profiles, profile_names)
    }

    /// The name of the profile in use.
    pub fn fetch_current_profile(&self) -> (r: String)
        ensures
            r@ == self@.settings.current_profile,
    {
        self.settings.current_profile.clone()
    }

    /// The language of the interface.
    pub fn fetch_language(&self) -> (r: String)
        ensures
            r@ == self@.settings.language,
    {
        self.settings.language.clone()
    }

    /// Sets the language of the interface.
    pub fn set_language(&mut self, language: String)
        ensures
            final(self)@ == (AppView {
                settings: SettingsView { language: language@, ..old(self)@.settings },
                ..old(self)@
            }),
    {
        self.settings.language = language;
    }

    /// Sets the theme.
    pub fn set_theme(&mut self, theme_name: String)
        ensures
            final(self)@ == (AppView {
                settings: SettingsView { theme: theme_name@, ..old(self)@.settings },
                ..old(self)@
            }),
    {
        self.settings.theme = theme_name;
    }

    /// The theme, and the path of its style sheet, which is empty where the
    /// theme has none.
    pub fn fetch_theme(&self) -> (r: (String, String))
        ensures
            r.0@ == self@.settings.theme,
            r.1@ == self@.settings.theme_path,
    {
        (self.settings.theme.clone(), self.settings.theme_path.clone())
    }

    /// How far the download in flight has come, in percent.
    pub fn fetch_current_download_progress(&self) -> (r: u8)
        ensures
            r == self@.current_download_progress,
    {
        self.current_download_progress
    }

    /// Whether the mod is out of date: the catalog holds a record of that
    /// name, and its version is another text than `version`.
    pub fn check_for_update(&self, mod_name: &str, version: &str) -> (r: bool)
        ensures
            r == out_of_date(self@.settings.mod_links, mod_name@, version@),
    {
        self.settings.mod_links.check_for_update(mod_name, version)
    }

    fn note_change(&mut self, kind: ChangeKind, name: &str)
        ensures
            final(self)@ == (AppView {
                settings: with_catalog(
                    old(self)@.settings,
                    catalog_changed(old(self)@.settings.mod_links, kind, name@),
                ),
                ..old(self)@
            }),
    {
        match kind {
            ChangeKind::Enable => {
                self.settings.mod_links.set_enabled(name, true);
            },
            ChangeKind::Disable => {
                self.settings.mod_links.set_enabled(name, false);
            },
            ChangeKind::Uninstall => {
                self.settings.mod_links.set_flags(name, false, false);
            },
            ChangeKind::InstallByHand => {
                self.settings.mod_links.note_installed(LocalModManifest::manual(name));
            },
        }
    }

    /// Starts a change to a mod where the mods root exists, and fails where
    /// it does not. A change that takes no action is complete at once, and
    /// is noted in the catalog.
    fn start_change(&mut self, root_exists: bool, started: (ModChange, Action)) -> (r: Result<
        (ModChange, Action),
        EngineError,
    >)
        ensures
            r is Ok <==> root_exists,
            r matches Ok(c) ==> c.0@ == started.0@ && c.1@ == started.1@ && final(self)@ == (
            AppView {
                settings: with_catalog(
                    old(self)@.settings,
                    catalog_after_change(old(self)@.settings.mod_links, false, started.0@),
                ),
                ..old(self)@
            }),
            r matches Err(e) ==> e@ == missing_root(
                started.0@.name,
                old(self)@.settings.mods_path,
            ) && final(self)@ == old(self)@,
    {
        let (change, first) = started;
        if !root_exists {
            return Err(
                EngineError::new(
                    ErrorKind::Filesystem,
                    change.name(),
                    self.settings.mods_path.as_str(),
                ),
            );
        }
        if change.is_complete() {
            self.note_change(change.kind(), change.name());
        }
        Ok((change, first))
    }

    /// Starts enabling a mod. `root_exists` is whether the mods root
    /// exists, `seen` what the disk shows for the mod. Without a mods root
    /// the command fails and changes nothing. Else it returns the change
    /// and the first action to carry out: the folder of the mod is moved
    /// out of `Disabled` where it lies there. Where there is nothing to do
    /// on disk, the change is complete at once and the records of the mod
    /// are flagged as enabled; else they are flagged by the step that
    /// completes the change.
    pub fn enable_mod(&mut self, mod_name: &str, root_exists: bool, seen: Presence) -> (r: Result<
        (ModChange, Action),
        EngineError,
    >)
        ensures
            r is Ok <==> root_exists,
            r matches Ok(c) ==> {
                &&& c.0@ == change_start(
                    ChangeKind::Enable,
                    mod_name@,
                    enable_plan(old(self)@.settings.mods_path, mod_name@, seen),
                    seen,
                )
                &&& c.0@.inv()
                &&& c.1@ == c.0@.current()
                &&& final(self)@ == (AppView {
                    settings: with_catalog(
                        old(self)@.settings,
                        catalog_after_change(old(self)@.settings.mod_links, false, c.0@),
                    ),
                    ..old(self)@
                })
            },
            r matches Err(e) ==> e@ == missing_root(mod_name@, old(self)@.settings.mods_path)
                && final(self)@ == old(self)@,
    {
        let started = ModChange::enable(self.settings.mods_path.as_str(), mod_name, seen);
        self.start_change(root_exists, started)
    }

    /// Starts disabling a mod. Without a mods root the command fails and
    /// changes nothing. Else it returns the change and the first action to
    /// carry out: the `Disabled` folder is created, and the folder of the
    /// mod is moved into it where it lies under the mods root. The records
    /// of the mod are flagged as not enabled by the step that completes the
    /// change.
    pub fn disable_mod(&mut self, mod_name: &str, root_exists: bool, seen: Presence) -> (r:
        Result<(ModChange, Action), EngineError>)
        ensures
            r is Ok <==> root_exists,
            r matches Ok(c) ==> {
                &&& c.0@ == change_start(
                    ChangeKind::Disable,
                    mod_name@,
                    disable_plan(old(self)@.settings.mods_path, mod_name@, seen),
                    seen,
                )
                &&& c.0@.inv()
                &&& c.1@ == c.0@.current()
                &&& final(self)@ == (AppView {
                    settings: with_catalog(
                        old(self)@.settings,
                        catalog_after_change(old(self)@.settings.mod_links, false, c.0@),
                    ),
                    ..old(self)@
                })
            },
            r matches Err(e) ==> e@ == missing_root(mod_name@, old(self)@.settings.mods_path)
                && final(self)@ == old(self)@,
    {
        let started = ModChange::disable(self.settings.mods_path.as_str(), mod_name, seen);
        self.start_change(root_exists, started)
    }

    /// Starts removing a mod. Without a mods root the command fails and
    /// changes nothing. Else it returns the change and the first action to
    /// carry out: each folder of the mod that exists is removed. Where
    /// neither exists, the change is complete at once and the records of
    /// the mod are flagged as neither installed nor enabled; else they are
    /// flagged by the step that completes the change. The records stay in
    /// the catalog.
    pub fn uninstall_mod(&mut self, mod_name: &str, root_exists: bool, seen: Presence) -> (r:
        Result<(ModChange, Action), EngineError>)
        ensures
            r is Ok <==> root_exists,
            r matches Ok(c) ==> {
                &&& c.0@ == change_start(
                    ChangeKind::Uninstall,
                    mod_name@,
                    uninstall_plan(old(self)@.settings.mods_path, mod_name@, seen),
                    seen,
                )
                &&& c.0@.inv()
                &&& c.1@ == c.0@.current()
                &&& final(self)@ == (AppView {
                    settings: with_catalog(
                        old(self)@.settings,
                        catalog_after_change(old(self)@.settings.mod_links, false, c.0@),
                    ),
                    ..old(self)@
                })
            },
            r matches Err(e) ==> e@ == missing_root(mod_name@, old(self)@.settings.mods_path)
                && final(self)@ == old(self)@,
    {
        let started = ModChange::uninstall(self.settings.mods_path.as_str(), mod_name, seen);
        self.start_change(root_exists, started)
    }

    /// Takes a change one step on: hands in whether the action that was to
    /// be carried out succeeded, and returns the action that is next. The
    /// first action that fails ends the change and leaves the catalog as it
    /// was; the step that completes the change notes it in the catalog.
    /// Once a removal is complete, the disk shows the mod as not installed.
    pub fn change_step(&mut self, change: &mut ModChange, ok: bool) -> (a: Action)
        ensures
            (final(change)@, a@) == old(change)@.next(ok),
            old(change)@.inv() ==> final(change)@.inv(),
            final(self)@ == (AppView {
                settings: with_catalog(
                    old(self)@.settings,
                    catalog_after_change(
                        old(self)@.settings.mod_links,
                        old(change)@.complete(),
                        final(change)@,
                    ),
                ),
                ..old(self)@
            }),
            !ok ==> final(self)@ == old(self)@,
            final(change)@.error is Some ==> final(self)@ == old(self)@,
            old(change)@.inv() && final(change)@.complete() && final(change)@.plan
                == uninstall_plan(
                old(self)@.settings.mods_path,
                final(change)@.name,
                final(change)@.start,
            ) ==> !final(change)@.seen().installed(),
    {
        let was_complete = change.is_complete();
        let a = change.report(ok);
        proof {
            lemma_change_inv(old(change)@, ok);
            if old(change)@.inv() && change@.complete() {
                lemma_change_outcome(change@, old(self)@.settings.mods_path);
            }
        }
        if change.is_complete() && !was_complete {
            self.note_change(change.kind(), change.name());
        }
        a
    }

    /// Starts the installation of a mod: the percentage goes back to 0, and
    /// the first thing to do is to look at the disk. With `verify`, the
    /// digest of the download is checked against `mod_hash` where that is
    /// not empty.
    pub fn install_mod(
        &mut self,
        mod_name: &str,
        mod_version: &str,
        mod_hash: &str,
        mod_link: &str,
        verify: bool,
    ) -> (r: (InstallJob, Action))
        ensures
            r.0@ == install_start(
                old(self)@.settings.mods_path,
                mod_name@,
                mod_version@,
                mod_hash@,
                mod_link@,
                verify,
            ),
            r.0@.inv(),
            r.1@ == ActionView::Probe,
            final(self)@ == (AppView { current_download_progress: 0, ..old(self)@ }),
    {
        self.current_download_progress = 0;
        InstallJob::begin(
            self.settings.mods_path.as_str(),
            mod_name,
            mod_version,
            mod_hash,
            mod_link,
            verify,
        )
    }

    /// Takes the installation one step on: hands the event to the job and
    /// returns the action that is next. The percentage follows that of the
    /// job; with the step that makes the job succeed, the mod is noted in
    /// the catalog as installed and enabled. When the job has succeeded, the
    /// disk shows the mod as installed and the percentage stands at 100; and
    /// where the mod was downloaded, it is not out of date against the
    /// version that was installed.
    pub fn install_step(&mut self, job: &mut InstallJob, event: InstallEvent) -> (a: Action)
        ensures
            (final(job)@, a@) == old(job)@.next(event@),
            old(job)@.inv() ==> final(job)@.inv(),
            old(job)@.inv() && final(job)@.step == InstallStep::Done ==> final(job)@.seen.installed()
                && final(self)@.current_download_progress == 100,
            final(job)@.step == InstallStep::Done && old(job)@.step != InstallStep::Done
                && !found_in_place(old(job)@.step) ==> !out_of_date(
                final(self)@.settings.mod_links,
                final(job)@.name,
                final(job)@.version,
            ),
            final(self)@ == (AppView {
                current_download_progress: final(job)@.progress,
                settings: with_catalog(
                    old(self)@.settings,
                    catalog_after_step(old(self)@.settings.mod_links, old(job)@, final(job)@),
                ),
            }),
    {
        let before = job.step();
        let a = job.advance(event);
        self.current_download_progress = job.progress();
        if job.is_done() && before != InstallStep::Done {
            if before == InstallStep::Probing || before == InstallStep::Enabling {
                self.settings.mod_links.note_installed(job.record());
            } else {
                proof {
                    crate::catalog::lemma_with_downloaded(
                        old(self)@.settings.mod_links,
                        job.record_view(),
                    );
                }
                self.settings.mod_links.note_downloaded(job.record());
            }
        }
        a
    }

    /// Starts putting the file at `source`, named `file_name`, in place as
    /// a mod: returns the change and the first action to carry out. The
    /// mod is noted in the catalog as installed and enabled by the step
    /// that completes the change. A file without an extension cannot be
    /// installed: nothing comes back. The catalog is not changed by this
    /// call.
    pub fn manually_install_mod(&self, source: &str, file_name: &str) -> (r: Option<
        (ModChange, Action),
    >)
        ensures
            r is Some <==> manual_plan(self@.settings.mods_path, source@, file_name@) is Some,
            r matches Some(c) ==> {
                &&& c.0@ == change_start(
                    ChangeKind::InstallByHand,
                    manual_name_of(file_name@),
                    manual_plan(self@.settings.mods_path, source@, file_name@)->0,
                    Presence { in_mods: false, in_disabled: false },
                )
                &&& c.0@.inv()
                &&& !c.0@.complete()
                &&& c.1@ == c.0@.current()
            },
    {
        match plan_manual_install(self.settings.mods_path.as_str(), source, file_name) {
            None => None,
            Some(plan) => {
                let ManualInstall { name, actions } = plan;
                Some(
                    ModChange::begin(
                        ChangeKind::InstallByHand,
                        name.as_str(),
                        actions,
                        Presence::absent(),
                    ),
                )
            },
        }
    }

    /// Merges the remote list into the settings. `root_exists` is whether
    /// the mods root exists; `seen[i]` is what the disk shows for record `i`
    /// of the list. The catalog of the settings is replaced, in one step, by
    /// the remote records flagged as the disk shows them; what comes back is
    /// that catalog, the names that are new, and the names of the mods that
    /// were held in another version. Without a mods root, or with another
    /// number of sightings than records, the command fails and changes
    /// nothing.
    pub fn fetch_mod_list(
        &mut self,
        remote: &RemoteModLinks,
        root_exists: bool,
        seen: &Vec<Presence>,
    ) -> (r: Result<Reconciled, EngineError>)
        ensures
            r is Ok <==> root_exists && seen@.len() == remote@.len(),
            r matches Err(e) ==> e@ == missing_root(
                Seq::empty(),
                old(self)@.settings.mods_path,
            ) && final(self)@ == old(self)@,
            r matches Ok(m) ==> {
                &&& final(self)@ == (AppView {
                    settings: with_catalog(
                        old(self)@.settings,
                        catalog_after_merge(old(self)@.settings.mod_links, remote@, seen@),
                    ),
                    ..old(self)@
                })
                &&& m.catalog@ == sighted(remote@, seen@)
                &&& m.catalog@ == final(self)@.settings.mod_links
                &&& m.new_mods.deep_view() == new_names(old(self)@.settings.mod_links, remote@)
                &&& m.outdated_mods.deep_view() == outdated_names(
                    old(self)@.settings.mod_links,
                    remote@,
                )
            },
    {
        let merged = if root_exists {
            remote.merge_with_disk(seen)
        } else {
            None
        };
        match merged {
            None => {
                proof {
                    reveal_strlit("");
                    assert(""@ =~= Seq::<char>::empty());
                }
                Err(EngineError::new(ErrorKind::Filesystem, "", self.settings.mods_path.as_str()))
            },
            Some(merged) => {
                let new_mods = remote.names_new_to(&self.settings.mod_links);
                let outdated_mods = remote.names_outdated_in(&self.settings.mod_links);
                let catalog = merged.clone();
                self.settings.mod_links = merged;
                Ok(Reconciled { catalog, new_mods, outdated_mods })
            },
        }
    }

    /// The records of the mods that the disk shows as installed. `seen[i]`
    /// is what the disk shows for record `i` of the catalog.
    pub fn fetch_installed_mods(&self, seen: &Vec<Presence>) -> (r: Option<Vec<LocalModManifest>>)
        ensures
            r is Some <==> seen@.len() == self@.settings.mod_links.len(),
            r matches Some(v) ==> records(v@) == records_seen(
                self@.settings.mod_links,
                seen@,
                false,
                self@.settings.mod_links.len(),
            ),
    {
        self.settings.mod_links.select_seen(seen, false)
    }

    /// The records of the mods that the disk shows as enabled. `seen[i]` is
    /// what the disk shows for record `i` of the catalog.
    pub fn fetch_enabled_mods(&self, seen: &Vec<Presence>) -> (r: Option<Vec<LocalModManifest>>)
        ensures
            r is Some <==> seen@.len() == self@.settings.mod_links.len(),
            r matches Some(v) ==> records(v@) == records_seen(
                self@.settings.mod_links,
                seen@,
                true,
                self@.settings.mod_links.len(),
            ),
    {
        self.settings.mod_links.select_seen(seen, true)
    }
}

} // verus!

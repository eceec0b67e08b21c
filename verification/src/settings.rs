//! The settings: all that is kept from one run to the next.

use crate::mod_links::local::{LocalModLinks, ManifestView};
use crate::profile::{copy_profiles, profile_views, Profile, ProfileView};
use crate::text::same_text;
use vstd::prelude::*;
use vstd::string::*;

verus! {

/// The settings.
#[derive(Debug, PartialEq)]
pub struct Settings {
    /// The name of the profile that is in use; empty when none is.
    pub current_profile: String,
    pub language: String,
    /// The folder under which the mods lie.
    pub mods_path: String,
    pub mod_links: LocalModLinks,
    pub profiles: Vec<Profile>,
    pub theme: String,
    /// The path of the style sheet of the theme; empty when it has none.
    pub theme_path: String,
}

/// The `Settings` as a value of the contracts.
pub struct SettingsView {
    pub current_profile: Seq<char>,
    pub language: Seq<char>,
    pub mods_path: Seq<char>,
    pub mod_links: Seq<ManifestView>,
    pub profiles: Seq<ProfileView>,
    pub theme: Seq<char>,
    pub theme_path: Seq<char>,
}

impl View for Settings {
    type V = SettingsView;

    open spec fn view(&self) -> SettingsView {
        SettingsView {
            current_profile: self.current_profile@,
            language: self.language@,
            mods_path: self.mods_path@,
            mod_links: self.mod_links@,
            profiles: profile_views(self.profiles@),
            theme: self.theme@,
            theme_path: self.theme_path@,
        }
    }
}

impl Clone for Settings {
    fn clone(&self) -> (r: Self)
        ensures
            r@ == self@,
    {
        Settings {
            current_profile: self.current_profile.clone(),
            language: self.language.clone(),
            mods_path: self.mods_path.clone(),
            mod_links: self.mod_links.clone(),
            profiles: copy_profiles(&self.profiles),
            theme: self.theme.clone(),
            theme_path: self.theme_path.clone(),
        }
    }
}

/// The settings of a first run: no profile in use, English, no mods folder
/// yet, an empty catalog, no profiles, the dark theme without a style sheet.
pub open spec fn first_run_settings() -> SettingsView {
    SettingsView {
        current_profile: Seq::empty(),
        language: "English"@,
        mods_path: Seq::empty(),
        mod_links: Seq::empty(),
        profiles: Seq::empty(),
        theme: "Dark"@,
        theme_path: Seq::empty(),
    }
}

impl Default for Settings {
    fn default() -> (r: Self)
        ensures
            r@ == first_run_settings(),
    {
        let r = Settings {
            current_profile: String::new(),
            mods_path: String::new(),
            language: "English".to_owned(),
            mod_links: LocalModLinks::default(),
            profiles: Vec::new(),
            theme: "Dark".to_owned(),
            theme_path: String::new(),
        };
        assert(r@.profiles =~= Seq::<ProfileView>::empty());
        r
    }
}

impl Settings {
    /// Whether these are still the settings of a first run.
    pub fn is_default(&self) -> (r: bool)
        ensures
            r == (self@ == first_run_settings()),
    {
        let r = self.current_profile.as_str().is_empty() && same_text(
            self.language.as_str(),
            "English",
        ) && self.mods_path.as_str().is_empty() && self.mod_links.manifests.len() == 0
            && self.profiles.len() == 0 && same_text(self.theme.as_str(), "Dark")
            && self.theme_path.as_str().is_empty();
        proof {
            if r {
                assert(self@.current_profile =~= Seq::<char>::empty());
                assert(self@.mods_path =~= Seq::<char>::empty());
                assert(self@.theme_path =~= Seq::<char>::empty());
                assert(self@.mod_links =~= Seq::<ManifestView>::empty());
                assert(self@.profiles =~= Seq::<ProfileView>::empty());
            }
        }
        r
    }
}

} // verus!

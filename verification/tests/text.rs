use butterfly::detect::{first_present, join, last_present, mods_root, static_paths, suffixes};
use butterfly::error::ErrorKind;
use butterfly::lifecycle::Action;
use butterfly::manual::{
    find_readme, global_settings_name, has_library, is_readme, plan_manual_install, FolderListing,
    ManualMod,
};
use butterfly::mod_links::api::ApiLinks;
use butterfly::mod_links::local::{LocalModLinks, LocalModManifest, ModTags};
use butterfly::modding_api::{
    assembly, check_api_installed, modded_backup, plan_api_file, toggle_api, vanilla_backup,
    ApiToggle,
};
use butterfly::platform::{save_file, Platform};
use butterfly::state::App;
use butterfly::text::{
    copy_texts, file_extension, file_stem, same_text, same_text_ignoring_case, suffix_after_last,
    to_lower_ascii,
};

fn names(v: &[&str]) -> Vec<String> {
    v.iter().map(|s| s.to_string()).collect()
}

#[test]
fn texts_are_compared_character_for_character() {
    assert!(same_text("QoL", "QoL"));
    assert!(!same_text("QoL", "qol"));
    assert!(!same_text("QoL", "QoL "));
    assert!(same_text("", ""));
    assert_eq!(copy_texts(&names(&["a", "", "c"])), names(&["a", "", "c"]));
}

#[test]
fn case_is_folded_for_ascii_letters_only() {
    assert_eq!(to_lower_ascii('A'), 'a');
    assert_eq!(to_lower_ascii('Z'), 'z');
    assert_eq!(to_lower_ascii('a'), 'a');
    assert_eq!(to_lower_ascii('@'), '@');
    assert_eq!(to_lower_ascii('['), '[');
    assert_eq!(to_lower_ascii('\u{c9}'), '\u{c9}');
    assert!(same_text_ignoring_case("ABCDEF0123", "abcdef0123"));
    assert!(same_text_ignoring_case("", ""));
    assert!(!same_text_ignoring_case("abc", "abcd"));
    assert!(!same_text_ignoring_case("abc", "abd"));
    assert!(!same_text_ignoring_case("\u{c9}", "\u{e9}"));
}

#[test]
fn suffixes_stems_and_extensions() {
    assert_eq!(suffix_after_last("a/b/c", '/'), "c");
    assert_eq!(suffix_after_last("abc", '/'), "abc");
    assert_eq!(suffix_after_last("abc/", '/'), "");
    assert_eq!(file_extension("QoL.dll"), Some("dll".to_string()));
    assert_eq!(file_extension("a.tar.gz"), Some("gz".to_string()));
    assert_eq!(file_extension("QoL"), None);
    assert_eq!(file_extension(".hidden"), None);
    assert_eq!(file_extension("ends."), Some(String::new()));
    assert_eq!(file_stem("QoL.dll"), "QoL");
    assert_eq!(file_stem("a.tar.gz"), "a.tar");
    assert_eq!(file_stem("QoL"), "QoL");
    assert_eq!(file_stem(".hidden"), ".hidden");
}

#[test]
fn the_empty_api_list() {
    let links = ApiLinks::new();
    assert_eq!(links.manifest.version, "");
    assert_eq!(links.manifest.links.linux.link, "");
    assert_eq!(links.manifest.links.linux.sha256, "");
    assert_eq!(links.manifest.links.mac.link, "");
    assert_eq!(links.manifest.links.windows.sha256, "");
    assert!(links.manifest.files.files.is_empty());
    assert!(LocalModLinks::default().manifests.is_empty());
}

#[test]
fn toggling_the_api() {
    assert!(check_api_installed(true, false));
    assert!(!check_api_installed(true, true));
    assert!(!check_api_installed(false, false));
    assert!(!check_api_installed(false, true));
    assert_eq!(toggle_api(true, false), Some(ApiToggle::SwitchOff));
    assert_eq!(toggle_api(false, true), Some(ApiToggle::SwitchOn));
    assert_eq!(toggle_api(false, false), Some(ApiToggle::Install));
    assert_eq!(toggle_api(true, true), None);
    assert!(!ApiToggle::SwitchOff.api_enabled());
    assert!(ApiToggle::SwitchOn.api_enabled());
    assert!(ApiToggle::Install.api_enabled());
    assert_eq!(assembly("/g/Mods"), "/g/Mods/../Assembly-CSharp.dll");
    assert_eq!(
        ApiToggle::SwitchOff.plan("/g/Mods"),
        vec![
            Action::Rename { from: assembly("/g/Mods"), to: modded_backup("/g/Mods") },
            Action::Rename { from: vanilla_backup("/g/Mods"), to: assembly("/g/Mods") },
        ]
    );
    assert_eq!(
        ApiToggle::SwitchOn.plan("/g/Mods"),
        vec![
            Action::Rename { from: assembly("/g/Mods"), to: vanilla_backup("/g/Mods") },
            Action::Rename { from: modded_backup("/g/Mods"), to: assembly("/g/Mods") },
        ]
    );
    assert!(ApiToggle::Install.plan("/g/Mods").is_empty());
}

#[test]
fn bringing_the_files_of_the_api_into_place() {
    let mv = |f: &str| Action::Rename { from: format!("/t/{}", f), to: format!("/g/Mods/../{}", f) };
    assert_eq!(plan_api_file("/g/Mods", "/t", "MMHOOK.dll", false, false), vec![mv("MMHOOK.dll")]);
    assert_eq!(plan_api_file("/g/Mods", "/t", "MMHOOK.dll", false, true), vec![mv("MMHOOK.dll")]);
    assert_eq!(plan_api_file("/g/Mods", "/t", "MMHOOK.dll", true, false), vec![mv("MMHOOK.dll")]);
    assert!(plan_api_file("/g/Mods", "/t", "MMHOOK.dll", true, true).is_empty());
    assert!(plan_api_file("/g/Mods", "/t", "Assembly-CSharp.dll", true, true).is_empty());
    assert_eq!(
        plan_api_file("/g/Mods", "/t", "Assembly-CSharp.dll", true, false),
        vec![
            Action::Rename { from: assembly("/g/Mods"), to: vanilla_backup("/g/Mods") },
            mv("Assembly-CSharp.dll"),
        ]
    );
    assert_eq!(
        plan_api_file("/g/Mods", "/t", "Assembly-CSharp.dll", false, false),
        vec![mv("Assembly-CSharp.dll")]
    );
}

#[test]
fn what_differs_between_systems() {
    assert_eq!(Platform::named("linux"), Some(Platform::Linux));
    assert_eq!(Platform::named("mac"), Some(Platform::Mac));
    assert_eq!(Platform::named("windows"), Some(Platform::Windows));
    assert_eq!(Platform::named("Linux"), None);
    assert_eq!(Platform::named("freebsd"), None);
    assert_eq!(
        Platform::Linux.api_url(),
        "https://github.com/hk-modding/api/releases/latest/download/ModdingApiLinux.zip"
    );
    assert_eq!(
        Platform::Windows.api_url(),
        "https://github.com/hk-modding/api/releases/latest/download/ModdingApiWin.zip"
    );
    assert_eq!(Platform::Linux.saves_dir("/c", "/d"), "/c/unity3d/Team Cherry/Hollow Knight");
    assert_eq!(Platform::Mac.saves_dir("/c", "/d"), "/d/unity.Team Cherry.Hollow Knight");
    assert_eq!(
        Platform::Windows.saves_dir("/c", "/d"),
        "/d/../LocalLow/Team Cherry/Hollow Knight"
    );
    assert_eq!(save_file("/saves", "3"), "/saves/user3.dat");
}

#[test]
fn finding_the_game() {
    assert_eq!(first_present(&vec![false, true, true]), Some(1));
    assert_eq!(first_present(&vec![false, false]), None);
    assert_eq!(first_present(&vec![]), None);
    assert_eq!(last_present(&vec![true, true, false]), Some(1));
    assert_eq!(last_present(&vec![false]), None);
    assert_eq!(static_paths().len(), 6);
    assert_eq!(static_paths()[0], "Program Files/Steam/steamapps/common/Hollow Knight");
    assert_eq!(static_paths()[5], "GOG Galaxy/Games/Hollow Knight");
    assert_eq!(
        suffixes(),
        names(&[
            "Hollow Knight_Data/Managed",
            "hollow_knight_Data/Managed",
            "Contents/Resources/Data/Managed"
        ])
    );
    assert_eq!(join("/data", "Steam"), "/data/Steam");
    assert_eq!(
        mods_root("/data/Steam/steamapps/common/Hollow Knight", "hollow_knight_Data/Managed"),
        "/data/Steam/steamapps/common/Hollow Knight/hollow_knight_Data/Managed/Mods"
    );
}

#[test]
fn installing_a_mod_by_hand() {
    let mut app = App::default();
    app.settings.mods_path = "/m".to_string();
    let (mut change, first) = app.manually_install_mod("/home/u/Cool.dll", "Cool.dll").unwrap();
    assert_eq!(change.name(), "Cool");
    assert_eq!(first, Action::CreateModDir { path: "/m/Cool".to_string() });
    assert!(app.settings.mod_links.manifests.is_empty());
    let second = app.change_step(&mut change, true);
    assert_eq!(
        second,
        Action::CopyFile { from: "/home/u/Cool.dll".to_string(), to: "/m/Cool/Cool.dll".to_string() }
    );
    assert!(app.settings.mod_links.manifests.is_empty());
    assert_eq!(app.change_step(&mut change, true), Action::Halt);
    assert!(change.is_complete());
    assert!(change.seen().is_enabled());
    let r = &app.settings.mod_links.manifests[0];
    assert_eq!(r.name, "Cool");
    assert_eq!(r.description, "No description available.");
    assert_eq!(r.version, "Unknown");
    assert_eq!(r.tags, Some(ModTags { tags: vec![] }));
    assert!(r.installed && r.enabled);
    assert_eq!(*r, LocalModManifest::manual("Cool"));

    let (mut change, _) = app.manually_install_mod("/home/u/Cool.zip", "Cool.zip").unwrap();
    let second = app.change_step(&mut change, true);
    assert_eq!(
        second,
        Action::Extract { archive: "/home/u/Cool.zip".to_string(), into: "/m/Cool".to_string() }
    );
    app.change_step(&mut change, true);
    assert_eq!(app.settings.mod_links.manifests.len(), 1);

    let (mut change, _) = app.manually_install_mod("/home/u/New.zip", "New.zip").unwrap();
    app.change_step(&mut change, true);
    assert_eq!(app.change_step(&mut change, false), Action::Halt);
    assert_eq!(change.error().unwrap().kind, ErrorKind::Extract);
    assert_eq!(app.settings.mod_links.manifests.len(), 1);

    assert_eq!(plan_manual_install("/m", "/x/notes.txt", "notes.txt").unwrap().actions.len(), 1);
    assert_eq!(plan_manual_install("/m", "/x/Cool", "Cool"), None);
    assert_eq!(app.manually_install_mod("/x/Cool", "Cool"), None);
    assert_eq!(app.settings.mod_links.manifests.len(), 1);
}

#[test]
fn telling_the_mods_that_were_installed_by_hand() {
    let mut catalog = LocalModLinks::default();
    catalog.note_installed(LocalModManifest::downloaded("Known", "1", "", ""));
    let folder = |name: &str, files: &[&str], disabled: bool| FolderListing {
        name: name.to_string(),
        files: names(files),
        disabled,
    };
    let folders = vec![
        folder("Known", &["Known.dll"], false),
        folder("Mine", &["readme.md", "Mine.dll"], false),
        folder("notes.txt", &["x.dll"], false),
        folder("Empty", &["readme.md"], false),
        folder("Parked", &["Parked.dll"], true),
    ];
    assert_eq!(
        catalog.fetch_manually_installed_mods(&folders),
        vec![
            ManualMod { name: "Mine".to_string(), enabled: true },
            ManualMod { name: "Parked".to_string(), enabled: false },
        ]
    );
    assert!(has_library(&names(&["a.txt", "b.dll"])));
    assert!(!has_library(&names(&["a.txt", "dll", ".dll"])));
}

#[test]
fn finding_the_read_me_and_the_global_settings() {
    assert!(is_readme("README.md"));
    assert!(is_readme("ReadMe.txt"));
    assert!(!is_readme("README"));
    assert!(!is_readme("README.MD"));
    assert!(!is_readme("readme.rst"));
    assert!(!is_readme("read_me.md"));
    assert_eq!(find_readme(&names(&["QoL.dll", "readme.txt", "README.md"])), Some(1));
    assert_eq!(find_readme(&names(&["QoL.dll", "LICENSE"])), None);
    assert_eq!(global_settings_name("QoL.dll"), Some("QoL.GlobalSettings.json".to_string()));
    assert_eq!(global_settings_name("QoL.pdb"), None);
    assert_eq!(global_settings_name("QoL"), None);
}

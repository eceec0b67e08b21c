use butterfly::error::{EngineError, ErrorKind};
use butterfly::profile::Profile;
use butterfly::settings::Settings;
use butterfly::state::App;

fn names(v: &[&str]) -> Vec<String> {
    v.iter().map(|s| s.to_string()).collect()
}

#[test]
fn the_settings_of_a_first_run() {
    let s = Settings::default();
    assert_eq!(s.current_profile, "");
    assert_eq!(s.language, "English");
    assert_eq!(s.mods_path, "");
    assert!(s.mod_links.manifests.is_empty());
    assert!(s.profiles.is_empty());
    assert_eq!(s.theme, "Dark");
    assert_eq!(s.theme_path, "");
    assert!(s.is_default());
    let mut changed = s.clone();
    assert_eq!(changed, s);
    changed.mods_path = "/m".to_string();
    assert!(!changed.is_default());
    let app = App::default();
    assert_eq!(app.current_download_progress, 0);
    assert_eq!(app.settings, s);
}

#[test]
fn creating_and_setting_a_profile() {
    let mut app = App::default();
    assert!(app.create_profile("Speedrun".to_string(), names(&["QoL", "Practice"])));
    assert_eq!(app.set_profile("Speedrun".to_string()), Ok(()));
    let (profiles, active) = app.fetch_profiles();
    assert_eq!(
        profiles,
        vec![Profile { name: "Speedrun".to_string(), mods: names(&["QoL", "Practice"]) }]
    );
    assert_eq!(active, "Speedrun");
    assert_eq!(app.fetch_current_profile(), "Speedrun");
}

#[test]
fn a_profile_name_is_taken_once() {
    let mut app = App::default();
    assert!(app.create_profile("A".to_string(), names(&["x"])));
    assert!(!app.create_profile("A".to_string(), names(&["y"])));
    assert!(app.create_profile("a".to_string(), names(&[])));
    let (profiles, _) = app.fetch_profiles();
    assert_eq!(profiles.len(), 2);
    assert_eq!(profiles[0].mods, names(&["x"]));
}

#[test]
fn setting_an_unknown_profile_is_not_found() {
    let mut app = App::default();
    app.create_profile("A".to_string(), names(&[]));
    app.set_profile("A".to_string()).unwrap();
    let e = app.set_profile("B".to_string()).unwrap_err();
    assert_eq!(e, EngineError { kind: ErrorKind::NotFound, name: "B".to_string(), place: String::new() });
    assert_eq!(e.message(), "not found: 'B' []");
    assert_eq!(app.fetch_current_profile(), "A");
    assert_eq!(app.set_profile(String::new()), Ok(()));
    assert_eq!(app.fetch_current_profile(), "");
}

#[test]
fn deleting_a_profile() {
    let mut app = App::default();
    for n in ["A", "B", "C"] {
        app.create_profile(n.to_string(), names(&[n]));
    }
    assert_eq!(app.delete_profile("B"), Ok(()));
    let (profiles, _) = app.fetch_profiles();
    assert_eq!(profiles.iter().map(|p| p.name.clone()).collect::<Vec<_>>(), names(&["A", "C"]));
    let before = app.settings.clone();
    assert_eq!(app.delete_profile("B").unwrap_err().kind, ErrorKind::NotFound);
    assert_eq!(app.settings, before);
}

#[test]
fn exporting_profiles_goes_by_the_names_asked_for() {
    let mut app = App::default();
    for n in ["A", "B", "C"] {
        app.create_profile(n.to_string(), names(&[n]));
    }
    let picked = app.export_profiles(&names(&["C", "X", "A", "C"]));
    assert_eq!(picked.iter().map(|p| p.name.clone()).collect::<Vec<_>>(), names(&["C", "A", "C"]));
    assert!(app.export_profiles(&names(&[])).is_empty());
}

#[test]
fn importing_profiles_leaves_out_names_that_are_taken() {
    let mut app = App::default();
    app.create_profile("A".to_string(), names(&["mine"]));
    let imported = vec![
        Profile { name: "B".to_string(), mods: names(&["1"]) },
        Profile { name: "A".to_string(), mods: names(&["theirs"]) },
        Profile { name: "B".to_string(), mods: names(&["2"]) },
        Profile { name: "C".to_string(), mods: names(&[]) },
    ];
    assert_eq!(app.import_profiles(&imported), 2);
    let (profiles, _) = app.fetch_profiles();
    assert_eq!(profiles.iter().map(|p| p.name.clone()).collect::<Vec<_>>(), names(&["A", "B", "C"]));
    assert_eq!(profiles[0].mods, names(&["mine"]));
    assert_eq!(profiles[1].mods, names(&["1"]));
}

#[test]
fn language_and_theme_are_kept() {
    let mut app = App::default();
    assert_eq!(app.fetch_language(), "English");
    app.set_language("Deutsch".to_string());
    app.set_theme("Light".to_string());
    assert_eq!(app.fetch_language(), "Deutsch");
    assert_eq!(app.fetch_theme(), ("Light".to_string(), String::new()));
}

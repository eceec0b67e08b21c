use butterfly::catalog::Reconciled;
use butterfly::change::{ChangeKind, ModChange};
use butterfly::error::{EngineError, ErrorKind};
use butterfly::inspect::{disabled_dir, disabled_mod_dir, mod_dir, Presence};
use butterfly::lifecycle::{plan_disable, plan_enable, plan_uninstall, Action};
use butterfly::mod_links::local::{LocalModManifest, ModDependencies, ModLink};
use butterfly::mod_links::remote::{RemoteModLinks, RemoteModManifest};
use butterfly::state::App;

const ROOT: &str = "/games/hk/Mods";

fn app_at_root() -> App {
    let mut app = App::default();
    app.settings.mods_path = ROOT.to_string();
    app
}

fn remote(name: &str, version: &str) -> RemoteModManifest {
    RemoteModManifest {
        name: name.to_string(),
        description: format!("about {}", name),
        version: version.to_string(),
        link: ModLink { sha256: "ab12".to_string(), link: format!("https://example/{}.zip", name) },
        dependencies: ModDependencies { dependencies: vec!["Core".to_string()] },
        repository: "https://example/repo".to_string(),
        tags: None,
        enabled: false,
        installed: false,
    }
}

#[test]
fn presence_tells_installed_and_enabled() {
    let enabled = Presence::new(true, false);
    let disabled = Presence::new(false, true);
    let both = Presence::new(true, true);
    let absent = Presence::absent();
    assert!(enabled.is_installed() && enabled.is_enabled());
    assert!(disabled.is_installed() && !disabled.is_enabled());
    assert!(both.is_installed() && !both.is_enabled());
    assert!(!absent.is_installed() && !absent.is_enabled());
}

#[test]
fn paths_are_built_with_slashes() {
    assert_eq!(mod_dir(ROOT, "QoL"), "/games/hk/Mods/QoL");
    assert_eq!(disabled_dir(ROOT), "/games/hk/Mods/Disabled");
    assert_eq!(disabled_mod_dir(ROOT, "QoL"), "/games/hk/Mods/Disabled/QoL");
}

/// Carries a change out as the disk would: action `i` succeeds unless
/// `outcomes[i]` says otherwise. Returns the change and the actions that
/// were asked for.
fn run(app: &mut App, started: (ModChange, Action), outcomes: &[bool]) -> (ModChange, Vec<Action>) {
    let (mut change, mut action) = started;
    let mut asked = vec![];
    while action != Action::Halt {
        let ok = outcomes.get(asked.len()).copied().unwrap_or(true);
        asked.push(action);
        action = app.change_step(&mut change, ok);
    }
    (change, asked)
}

#[test]
fn disable_moves_an_enabled_mod_into_disabled() {
    let mut app = app_at_root();
    app.settings.mod_links.note_installed(LocalModManifest::downloaded("QoL", "1.2.0", "", ""));
    let seen = Presence::new(true, false);
    let started = app.disable_mod("QoL", true, seen).unwrap();
    assert!(app.settings.mod_links.manifests[0].enabled);
    let (change, asked) = run(&mut app, started, &[]);
    assert_eq!(
        asked,
        vec![
            Action::CreateDisabledDir { path: "/games/hk/Mods/Disabled".to_string() },
            Action::MoveToDisabled {
                from: "/games/hk/Mods/QoL".to_string(),
                to: "/games/hk/Mods/Disabled/QoL".to_string(),
            },
        ]
    );
    assert_eq!(asked, plan_disable(ROOT, "QoL", seen));
    assert!(change.is_complete() && change.is_over());
    assert_eq!(change.error(), None);
    assert_eq!(change.kind(), ChangeKind::Disable);
    assert_eq!(change.name(), "QoL");
    let after = change.seen();
    assert_eq!(after, seen.apply_all(&asked));
    assert!(!after.is_enabled());
    assert!(after.is_installed());
    assert!(!app.settings.mod_links.manifests[0].enabled);
    assert!(app.settings.mod_links.manifests[0].installed);
}

#[test]
fn a_move_that_fails_leaves_the_record_as_it_was() {
    let mut app = app_at_root();
    app.settings.mod_links.note_installed(LocalModManifest::downloaded("QoL", "1.2.0", "", ""));
    let before = app.settings.clone();
    let seen = Presence::new(true, false);
    let started = app.disable_mod("QoL", true, seen).unwrap();
    let (change, asked) = run(&mut app, started, &[true, false]);
    assert_eq!(asked.len(), 2);
    assert!(change.is_over() && !change.is_complete());
    assert_eq!(
        change.error(),
        Some(EngineError {
            kind: ErrorKind::Filesystem,
            name: "QoL".to_string(),
            place: "/games/hk/Mods/QoL".to_string(),
        })
    );
    assert_eq!(change.seen(), seen);
    assert_eq!(app.settings, before);
    assert!(app.settings.mod_links.manifests[0].enabled);
}

#[test]
fn the_first_action_that_fails_ends_the_change() {
    let mut app = app_at_root();
    app.settings.mod_links.note_installed(LocalModManifest::downloaded("QoL", "1.2.0", "", ""));
    let before = app.settings.clone();
    let (mut change, first) = app.disable_mod("QoL", true, Presence::new(true, false)).unwrap();
    assert_eq!(first, Action::CreateDisabledDir { path: "/games/hk/Mods/Disabled".to_string() });
    assert_eq!(app.change_step(&mut change, false), Action::Halt);
    assert_eq!(change.error().unwrap().place, "/games/hk/Mods/Disabled");
    let failed = change.error();
    assert_eq!(app.change_step(&mut change, true), Action::Halt);
    assert_eq!(app.change_step(&mut change, true), Action::Halt);
    assert_eq!(change.error(), failed);
    assert!(!change.is_complete());
    assert_eq!(app.settings, before);

    let started = app.enable_mod("QoL", true, Presence::new(false, true)).unwrap();
    let (change, _) = run(&mut app, started, &[false]);
    assert_eq!(change.error().unwrap().place, "/games/hk/Mods/Disabled/QoL");
    assert_eq!(app.settings, before);

    let started = app.uninstall_mod("QoL", true, Presence::new(true, true)).unwrap();
    let (change, asked) = run(&mut app, started, &[true, false]);
    assert_eq!(asked.len(), 2);
    assert_eq!(change.error().unwrap().place, "/games/hk/Mods/Disabled/QoL");
    assert_eq!(change.seen(), Presence::new(false, true));
    assert_eq!(app.settings, before);
}

#[test]
fn a_change_that_is_complete_stays_as_it_is() {
    let mut app = app_at_root();
    app.settings.mod_links.note_installed(LocalModManifest::downloaded("QoL", "1.2.0", "", ""));
    let started = app.disable_mod("QoL", true, Presence::new(true, false)).unwrap();
    let (mut change, _) = run(&mut app, started, &[]);
    app.settings.mod_links.manifests[0].enabled = true;
    let after = app.settings.clone();
    assert_eq!(app.change_step(&mut change, true), Action::Halt);
    assert_eq!(app.change_step(&mut change, false), Action::Halt);
    assert!(change.is_complete());
    assert_eq!(app.settings, after);
}

#[test]
fn disable_then_enable_restores_an_enabled_mod() {
    let mut app = app_at_root();
    app.settings.mod_links.note_installed(LocalModManifest::downloaded("QoL", "1.2.0", "", ""));
    let seen = Presence::new(true, false);
    let started = app.disable_mod("QoL", true, seen).unwrap();
    let (disabled, _) = run(&mut app, started, &[]);
    let started = app.enable_mod("QoL", true, disabled.seen()).unwrap();
    let (enabled, asked) = run(&mut app, started, &[]);
    assert_eq!(
        asked,
        vec![Action::MoveToMods {
            from: "/games/hk/Mods/Disabled/QoL".to_string(),
            to: "/games/hk/Mods/QoL".to_string(),
        }]
    );
    assert_eq!(asked, plan_enable(ROOT, "QoL", disabled.seen()));
    assert_eq!(enabled.seen(), seen);
    assert_eq!(enabled.seen().is_enabled(), seen.is_enabled());
    assert!(app.settings.mod_links.manifests[0].enabled);
}

#[test]
fn disable_then_enable_does_nothing_for_a_mod_that_is_not_installed() {
    let mut app = app_at_root();
    let seen = Presence::absent();
    let started = app.disable_mod("Ghost", true, seen).unwrap();
    let (disabled, asked) = run(&mut app, started, &[]);
    assert_eq!(asked, vec![Action::CreateDisabledDir { path: "/games/hk/Mods/Disabled".to_string() }]);
    assert_eq!(disabled.seen(), seen);
    let (enabled, first) = app.enable_mod("Ghost", true, disabled.seen()).unwrap();
    assert_eq!(first, Action::Halt);
    assert!(enabled.is_complete());
    assert_eq!(enabled.seen(), seen);
    assert!(app.settings.mod_links.manifests.is_empty());
}

#[test]
fn disable_then_enable_turns_a_disabled_mod_on() {
    let mut app = app_at_root();
    let seen = Presence::new(false, true);
    let started = app.disable_mod("QoL", true, seen).unwrap();
    let (disabled, _) = run(&mut app, started, &[]);
    assert_eq!(disabled.seen(), seen);
    let started = app.enable_mod("QoL", true, disabled.seen()).unwrap();
    let (enabled, _) = run(&mut app, started, &[]);
    assert!(enabled.seen().is_enabled());
    assert!(!seen.is_enabled());
}

#[test]
fn uninstall_removes_the_folder_and_is_idempotent() {
    let mut app = app_at_root();
    app.settings.mod_links.note_installed(LocalModManifest::downloaded("QoL", "1.2.0", "", ""));
    app.create_profile("Speedrun".to_string(), vec!["QoL".to_string()]);
    let seen = Presence::new(true, false);
    let started = app.uninstall_mod("QoL", true, seen).unwrap();
    let (change, asked) = run(&mut app, started, &[]);
    assert_eq!(asked, vec![Action::RemoveFromMods { path: "/games/hk/Mods/QoL".to_string() }]);
    let after = change.seen();
    assert!(!after.is_installed());
    assert!(!app.settings.mod_links.manifests[0].installed);
    assert!(!app.settings.mod_links.manifests[0].enabled);
    assert_eq!(app.settings.mod_links.manifests[0].version, "1.2.0");
    let settled = app.settings.clone();
    let (again, first) = app.uninstall_mod("QoL", true, after).unwrap();
    assert_eq!(first, Action::Halt);
    assert!(again.is_complete());
    assert_eq!(again.error(), None);
    assert_eq!(again.seen(), after);
    assert_eq!(app.settings, settled);
}

#[test]
fn uninstall_removes_a_disabled_mod_from_disabled() {
    let seen = Presence::new(false, true);
    let plan = plan_uninstall(ROOT, "QoL", seen);
    assert_eq!(
        plan,
        vec![Action::RemoveFromDisabled { path: "/games/hk/Mods/Disabled/QoL".to_string() }]
    );
    assert!(!seen.apply_all(&plan).is_installed());
}

#[test]
fn uninstall_of_a_mod_in_both_places_removes_both_folders() {
    let mut app = app_at_root();
    app.settings.mod_links.note_installed(LocalModManifest::downloaded("QoL", "1.2.0", "", ""));
    let seen = Presence::new(true, true);
    let started = app.uninstall_mod("QoL", true, seen).unwrap();
    let (change, asked) = run(&mut app, started, &[]);
    assert_eq!(
        asked,
        vec![
            Action::RemoveFromMods { path: "/games/hk/Mods/QoL".to_string() },
            Action::RemoveFromDisabled { path: "/games/hk/Mods/Disabled/QoL".to_string() },
        ]
    );
    assert_eq!(asked, plan_uninstall(ROOT, "QoL", seen));
    assert_eq!(change.seen(), Presence::absent());
    assert!(!change.seen().is_installed());
    assert!(!app.settings.mod_links.manifests[0].installed);
    let settled = app.settings.clone();
    let (again, first) = app.uninstall_mod("QoL", true, change.seen()).unwrap();
    assert_eq!(first, Action::Halt);
    assert!(again.is_complete());
    assert_eq!(app.settings, settled);
}

#[test]
fn uninstall_leaves_no_mod_installed_whatever_the_disk_showed() {
    for seen in [
        Presence::absent(),
        Presence::new(true, false),
        Presence::new(false, true),
        Presence::new(true, true),
    ] {
        let plan = plan_uninstall(ROOT, "QoL", seen);
        let after = seen.apply_all(&plan);
        assert_eq!(after, Presence::absent());
        assert!(plan_uninstall(ROOT, "QoL", after).is_empty());
    }
}

#[test]
fn enable_flags_the_record_and_moves_nothing_when_not_disabled() {
    let mut app = app_at_root();
    let mut record = LocalModManifest::downloaded("QoL", "1.2.0", "", "");
    record.enabled = false;
    app.settings.mod_links.manifests.push(record);
    let (change, first) = app.enable_mod("QoL", true, Presence::new(true, false)).unwrap();
    assert_eq!(first, Action::Halt);
    assert!(change.is_complete());
    assert!(app.settings.mod_links.manifests[0].enabled);
}

#[test]
fn commands_fail_fast_without_a_mods_root() {
    let mut app = app_at_root();
    app.settings.mod_links.note_installed(LocalModManifest::downloaded("QoL", "1.2.0", "", ""));
    let before = app.settings.clone();
    let expected = EngineError {
        kind: ErrorKind::Filesystem,
        name: "QoL".to_string(),
        place: ROOT.to_string(),
    };
    assert_eq!(app.enable_mod("QoL", false, Presence::absent()).unwrap_err(), expected);
    assert_eq!(app.disable_mod("QoL", false, Presence::absent()).unwrap_err(), expected);
    assert_eq!(app.uninstall_mod("QoL", false, Presence::absent()).unwrap_err(), expected);
    assert_eq!(app.settings, before);
}

#[test]
fn a_failed_action_is_reported_with_its_place() {
    let a = Action::MoveToDisabled { from: "/m/QoL".to_string(), to: "/m/Disabled/QoL".to_string() };
    assert_eq!(a.place(), "/m/QoL");
    assert_eq!(Action::Fetch { url: "https://x/y".to_string(), dest: "/d".to_string() }.place(), "https://x/y");
    assert_eq!(Action::Halt.place(), "");
    assert_eq!(
        a.failure("QoL"),
        EngineError { kind: ErrorKind::Filesystem, name: "QoL".to_string(), place: "/m/QoL".to_string() }
    );
    let e = Action::Extract { archive: "/m/QoL/temp.zip".to_string(), into: "/m/QoL".to_string() };
    assert_eq!(e.failure("QoL").kind, ErrorKind::Extract);
    assert_eq!(e.failure("QoL").message(), "extract error: 'QoL' [/m/QoL/temp.zip]");
    let f = Action::Fetch { url: "https://x/y".to_string(), dest: "/d".to_string() };
    assert_eq!(f.failure("QoL").kind, ErrorKind::Network);
    assert_eq!(f.failure("QoL").message(), "network error: 'QoL' [https://x/y]");
    assert_eq!(Action::Discard { path: "/p".to_string() }.failure("").kind, ErrorKind::Filesystem);
}

#[test]
fn check_for_update_compares_versions_as_texts() {
    let mut app = app_at_root();
    assert!(!app.check_for_update("QoL", "1.2.0"));
    app.settings.mod_links.note_installed(LocalModManifest::downloaded("QoL", "1.2.0", "", ""));
    assert!(!app.check_for_update("QoL", "1.2.0"));
    assert!(app.check_for_update("QoL", "1.3.0"));
    assert!(app.check_for_update("QoL", "1.2.0 "));
    assert!(app.check_for_update("QoL", "1.2.0A"));
    assert!(!app.check_for_update("qol", "1.3.0"));
    assert!(!app.check_for_update("Other", "1.3.0"));
    app.settings.mod_links.manifests[0].version = "1.2.0a".to_string();
    assert!(app.check_for_update("QoL", "1.2.0A"));
}

#[test]
fn merging_the_remote_list_flags_each_record_as_the_disk_shows_it() {
    let mut app = app_at_root();
    app.settings.mod_links.note_installed(LocalModManifest::downloaded("QoL", "1.0.0", "", ""));
    app.settings.mod_links.note_installed(LocalModManifest::downloaded("Old", "3", "", ""));
    let list = RemoteModLinks {
        manifests: vec![remote("QoL", "1.2.0"), remote("Practice", "2.0"), remote("Old", "3")],
    };
    assert_eq!(list.names(), vec!["QoL".to_string(), "Practice".to_string(), "Old".to_string()]);
    let seen =
        vec![Presence::new(true, false), Presence::absent(), Presence::new(false, true)];
    let Reconciled { catalog, new_mods, outdated_mods } =
        app.fetch_mod_list(&list, true, &seen).unwrap();
    assert_eq!(new_mods, vec!["Practice".to_string()]);
    assert_eq!(outdated_mods, vec!["QoL".to_string()]);
    assert_eq!(catalog, app.settings.mod_links);
    let m = &app.settings.mod_links.manifests;
    assert_eq!(m.len(), 3);
    assert_eq!((m[0].name.as_str(), m[0].installed, m[0].enabled), ("QoL", true, true));
    assert_eq!((m[1].name.as_str(), m[1].installed, m[1].enabled), ("Practice", false, false));
    assert_eq!((m[2].name.as_str(), m[2].installed, m[2].enabled), ("Old", true, false));
    assert_eq!(m[0].version, "1.2.0");
    assert_eq!(m[0].description, "about QoL");
    assert_eq!(m[0].link.link, "https://example/QoL.zip");
    assert_eq!(m[0].dependencies.dependencies, vec!["Core".to_string()]);
}

#[test]
fn merging_twice_gives_the_same_catalog() {
    let mut app = app_at_root();
    let list = RemoteModLinks { manifests: vec![remote("QoL", "1.2.0"), remote("Practice", "2.0")] };
    let seen = vec![Presence::new(true, false), Presence::new(false, true)];
    let first = app.fetch_mod_list(&list, true, &seen).unwrap();
    let after_first = app.settings.clone();
    let second = app.fetch_mod_list(&list, true, &seen).unwrap();
    assert_eq!(first.catalog, second.catalog);
    assert_eq!(app.settings, after_first);
    assert!(first.new_mods.is_empty());
    assert!(second.new_mods.is_empty() && second.outdated_mods.is_empty());
}

#[test]
fn merging_with_the_wrong_number_of_sightings_changes_nothing() {
    let mut app = app_at_root();
    app.settings.mod_links.note_installed(LocalModManifest::downloaded("QoL", "1.0.0", "", ""));
    let before = app.settings.clone();
    let list = RemoteModLinks { manifests: vec![remote("QoL", "1.2.0"), remote("Practice", "2.0")] };
    let expected =
        EngineError { kind: ErrorKind::Filesystem, name: String::new(), place: ROOT.to_string() };
    assert_eq!(app.fetch_mod_list(&list, true, &vec![Presence::absent()]), Err(expected.clone()));
    assert_eq!(app.settings, before);
    let seen = vec![Presence::absent(), Presence::absent()];
    assert_eq!(app.fetch_mod_list(&list, false, &seen), Err(expected));
    assert_eq!(app.settings, before);
}

#[test]
fn a_first_run_reports_no_new_mods() {
    let mut app = app_at_root();
    let list = RemoteModLinks { manifests: vec![remote("QoL", "1.2.0")] };
    let r = app.fetch_mod_list(&list, true, &vec![Presence::absent()]).unwrap();
    assert!(r.new_mods.is_empty());
    assert!(r.outdated_mods.is_empty());
    assert_eq!(RemoteModLinks::new().manifests.len(), 0);
}

#[test]
fn installed_and_enabled_mods_are_picked_by_what_the_disk_shows() {
    let mut app = app_at_root();
    for n in ["A", "B", "C", "D"] {
        app.settings.mod_links.note_installed(LocalModManifest::downloaded(n, "1", "", ""));
    }
    let seen = vec![
        Presence::new(true, false),
        Presence::new(false, true),
        Presence::absent(),
        Presence::new(true, true),
    ];
    let installed: Vec<String> =
        app.fetch_installed_mods(&seen).unwrap().into_iter().map(|m| m.name).collect();
    let enabled: Vec<String> =
        app.fetch_enabled_mods(&seen).unwrap().into_iter().map(|m| m.name).collect();
    assert_eq!(installed, vec!["A".to_string(), "B".to_string(), "D".to_string()]);
    assert_eq!(enabled, vec!["A".to_string()]);
    assert_eq!(app.fetch_installed_mods(&vec![]), None);
    assert_eq!(app.fetch_enabled_mods(&vec![Presence::absent()]), None);
}

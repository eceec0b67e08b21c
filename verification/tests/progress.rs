use butterfly::download::{download_path, extension, file_name, is_archive, plan_unpack};
use butterfly::lifecycle::Action;
use butterfly::progress::{percent_done, Transfer};

#[test]
fn percent_is_rounded_down() {
    assert_eq!(percent_done(0, 3), 0);
    assert_eq!(percent_done(1, 3), 33);
    assert_eq!(percent_done(2, 3), 66);
    assert_eq!(percent_done(3, 3), 100);
    assert_eq!(percent_done(50, 200), 25);
    assert_eq!(percent_done(199, 200), 99);
    assert_eq!(percent_done(1, 1000), 0);
    assert_eq!(percent_done(999, 1000), 99);
}

#[test]
fn percent_never_passes_100() {
    assert_eq!(percent_done(7, 3), 100);
    assert_eq!(percent_done(u64::MAX, 1), 100);
    assert_eq!(percent_done(u64::MAX, u64::MAX), 100);
    assert_eq!(percent_done(u64::MAX - 1, u64::MAX), 99);
    assert_eq!(percent_done(u64::MAX / 2, u64::MAX), 49);
}

#[test]
fn percent_of_an_empty_download_is_100() {
    assert_eq!(percent_done(0, 0), 100);
    assert_eq!(percent_done(5, 0), 100);
}

#[test]
fn a_transfer_counts_chunks_and_never_falls() {
    let mut t = Transfer::start(250);
    assert_eq!(t.progress(), 0);
    assert!(!t.is_complete());
    let mut last = 0;
    for (len, expected) in [(100u64, 40u8), (0, 40), (100, 80), (49, 99), (1, 100), (10, 100)] {
        let p = t.record(len);
        assert_eq!(p, expected);
        assert!(p >= last);
        last = p;
    }
    assert!(t.is_complete());
    assert_eq!(t, Transfer { total: 250, received: 250 });
}

#[test]
fn a_transfer_that_received_too_much_is_set_right() {
    let mut t = Transfer { total: 10, received: 50 };
    assert_eq!(t.progress(), 100);
    assert_eq!(t.record(1), 100);
    assert_eq!(t.received, 10);
}

#[test]
fn the_extension_is_what_follows_the_last_dot() {
    assert_eq!(extension("https://example/qol.zip"), "zip");
    assert_eq!(extension("https://example/a.b/qol.tar.gz"), "gz");
    assert_eq!(extension("nodots"), "nodots");
    assert_eq!(extension("ends."), "");
    assert_eq!(extension(""), "");
    assert!(is_archive("https://example/qol.zip"));
    assert!(is_archive("zip"));
    assert!(!is_archive("https://example/qol.ZIP"));
    assert!(!is_archive("https://example/qol.dll"));
    assert!(!is_archive("https://example/qol.zip/"));
}

#[test]
fn the_file_name_is_the_last_path_segment() {
    assert_eq!(file_name("https://example/files/QoL.dll"), "QoL.dll");
    assert_eq!(file_name("QoL.dll"), "QoL.dll");
    assert_eq!(file_name("https://example/files/"), "");
    assert_eq!(file_name("https://example/f\u{e9}/\u{4e2d}.dll"), "\u{4e2d}.dll");
}

#[test]
fn the_download_path_depends_on_the_kind_of_file() {
    assert_eq!(download_path("/m", "QoL", "https://example/qol.zip"), "/m/QoL/temp.zip");
    assert_eq!(download_path("/m", "QoL", "https://example/x/QoL.dll"), "/m/QoL/QoL.dll");
}

#[test]
fn a_file_is_unpacked_or_copied() {
    assert_eq!(
        plan_unpack("/tmp/qol.zip", "/m/QoL"),
        vec![
            Action::Extract { archive: "/tmp/qol.zip".to_string(), into: "/m/QoL".to_string() },
            Action::Discard { path: "/tmp/qol.zip".to_string() },
        ]
    );
    assert_eq!(
        plan_unpack("/tmp/QoL.dll", "/m/QoL"),
        vec![Action::CopyFile { from: "/tmp/QoL.dll".to_string(), to: "/m/QoL/QoL.dll".to_string() }]
    );
}

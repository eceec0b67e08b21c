use butterfly::error::ErrorKind;
use butterfly::persist::{
    readable_length, recover_json_prefix, search_step, staging_path, Search,
};

fn settings_document() -> String {
    let mut profile = serde_json::Map::new();
    profile.insert("name".to_string(), serde_json::Value::String("Speedrun".to_string()));
    profile.insert(
        "mods".to_string(),
        serde_json::Value::Array(vec![
            serde_json::Value::String("QoL".to_string()),
            serde_json::Value::String("Practice".to_string()),
        ]),
    );
    let mut root = serde_json::Map::new();
    root.insert("Current Profile".to_string(), serde_json::Value::String("Speedrun".to_string()));
    root.insert("Language".to_string(), serde_json::Value::String("English".to_string()));
    root.insert("Mods Path".to_string(), serde_json::Value::String("/games/hk/Mods".to_string()));
    root.insert("Profiles".to_string(), serde_json::Value::Array(vec![serde_json::Value::Object(profile)]));
    root.insert("Theme".to_string(), serde_json::Value::String("Dark \u{263e} }".to_string()));
    serde_json::to_string_pretty(&serde_json::Value::Object(root)).unwrap()
}

#[test]
fn a_whole_document_is_kept_whole() {
    let doc = settings_document();
    assert_eq!(recover_json_prefix(doc.as_bytes()), Some(doc.len()));
    assert_eq!(readable_length("/s/Settings.json", doc.as_bytes()).unwrap(), doc.len());
}

#[test]
fn three_bytes_of_garbage_behind_the_document_are_dropped() {
    let doc = settings_document();
    let mut bytes = doc.clone().into_bytes();
    bytes.extend_from_slice(b"}]x");
    let n = recover_json_prefix(&bytes).unwrap();
    assert_eq!(n, doc.len());
    let read: serde_json::Value = serde_json::from_slice(&bytes[..n]).unwrap();
    let written: serde_json::Value = serde_json::from_str(&doc).unwrap();
    assert_eq!(read, written);
}

#[test]
fn what_is_written_is_read_back_the_same_with_and_without_garbage() {
    let doc = settings_document();
    let written: serde_json::Value = serde_json::from_str(&doc).unwrap();
    for tail in ["", "}", "\"Dark\"\n}", "\u{0}\u{0}\u{0}", "}}}}}}}}}}}}"] {
        let mut bytes = doc.clone().into_bytes();
        bytes.extend_from_slice(tail.as_bytes());
        let n = readable_length("/s/Settings.json", &bytes).unwrap();
        let read: serde_json::Value = serde_json::from_slice(&bytes[..n]).unwrap();
        assert_eq!(read, written);
    }
}

#[test]
fn white_space_behind_the_document_is_kept() {
    assert_eq!(recover_json_prefix(b"{\"a\":1} \n x"), Some(10));
    assert_eq!(recover_json_prefix(b"[1,2]]"), Some(5));
    assert_eq!(recover_json_prefix(b"12ab"), Some(2));
    assert_eq!(recover_json_prefix(b"nullnull"), Some(4));
}

#[test]
fn a_document_that_was_cut_short_is_corrupt() {
    let doc = settings_document();
    let cut = &doc.as_bytes()[..doc.len() - 1];
    assert_eq!(recover_json_prefix(cut), None);
    let e = readable_length("/s/Settings.json", cut).unwrap_err();
    assert_eq!(e.kind, ErrorKind::CorruptSettings);
    assert_eq!(e.name, "");
    assert_eq!(e.place, "/s/Settings.json");
    assert_eq!(e.message(), "corrupt settings: '' [/s/Settings.json]");
}

#[test]
fn nothing_and_garbage_are_corrupt() {
    assert_eq!(recover_json_prefix(b""), None);
    assert_eq!(recover_json_prefix(b"   "), None);
    assert_eq!(recover_json_prefix(b"xyz"), None);
    assert_eq!(recover_json_prefix(&[0xff, 0xfe, 0x00]), None);
    assert_eq!(recover_json_prefix(b"{\"a\":"), None);
}

#[test]
fn the_new_file_is_written_beside_the_old_one() {
    assert_eq!(staging_path("/s/Settings.json"), "/s/Settings.json.tmp");
}

#[test]
fn the_search_goes_on_until_something_parses() {
    assert_eq!(search_step(7, true), Search::Found(7));
    assert_eq!(search_step(0, true), Search::Found(0));
    assert_eq!(search_step(7, false), Search::Shorter(6));
    assert_eq!(search_step(1, false), Search::Shorter(0));
    assert_eq!(search_step(0, false), Search::Nothing);
}

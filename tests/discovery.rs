use pato_plugins::discovery::{describe, discover, is_plugin_file, select_plugin_dir};

#[test]
fn plugin_extension_is_recognised() {
    assert!(is_plugin_file("plugin_ui.wasm"));
    assert!(is_plugin_file("a.b.wasm"));
    assert!(is_plugin_file("..wasm"));
    assert!(!is_plugin_file(".wasm"));
    assert!(!is_plugin_file("wasm"));
    assert!(!is_plugin_file("plugin.wat"));
    assert!(!is_plugin_file("plugin.wasm.bak"));
    assert!(!is_plugin_file("plugin.WASM"));
    assert!(!is_plugin_file(""));
}

#[test]
fn descriptor_takes_the_file_stem() {
    let d = describe("plugin_ui.wasm").unwrap();
    assert_eq!(d.file_name, "plugin_ui.wasm");
    assert_eq!(d.id, "plugin_ui");
    let d = describe("a.b.wasm").unwrap();
    assert_eq!(d.id, "a.b");
    assert!(describe("notes.txt").is_none());
}

#[test]
fn empty_directory_yields_no_descriptors() {
    let names: Vec<String> = Vec::new();
    assert!(discover(&names).is_empty());
}

#[test]
fn directory_without_plugins_yields_no_descriptors() {
    let names = vec!["readme.md".to_string(), ".wasm".to_string(), "x.wat".to_string()];
    assert!(discover(&names).is_empty());
}

#[test]
fn discovery_keeps_listing_order_and_skips_other_files() {
    let names = vec![
        "zeta.wasm".to_string(),
        "notes.txt".to_string(),
        "alpha.wasm".to_string(),
        "broken.wasm".to_string(),
    ];
    let found = discover(&names);
    let files: Vec<&str> = found.iter().map(|d| d.file_name.as_str()).collect();
    let ids: Vec<&str> = found.iter().map(|d| d.id.as_str()).collect();
    assert_eq!(files, vec!["zeta.wasm", "alpha.wasm", "broken.wasm"]);
    assert_eq!(ids, vec!["zeta", "alpha", "broken"]);
}

#[test]
fn first_existing_directory_is_chosen() {
    assert_eq!(select_plugin_dir(&vec![false, true, true]), Some(1));
    assert_eq!(select_plugin_dir(&vec![true, false]), Some(0));
    assert_eq!(select_plugin_dir(&vec![false, false, false, false, true]), Some(4));
}

#[test]
fn no_existing_directory_chooses_none() {
    assert_eq!(select_plugin_dir(&vec![false, false, false]), None);
    assert_eq!(select_plugin_dir(&Vec::new()), None);
}

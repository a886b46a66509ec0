use plugin_host::contract::Plugin;
use plugin_host::loader::{is_plugin_library, DynamicPluginLoader, LibraryProbe, LoadError, RegistryError};
use plugin_host::web_search::{GooglePlugin, YouTubePlugin};

fn descriptor(id: &str, name: &str) -> Plugin {
    Plugin {
        id: id.to_string(),
        name: name.to_string(),
        description: String::new(),
        prefix: id.to_string(),
        icon: String::new(),
        config: None,
    }
}

#[test]
fn new_registry_is_empty() {
    let reg: DynamicPluginLoader<u32> = DynamicPluginLoader::new();
    assert!(reg.list_plugins().is_empty());
    assert!(reg.get_plugin("google").is_none());
}

#[test]
fn registered_plugin_describes_its_key() {
    let mut reg: DynamicPluginLoader<u32> = DynamicPluginLoader::new();
    assert!(reg.register_plugin("google".to_string(), GooglePlugin.get_info(), 1).is_ok());
    assert!(reg.register_plugin("youtube".to_string(), YouTubePlugin.get_info(), 2).is_ok());
    for id in ["google", "youtube"] {
        let entry = reg.get_plugin(id).unwrap();
        assert_eq!(entry.describe().id, id);
    }
    assert_eq!(reg.get_plugin("youtube").unwrap().plugin, 2);
}

#[test]
fn registration_under_another_id_is_refused() {
    let mut reg: DynamicPluginLoader<u32> = DynamicPluginLoader::new();
    let r = reg.register_plugin("g".to_string(), GooglePlugin.get_info(), 1);
    assert_eq!(r, Err(RegistryError::IdMismatch));
    assert!(reg.get_plugin("g").is_none());
    assert!(reg.get_plugin("google").is_none());
}

#[test]
fn last_registration_wins_in_place() {
    let mut reg: DynamicPluginLoader<u32> = DynamicPluginLoader::new();
    reg.register_plugin("a".to_string(), descriptor("a", "first"), 1).unwrap();
    reg.register_plugin("b".to_string(), descriptor("b", "other"), 2).unwrap();
    reg.register_plugin("a".to_string(), descriptor("a", "second"), 3).unwrap();
    let list = reg.list_plugins();
    assert_eq!(list.len(), 2);
    assert_eq!(list[0].id, "a");
    assert_eq!(list[0].name, "second");
    assert_eq!(list[1].id, "b");
    assert_eq!(reg.get_plugin("a").unwrap().plugin, 3);
}

#[test]
fn list_keeps_registration_order() {
    let mut reg: DynamicPluginLoader<u32> = DynamicPluginLoader::new();
    for (i, id) in ["z", "m", "a"].iter().enumerate() {
        reg.register_plugin(id.to_string(), descriptor(id, id), i as u32).unwrap();
    }
    let ids: Vec<String> = reg.list_plugins().into_iter().map(|p| p.id).collect();
    assert_eq!(ids, vec!["z", "m", "a"]);
}

#[test]
fn directory_with_one_good_and_one_malformed_library() {
    let mut reg: DynamicPluginLoader<u32> = DynamicPluginLoader::new();
    let probes = vec![
        LibraryProbe::Loaded(descriptor("good", "Good"), 7),
        LibraryProbe::MissingEntryPoint("search_plugin".to_string()),
    ];
    let reports = reg.load_plugins_from_directory(probes);
    assert_eq!(reports.len(), 2);
    assert!(reports[0].is_ok());
    match &reports[1] {
        Err(LoadError::MissingEntryPoint(name)) => assert_eq!(name, "search_plugin"),
        other => panic!("unexpected report {:?}", other),
    }
    let list = reg.list_plugins();
    assert_eq!(list.len(), 1);
    assert_eq!(list[0].id, "good");
}

#[test]
fn every_load_failure_is_reported_and_skipped() {
    let mut reg: DynamicPluginLoader<u32> = DynamicPluginLoader::new();
    let probes = vec![
        LibraryProbe::OpenFailed("not a library".to_string()),
        LibraryProbe::BootstrapFailed,
        LibraryProbe::Loaded(descriptor("x", "X"), 1),
        LibraryProbe::Loaded(descriptor("x", "X again"), 2),
    ];
    let reports = reg.load_plugins_from_directory(probes);
    assert!(matches!(&reports[0], Err(LoadError::OpenFailed(w)) if w == "not a library"));
    assert!(matches!(&reports[1], Err(LoadError::BootstrapFailed)));
    assert!(reports[2].is_ok() && reports[3].is_ok());
    let list = reg.list_plugins();
    assert_eq!(list.len(), 1);
    assert_eq!(list[0].name, "X again");
    assert_eq!(reg.get_plugin("x").unwrap().plugin, 2);
}

#[test]
fn single_probe_failure_leaves_registry_unchanged() {
    let mut reg: DynamicPluginLoader<u32> = DynamicPluginLoader::new();
    reg.register_plugin("a".to_string(), descriptor("a", "A"), 1).unwrap();
    let r = reg.load_plugin_library(LibraryProbe::OpenFailed("gone".to_string()));
    assert!(r.is_err());
    assert_eq!(reg.list_plugins().len(), 1);
}

#[test]
fn library_file_names() {
    assert!(is_plugin_library("google.dll"));
    assert!(is_plugin_library("libgoogle.so"));
    assert!(is_plugin_library("libgoogle.dylib"));
    assert!(is_plugin_library("a.b.so"));
    assert!(!is_plugin_library(".so"));
    assert!(!is_plugin_library("libgoogle.so.1"));
    assert!(!is_plugin_library("readme.txt"));
    assert!(!is_plugin_library("so"));
    assert!(!is_plugin_library("lib.SO"));
    assert!(!is_plugin_library(""));
}

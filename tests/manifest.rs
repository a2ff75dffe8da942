use std::collections::BTreeSet;

use gdext_gen::args::{BaseDirectory, EntrySymbol};
use gdext_gen::features::arch::Architecture;
use gdext_gen::features::mode::Mode;
use gdext_gen::features::sys::{System, WindowsABI};
use gdext_gen::features::target::Target;
use gdext_gen::gdext::config::Configuration;
use gdext_gen::gdext::table::StringTable;
use gdext_gen::gdext::{check_gdextension_path, GDExtension, GenerationError};

fn generated_libraries() -> StringTable {
    let mut gdextension = GDExtension::from_config(Configuration::default());
    gdextension.generate_libs(BaseDirectory::ProjectFolder, "rust", WindowsABI::MSVC, "../rust/target");
    gdextension.libraries
}

#[test]
fn assembling_an_empty_library_table_fails() {
    let result = GDExtension::assemble(Configuration::default(), StringTable::new(), None, None);
    assert!(matches!(result, Err(GenerationError::EmptyLibraries)));
}

#[test]
fn assembling_keeps_the_sections() {
    let libraries = generated_libraries();
    let keys: Vec<String> = libraries.entries().into_iter().map(|(k, _)| k).collect();
    let manifest = GDExtension::assemble(Configuration::default(), libraries, None, Some(vec![])).unwrap();
    assert_eq!(manifest.library_keys(), keys);
    assert_eq!(manifest.configuration.entry_symbol, "gdext_rust_init");
    assert!(manifest.icons.is_none());
    assert_eq!(manifest.dependencies, Some(vec![]));
}

#[test]
fn library_keys_survive_the_document_round_trip() {
    let libraries = generated_libraries();
    let manifest = GDExtension::assemble(Configuration::default(), libraries, None, None).unwrap();
    let mut section = toml::Table::new();
    for (key, path) in manifest.libraries.entries() {
        section.insert(key, toml::Value::String(path));
    }
    let mut document = toml::Table::new();
    document.insert("libraries".to_string(), toml::Value::Table(section));
    let text = toml::to_string_pretty(&document).unwrap();
    let parsed: toml::Table = text.parse().unwrap();
    let parsed_keys: BTreeSet<String> = parsed["libraries"].as_table().unwrap().keys().cloned().collect();
    let keys: BTreeSet<String> = manifest.library_keys().into_iter().collect();
    assert_eq!(parsed_keys, keys);
    assert_eq!(keys.len(), 60);
}

#[test]
fn string_table_replaces_in_place() {
    let mut table = StringTable::new();
    assert!(table.is_empty());
    table.insert("a".into(), "1".into());
    table.insert("b".into(), "2".into());
    table.insert("a".into(), "3".into());
    assert_eq!(table.entries(), vec![("a".to_string(), "3".to_string()), ("b".to_string(), "2".to_string())]);
    assert_eq!(table.get(&"a".to_string()), Some("3".to_string()));
    assert_eq!(table.get(&"c".to_string()), None);
    assert_eq!(table.len(), 2);
}

#[test]
fn dependencies_relocate_only_on_macos() {
    let dependencies = vec![
        (Target(System::MacOS, Mode::Release, Architecture::Generic), vec!["libs\\a.dylib".to_string()]),
        (Target(System::Linux, Mode::Debug, Architecture::X86_64), vec!["libs/b.so".to_string(), "c.so".to_string()]),
    ];
    let result = GDExtension::generate_deps(BaseDirectory::ProjectFolder, &dependencies);
    assert_eq!(
        result,
        vec![
            (
                "macos.release".to_string(),
                vec![("res://libs/a.dylib".to_string(), "Contents/Frameworks".to_string())],
            ),
            (
                "linux.debug.x86_64".to_string(),
                vec![
                    ("res://libs/b.so".to_string(), String::new()),
                    ("res://c.so".to_string(), String::new()),
                ],
            ),
        ]
    );
    let result = GDExtension::generate_deps(BaseDirectory::GDExtensionFolder, &dependencies);
    assert_eq!(result[1].1[1].0, "c.so");
}

#[test]
fn manifest_path_checks() {
    assert_eq!(check_gdextension_path(Some("gdextension"), Some("rust.gdextension")), Ok(()));
    assert_eq!(check_gdextension_path(Some("toml"), Some("rust.toml")), Err(GenerationError::InvalidExtension));
    assert_eq!(check_gdextension_path(None, Some(".gdextension")), Ok(()));
    assert_eq!(check_gdextension_path(None, Some("rust")), Err(GenerationError::NotAGdextensionFile));
    assert_eq!(check_gdextension_path(None, None), Err(GenerationError::NotAGdextensionFile));
}

#[test]
fn configuration_builders() {
    let config = Configuration::new(EntrySymbol::CrateNameBased, "my-game", Some((4, 1)), None, true, false);
    assert_eq!(config.entry_symbol, "libmy_game_init");
    assert_eq!(config.compatibility_minimum, Some((4, 1)));
    assert_eq!(config.reloadable, Some(true));
    assert_eq!(config.android_aar_plugin, None);
    let config = Configuration::from_entry_symbol(EntrySymbol::Custom("start".into()), "x")
        .with_compatibility_minimum((4, 2))
        .with_compatibility_maximum((4, 4))
        .with_reloadability()
        .with_android_aar_plugin();
    assert_eq!(config.entry_symbol, "start");
    assert_eq!(config.compatibility_maximum, Some((4, 4)));
    assert_eq!(config.android_aar_plugin, Some(true));
    assert_eq!(Configuration::from_raw_entry_symbol("raw".into()).entry_symbol, "raw");
    assert_eq!(EntrySymbol::GodotRustDefault.to_string("ignored"), "gdext_rust_init");
    assert_eq!(BaseDirectory::ProjectFolder.as_str(), "res://");
    assert_eq!(BaseDirectory::GDExtensionFolder.as_str(), "");
}

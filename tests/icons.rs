use gdext_gen::args::{
    BaseDirectory, DefaultNodeIcon, IconsConfig, IconsCopyStrategy, IconsDirectories, NodeRust,
};
use gdext_gen::gdext::config::Configuration;
use gdext_gen::gdext::icons::icon_table;
use gdext_gen::gdext::inherit::{find_children, BaseClassMap};
use gdext_gen::gdext::GDExtension;

fn inferred() -> BaseClassMap {
    let mut map = BaseClassMap::new();
    let sources = vec![
        "#[class(base = Node2D)]\nstruct Player {\n".to_string(),
        "#[class(base = Sprite2D)]\nstruct Enemy {\n".to_string(),
    ];
    find_children(&mut map, &sources, "base", "struct");
    map
}

fn directories() -> IconsDirectories {
    IconsDirectories::new("addons".into(), "editor".into(), "rust".into(), None)
}

fn config(default: DefaultNodeIcon, custom: Option<Vec<(String, String)>>) -> IconsConfig {
    IconsConfig::new(default, IconsCopyStrategy::default(), custom, directories())
}

fn icon(entries: &[(String, String)], class: &str) -> Option<String> {
    entries.iter().find(|(k, _)| k == class).map(|(_, v)| v.clone())
}

#[test]
fn base_class_policy() {
    let table = icon_table(&config(DefaultNodeIcon::BaseClass, None), &inferred()).entries();
    assert_eq!(
        table,
        vec![
            ("Player".to_string(), "res://addons/editor/Node2D.svg".to_string()),
            ("Enemy".to_string(), "res://addons/editor/Sprite2D.svg".to_string()),
        ]
    );
}

#[test]
fn custom_and_bundled_policies() {
    let table = icon_table(&config(DefaultNodeIcon::Custom("icons/node.svg".into()), None), &inferred()).entries();
    assert_eq!(icon(&table, "Enemy").unwrap(), "res://addons/icons/node.svg");
    let policy = DefaultNodeIcon::NodeRust(NodeRust::Ferris, "rust".into());
    let table = icon_table(&config(policy, None), &inferred()).entries();
    assert_eq!(icon(&table, "Player").unwrap(), "res://addons/rust/NodeRustFerris.svg");
}

#[test]
fn no_default_policy_infers_nothing() {
    let table = icon_table(&config(DefaultNodeIcon::Node, None), &inferred());
    assert_eq!(table.len(), 0);
}

#[test]
fn override_replaces_an_inferred_icon() {
    let custom = vec![("Player".to_string(), "player.svg".to_string())];
    let table = icon_table(&config(DefaultNodeIcon::BaseClass, Some(custom)), &inferred()).entries();
    assert_eq!(table.len(), 2);
    assert_eq!(icon(&table, "Player").unwrap(), "res://addons/rust/player.svg");
    assert_eq!(icon(&table, "Enemy").unwrap(), "res://addons/editor/Sprite2D.svg");
}

#[test]
fn override_of_an_uninferred_class_adds_an_entry() {
    let custom = vec![("Boss".to_string(), "sub\\boss.svg".to_string())];
    let table = icon_table(&config(DefaultNodeIcon::BaseClass, Some(custom)), &inferred()).entries();
    assert_eq!(table.len(), 3);
    assert_eq!(icon(&table, "Boss").unwrap(), "res://addons/rust/sub/boss.svg");
}

#[test]
fn relative_directory_sets_the_marker() {
    let dirs = directories().with_relative_directory(BaseDirectory::GDExtensionFolder);
    let custom = vec![("Boss".to_string(), "boss.svg".to_string())];
    let config = IconsConfig::new(DefaultNodeIcon::Node, IconsCopyStrategy::default(), Some(custom), dirs);
    let table = icon_table(&config, &BaseClassMap::new()).entries();
    assert_eq!(table, vec![("Boss".to_string(), "addons/rust/boss.svg".to_string())]);
}

#[test]
fn manifest_holds_the_icons() {
    let mut gdextension = GDExtension::from_config(Configuration::default());
    gdextension.generate_icons(&config(DefaultNodeIcon::BaseClass, None), &inferred());
    assert_eq!(gdextension.icons.unwrap().len(), 2);
}

#[test]
fn icons_to_copy() {
    let strategy = IconsCopyStrategy::new(false, true, "p".into(), false);
    let config = IconsConfig::new(DefaultNodeIcon::Node, strategy, None, directories());
    assert_eq!(config.icons_to_copy(), vec![NodeRust::Small, NodeRust::Large, NodeRust::Ferris]);
    let strategy = IconsCopyStrategy::default().copying_node_rust();
    let policy = DefaultNodeIcon::NodeRust(NodeRust::Large, "rust".into());
    let config = IconsConfig::new(policy, strategy, None, directories());
    assert_eq!(config.icons_to_copy(), vec![NodeRust::Large]);
    let config = IconsConfig::new(DefaultNodeIcon::BaseClass, IconsCopyStrategy::default().copy_node_rust(), None, directories());
    assert!(config.icons_to_copy().is_empty());
    assert_eq!(NodeRust::Ferris.get_file_name(), "NodeRustFerris.svg");
}

#[test]
fn builders_set_their_field() {
    let strategy = IconsCopyStrategy::default()
        .copying_all()
        .forcing_copy()
        .with_path_node_rust("../godot/addons".into());
    assert!(strategy.copy_all && strategy.force_copy && !strategy.copy_node_rust);
    assert_eq!(strategy.path_node_rust, "../godot/addons");
    assert!(IconsCopyStrategy::default().force_copy().force_copy);
    let dirs = IconsDirectories::from_directories("a".into(), "b".into(), "c".into())
        .with_base_directory("x".into())
        .with_editor_directory("y".into())
        .with_custom_directory("z".into());
    assert_eq!((dirs.base_directory.as_str(), dirs.editor_directory.as_str(), dirs.custom_directory.as_str()), ("x", "y", "z"));
    assert!(dirs.relative_directory.is_none());
    let dirs = dirs.with_directories("1".into(), "2".into(), "3".into());
    assert_eq!(dirs.custom_directory, "3");
    let dirs = IconsDirectories::from_package_name("my-game");
    assert_eq!((dirs.base_directory.as_str(), dirs.editor_directory.as_str(), dirs.custom_directory.as_str()), ("addons", "editor", "my_game"));
}

use gdext_gen::gdext::inherit::{find_children, scan_line, split_lines, BaseClassMap, ScanState};

fn infer(sources: &[&str]) -> Vec<(String, Vec<String>)> {
    let mut map = BaseClassMap::new();
    let sources: Vec<String> = sources.iter().map(|s| s.to_string()).collect();
    find_children(&mut map, &sources, "base", "struct");
    map.entries().clone()
}

fn entry(base: &str, children: &[&str]) -> (String, Vec<String>) {
    (base.to_string(), children.iter().map(|c| c.to_string()).collect())
}

#[test]
fn base_then_struct_after_unrelated_lines() {
    let result = infer(&["base = Foo,\n\n// a comment\nuse something;\n\nstruct Bar {\n}\n"]);
    assert_eq!(result, vec![entry("Foo", &["Bar"])]);
}

#[test]
fn base_without_struct_keeps_an_empty_entry() {
    let result = infer(&["#[class(base = Foo)]\nfn helper() {}\n"]);
    assert_eq!(result, vec![entry("Foo", &[])]);
}

#[test]
fn units_are_scanned_afresh() {
    let result = infer(&["base = Foo,\nstruct Bar {", "base = Foo,\nstruct Baz {"]);
    assert_eq!(result, vec![entry("Foo", &["Bar", "Baz"])]);
}

#[test]
fn pending_base_does_not_cross_units() {
    let result = infer(&["#[class(base = Foo)]\n", "struct Qux {\n}\n"]);
    assert_eq!(result, vec![entry("Foo", &[])]);
}

#[test]
fn class_attributes_as_written_in_practice() {
    let source = "use godot::prelude::*;\n\n#[derive(GodotClass)]\n#[class(init, base=Node2D)]\npub struct Player {\n    base: Base<Node2D>,\n}\n\n#[derive(GodotClass)]\n#[class(base = Sprite2D, tool)]\nstruct Enemy<T> {\n}\n";
    let result = infer(&[source]);
    assert_eq!(result, vec![entry("Node2D", &["Player"]), entry("Sprite2D", &["Enemy"])]);
}

#[test]
fn documentation_lines_are_ignored() {
    let result = infer(&["/// base = Fake,\n    /// struct Nope {\nbase = Real,\n/// struct Hidden {\nstruct Shown;\n"]);
    assert_eq!(result, vec![entry("Real", &["Shown"])]);
}

#[test]
fn malformed_lines_are_skipped() {
    let result = infer(&["base = ,\nbase = Foo,\nstruct {\nstruct Bar {\n"]);
    assert_eq!(result, vec![entry("Foo", &["Bar"])]);
}

#[test]
fn base_line_without_word_keeps_the_pending_base() {
    let result = infer(&["base = Foo,\nlet base = 3 + 4;\nstruct Bar {\n"]);
    assert_eq!(result, vec![entry("Foo", &["Bar"])]);
}

#[test]
fn a_later_base_replaces_the_pending_one() {
    let result = infer(&["base = Foo,\nbase = Other)\nstruct Bar {\n"]);
    assert_eq!(result, vec![entry("Foo", &[]), entry("Other", &["Bar"])]);
}

#[test]
fn other_markers() {
    let mut map = BaseClassMap::new();
    let sources = vec!["extends := Node,\nclass Player {\n".to_string()];
    find_children(&mut map, &sources, "extends :", "class");
    assert_eq!(map.entries().clone(), vec![entry("Node", &["Player"])]);
}

#[test]
fn lines_split_at_each_newline() {
    let lines = split_lines("a\nbc\n");
    assert_eq!(lines, vec![vec!['a'], vec!['b', 'c'], vec![]]);
    assert_eq!(split_lines(""), vec![Vec::<char>::new()]);
}

#[test]
fn state_machine_steps() {
    let base: Vec<char> = "base".chars().collect();
    let entity: Vec<char> = "struct".chars().collect();
    let mut map = BaseClassMap::new();
    let line: Vec<char> = "base = Foo,".chars().collect();
    let state = scan_line(&mut map, ScanState::Idle, &line, &base, &entity);
    assert!(matches!(&state, ScanState::BaseSeen(b) if b == "Foo"));
    let line: Vec<char> = "".chars().collect();
    let state = scan_line(&mut map, state, &line, &base, &entity);
    assert!(matches!(&state, ScanState::BaseSeen(b) if b == "Foo"));
    let line: Vec<char> = "struct Bar;".chars().collect();
    let state = scan_line(&mut map, state, &line, &base, &entity);
    assert!(matches!(state, ScanState::Idle));
    let line: Vec<char> = "struct Baz;".chars().collect();
    let state = scan_line(&mut map, state, &line, &base, &entity);
    assert!(matches!(state, ScanState::Idle));
    assert_eq!(map.entries().clone(), vec![entry("Foo", &["Bar"])]);
    assert_eq!(map.len(), 1);
}

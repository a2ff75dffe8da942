use std::collections::HashSet;

use gdext_gen::args::BaseDirectory;
use gdext_gen::features::arch::Architecture;
use gdext_gen::features::mode::Mode;
use gdext_gen::features::sys::{System, WindowsABI};
use gdext_gen::features::target::Target;
use gdext_gen::gdext::config::Configuration;
use gdext_gen::gdext::libs::library_path;
use gdext_gen::gdext::GDExtension;

fn libraries(base_dir: BaseDirectory, abi: WindowsABI, target_dir: &str) -> Vec<(String, String)> {
    let mut gdextension = GDExtension::from_config(Configuration::default());
    gdextension.generate_libs(base_dir, "rust", abi, target_dir);
    gdextension.libraries.entries()
}

fn value_of(entries: &[(String, String)], key: &str) -> String {
    entries.iter().find(|(k, _)| k == key).map(|(_, v)| v.clone()).unwrap()
}

#[test]
fn matrix_has_one_entry_per_combination() {
    for abi in [WindowsABI::MSVC, WindowsABI::MinGW, WindowsABI::LLVM] {
        let expected: usize = System::get_systems(abi)
            .iter()
            .map(|s| s.get_architectures().len() * Mode::get_modes().len())
            .sum();
        let entries = libraries(BaseDirectory::ProjectFolder, abi, "../rust/target");
        assert_eq!(expected, 60);
        assert_eq!(entries.len(), expected);
        let keys: HashSet<&String> = entries.iter().map(|(k, _)| k).collect();
        assert_eq!(keys.len(), expected);
    }
}

#[test]
fn generic_paths_skip_the_triple() {
    let entries = libraries(BaseDirectory::ProjectFolder, WindowsABI::MSVC, "../rust/target");
    assert_eq!(value_of(&entries, "linux.debug"), "res://../rust/target/debug/librust.so");
    assert_eq!(value_of(&entries, "macos.editor"), "res://../rust/target/debug/librust.dylib");
    assert_eq!(value_of(&entries, "windows.release"), "res://../rust/target/release/rust.dll");
}

#[test]
fn architecture_paths_hold_the_triple() {
    let entries = libraries(BaseDirectory::ProjectFolder, WindowsABI::MinGW, "../rust/target");
    assert_eq!(
        value_of(&entries, "linux.release.x86_64"),
        "res://../rust/target/x86_64-unknown-linux-gnu/release/librust.so"
    );
    assert_eq!(
        value_of(&entries, "windows.editor.x86_32"),
        "res://../rust/target/i686-pc-windows-gnu/debug/rust.dll"
    );
    assert_eq!(
        value_of(&entries, "android.debug.arm_32"),
        "res://../rust/target/armv7-linux-androideabi/debug/rust.so"
    );
    assert_eq!(
        value_of(&entries, "web.release.wasm32"),
        "res://../rust/target/wasm32-unknown-emscripten/release/rust.wasm"
    );
}

#[test]
fn paths_use_forward_slashes_and_the_base_marker() {
    let entries = libraries(BaseDirectory::GDExtensionFolder, WindowsABI::MSVC, "..\\rust\\target");
    assert_eq!(value_of(&entries, "ios.release"), "../rust/target/release/librust.ios.framework");
    assert_eq!(
        value_of(&entries, "ios.release.arm_64"),
        "../rust/target/aarch64-apple-ios/release/librust.ios.framework"
    );
}

#[test]
fn library_path_of_one_target() {
    let target = Target(System::MacOS, Mode::Release, Architecture::Arm64);
    assert_eq!(
        library_path(BaseDirectory::ProjectFolder, "game", "target/", &target),
        "res://target/aarch64-apple-darwin/release/libgame.dylib"
    );
    let target = Target(System::Web, Mode::Debug, Architecture::Generic);
    assert_eq!(library_path(BaseDirectory::ProjectFolder, "game", "", &target), "res://debug/game.wasm");
}

#[test]
fn generating_twice_keeps_one_entry_per_key() {
    let mut gdextension = GDExtension::from_config(Configuration::default());
    gdextension.generate_libs(BaseDirectory::ProjectFolder, "rust", WindowsABI::MSVC, "a");
    gdextension.generate_libs(BaseDirectory::ProjectFolder, "rust", WindowsABI::MSVC, "b");
    let entries = gdextension.libraries.entries();
    assert_eq!(entries.len(), 60);
    assert_eq!(value_of(&entries, "linux.debug"), "res://b/debug/librust.so");
}

use gdext_gen::features::arch::Architecture;
use gdext_gen::features::mode::Mode;
use gdext_gen::features::sys::{System, WindowsABI};
use gdext_gen::features::target::Target;

fn all_systems() -> Vec<System> {
    System::get_systems(WindowsABI::MSVC).to_vec()
}

#[test]
fn every_system_supports_generic_first() {
    for abi in [WindowsABI::MSVC, WindowsABI::MinGW, WindowsABI::LLVM] {
        for system in System::get_systems(abi) {
            let archs = system.get_architectures();
            assert!(!archs.is_empty());
            assert_eq!(archs[0], Architecture::Generic);
            assert!(archs.contains(&Architecture::Generic));
        }
    }
}

#[test]
fn architecture_counts_per_system() {
    let counts: Vec<usize> = all_systems().iter().map(|s| s.get_architectures().len()).collect();
    assert_eq!(counts, vec![5, 2, 4, 3, 2, 4]);
}

#[test]
fn resolve_macos_release_arm64() {
    let target = Target(System::MacOS, Mode::Release, Architecture::Arm64);
    let triple = target.get_rust_target_triple();
    assert!(triple.ends_with("-apple-darwin"));
    assert_eq!(triple, "aarch64-apple-darwin");
    assert_eq!(target.get_godot_target(), "macos.release.arm_64");
    assert_eq!(target.get_rust_target_triple(), triple);
    assert_eq!(target.get_godot_target(), "macos.release.arm_64");
}

#[test]
fn resolve_triples_per_system() {
    let cases = [
        (System::Android, Architecture::Armv7, "armv7-linux-androideabi"),
        (System::Android, Architecture::Arm64, "aarch64-linux-android"),
        (System::Android, Architecture::X86_32, "i686-linux-android"),
        (System::IOS, Architecture::Arm64, "aarch64-apple-ios"),
        (System::Linux, Architecture::Rv64, "riscv64gc-unknown-linux-gnu"),
        (System::Linux, Architecture::X86_64, "x86_64-unknown-linux-gnu"),
        (System::MacOS, Architecture::X86_64, "x86_64-apple-darwin"),
        (System::Web, Architecture::Wasm32, "wasm32-unknown-emscripten"),
        (System::Windows(WindowsABI::MSVC), Architecture::X86_64, "x86_64-pc-windows-msvc"),
        (System::Windows(WindowsABI::MinGW), Architecture::X86_32, "i686-pc-windows-gnu"),
        (System::Windows(WindowsABI::LLVM), Architecture::Arm64, "aarch64-pc-windows-gnullvm"),
    ];
    for (system, arch, triple) in cases {
        assert_eq!(Target(system, Mode::Debug, arch).get_rust_target_triple(), triple);
    }
}

#[test]
fn resolve_generic_targets() {
    let target = Target(System::Linux, Mode::Editor, Architecture::Generic);
    assert_eq!(target.get_rust_target_triple(), "");
    assert_eq!(target.get_godot_target(), "linux.editor");
    let target = Target(System::Windows(WindowsABI::MinGW), Mode::Release, Architecture::Generic);
    assert_eq!(target.get_godot_target(), "windows.release");
}

#[test]
fn godot_targets_name_the_architecture() {
    let target = Target(System::Android, Mode::Debug, Architecture::Armv7);
    assert_eq!(target.get_godot_target(), "android.debug.arm_32");
    let target = Target(System::Linux, Mode::Editor, Architecture::Rv64);
    assert_eq!(target.get_godot_target(), "linux.editor.rv_64");
    let target = Target(System::Windows(WindowsABI::MSVC), Mode::Release, Architecture::X86_32);
    assert_eq!(target.get_godot_target(), "windows.release.x86_32");
}

#[test]
fn mode_names() {
    assert_eq!(Mode::get_modes(), [Mode::Debug, Mode::Release, Mode::Editor]);
    assert_eq!(Mode::Editor.get_rust_name(), Mode::Debug.get_rust_name());
    assert_eq!(Mode::Release.get_rust_name(), "release");
    assert_eq!(Mode::Editor.get_godot_name(), "editor");
    assert_ne!(Mode::Editor.get_godot_name(), Mode::Debug.get_godot_name());
}

#[test]
fn architecture_names() {
    assert_eq!(Architecture::X86_32.get_rust_name(), "i686");
    assert_eq!(Architecture::Arm64.get_rust_name(), "aarch64");
    assert_eq!(Architecture::Rv64.get_rust_name(), "riscv64gc");
    assert_eq!(Architecture::Generic.get_rust_name(), "");
    assert_eq!(Architecture::Armv7.get_godot_name(), "arm_32");
    assert_eq!(Architecture::Wasm32.get_godot_name(), "wasm32");
    assert_eq!(Architecture::Generic.get_godot_name(), "");
}

#[test]
fn windows_abi_names() {
    assert_eq!(WindowsABI::MSVC.get_rust_name(), "msvc");
    assert_eq!(WindowsABI::MinGW.get_rust_name(), "gnu");
    assert_eq!(WindowsABI::LLVM.get_rust_name(), "gnullvm");
    assert_eq!(WindowsABI::default(), WindowsABI::MSVC);
}

#[test]
fn system_names_and_library_files() {
    let names: Vec<&str> = all_systems().iter().map(|s| s.get_name()).collect();
    assert_eq!(names, vec!["android", "ios", "linux", "macos", "web", "windows"]);
    let files: Vec<String> = all_systems().iter().map(|s| s.get_lib_export_name("my_lib")).collect();
    assert_eq!(
        files,
        vec![
            "my_lib.so",
            "libmy_lib.ios.framework",
            "libmy_lib.so",
            "libmy_lib.dylib",
            "my_lib.wasm",
            "my_lib.dll",
        ]
    );
}

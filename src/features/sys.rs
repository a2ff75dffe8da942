//! Target platforms, the architectures each supports and the file name each
//! expects for a compiled library.
use vstd::prelude::*;
use vstd::string::*;
use super::arch::Architecture;

verus! {

/// Environment and ABI used to build for Windows.
#[derive(Debug, Clone, Copy, PartialEq, Eq, Hash, Structural)]
pub enum WindowsABI {
    /// Microsoft Visual C++ compiler.
    MSVC,
    /// The MinGW compiler (GCC as built for MSYS2).
    MinGW,
    /// Like MinGW, but with UCRT as the runtime and LLVM tools and libraries.
    LLVM,
}

impl WindowsABI {
    /// The name of the ABI in toolchain target triples.
    pub open spec fn rust_name(self) -> Seq<char> {
        match self {
            WindowsABI::MSVC => "msvc"@,
            WindowsABI::MinGW => "gnu"@,
            WindowsABI::LLVM => "gnullvm"@,
        }
    }

    /// Gets the name of the ABI used in toolchain target triples.
    pub fn get_rust_name(&self) -> (r: &'static str)
        ensures
            r@ == self.rust_name(),
    {
        match self {
            WindowsABI::MSVC => "msvc",
            WindowsABI::MinGW => "gnu",
            WindowsABI::LLVM => "gnullvm",
        }
    }
}

impl Default for WindowsABI {
    fn default() -> (r: Self)
        ensures
            r == WindowsABI::MSVC,
    {
        WindowsABI::MSVC
    }
}

/// System a library is compiled for.
#[derive(Debug, Clone, Copy, PartialEq, Eq, Hash, Structural)]
pub enum System {
    /// Android.
    Android,
    /// iOS.
    IOS,
    /// Linux.
    Linux,
    /// MacOS.
    MacOS,
    /// Web browser.
    Web,
    /// Windows, built with the given ABI.
    Windows(WindowsABI),
}

/// Every system, in enumeration order, with Windows built for `windows_abi`.
pub open spec fn all_systems(windows_abi: WindowsABI) -> Seq<System> {
    seq![
        System::Android,
        System::IOS,
        System::Linux,
        System::MacOS,
        System::Web,
        System::Windows(windows_abi),
    ]
}

impl System {
    /// The architectures the system supports, in enumeration order.
    pub open spec fn architectures(self) -> Seq<Architecture> {
        match self {
            System::Android => seq![
                Architecture::Generic,
                Architecture::Armv7,
                Architecture::Arm64,
                Architecture::X86_32,
                Architecture::X86_64,
            ],
            System::IOS => seq![Architecture::Generic, Architecture::Arm64],
            System::Linux => seq![
                Architecture::Generic,
                Architecture::Arm64,
                Architecture::Rv64,
                Architecture::X86_64,
            ],
            System::MacOS => seq![Architecture::Generic, Architecture::Arm64, Architecture::X86_64],
            System::Web => seq![Architecture::Generic, Architecture::Wasm32],
            System::Windows(_) => seq![
                Architecture::Generic,
                Architecture::Arm64,
                Architecture::X86_32,
                Architecture::X86_64,
            ],
        }
    }

    /// The lower-case name of the system.
    pub open spec fn name(self) -> Seq<char> {
        match self {
            System::Android => "android"@,
            System::IOS => "ios"@,
            System::Linux => "linux"@,
            System::MacOS => "macos"@,
            System::Web => "web"@,
            System::Windows(_) => "windows"@,
        }
    }

    /// What the file name of a compiled library starts with on this system.
    pub open spec fn lib_prefix(self) -> Seq<char> {
        match self {
            System::IOS | System::Linux | System::MacOS => "lib"@,
            System::Android | System::Windows(_) | System::Web => ""@,
        }
    }

    /// The extension of a compiled library on this system.
    pub open spec fn lib_extension(self) -> Seq<char> {
        match self {
            System::Android | System::Linux => "so"@,
            System::IOS => "ios.framework"@,
            System::MacOS => "dylib"@,
            System::Web => "wasm"@,
            System::Windows(_) => "dll"@,
        }
    }

    /// The file name of library `lib_name` compiled for this system.
    pub open spec fn lib_export_name(self, lib_name: Seq<char>) -> Seq<char> {
        self.lib_prefix() + lib_name + "."@ + self.lib_extension()
    }

    /// Gets all systems, with Windows built for `windows_abi`.
    pub fn get_systems(windows_abi: WindowsABI) -> (r: [Self; 6])
        ensures
            r@ == all_systems(windows_abi),
    {
        let r = [
            System::Android,
            System::IOS,
            System::Linux,
            System::MacOS,
            System::Web,
            System::Windows(windows_abi),
        ];
        assert(r@ =~= all_systems(windows_abi));
        r
    }

    /// Gets the architectures the system supports.
    pub fn get_architectures(&self) -> (r: Vec<Architecture>)
        ensures
            r@ == self.architectures(),
    {
        let r = match self {
            System::Android => vec![
                Architecture::Generic,
                Architecture::Armv7,
                Architecture::Arm64,
                Architecture::X86_32,
                Architecture::X86_64,
            ],
            System::IOS => vec![Architecture::Generic, Architecture::Arm64],
            System::Linux => vec![
                Architecture::Generic,
                Architecture::Arm64,
                Architecture::Rv64,
                Architecture::X86_64,
            ],
            System::MacOS => vec![Architecture::Generic, Architecture::Arm64, Architecture::X86_64],
            System::Web => vec![Architecture::Generic, Architecture::Wasm32],
            System::Windows(_) => vec![
                Architecture::Generic,
                Architecture::Arm64,
                Architecture::X86_32,
                Architecture::X86_64,
            ],
        };
        assert(r@ =~= self.architectures());
        r
    }

    /// Gets the lower-case name of the system.
    pub fn get_name(&self) -> (r: &'static str)
        ensures
            r@ == self.name(),
    {
        match self {
            System::Android => "android",
            System::IOS => "ios",
            System::Linux => "linux",
            System::MacOS => "macos",
            System::Web => "web",
            System::Windows(_) => "windows",
        }
    }

    /// Gets the file name of library `lib_name` compiled for this system.
    pub fn get_lib_export_name(&self, lib_name: &str) -> (r: String)
        ensures
            r@ == self.lib_export_name(lib_name@),
    {
        let prefix = match self {
            System::IOS | System::Linux | System::MacOS => "lib",
            System::Android | System::Windows(_) | System::Web => "",
        };
        let extension = match self {
            System::Android | System::Linux => "so",
            System::IOS => "ios.framework",
            System::MacOS => "dylib",
            System::Web => "wasm",
            System::Windows(_) => "dll",
        };
        let mut r = String::from_str(prefix);
        r.append(lib_name);
        r.append(".");
        r.append(extension);
        r
    }
}

/// Every system supports at least one architecture, the generic one among
/// them, and lists no architecture twice.
pub proof fn lemma_architectures_hold_generic(s: System)
    ensures
        s.architectures().len() > 0,
        s.architectures().contains(Architecture::Generic),
        s.architectures()[0] == Architecture::Generic,
        s.architectures().no_duplicates(),
{
    assert(s.architectures()[0] == Architecture::Generic);
}

/// The systems of one enumeration are distinct, their names tell them apart,
/// and no name is empty or holds a dot.
pub proof fn lemma_system_names_distinct(windows_abi: WindowsABI, a: System, b: System)
    requires
        all_systems(windows_abi).contains(a),
        all_systems(windows_abi).contains(b),
    ensures
        a.name() == b.name() ==> a == b,
        forall|i: int| 0 <= i < a.name().len() ==> a.name()[i] != '.',
        a.name().len() > 0,
{
    reveal_strlit("android");
    reveal_strlit("ios");
    reveal_strlit("linux");
    reveal_strlit("macos");
    reveal_strlit("web");
    reveal_strlit("windows");
    let systems = all_systems(windows_abi);
    let i = choose|i: int| 0 <= i < systems.len() && systems[i] == a;
    let j = choose|j: int| 0 <= j < systems.len() && systems[j] == b;
    let (na, nb) = (a.name(), b.name());
    if na == nb {
        assert(na[0] == nb[0]);
        assert(na.len() == nb.len());
    }
}

} // verus!

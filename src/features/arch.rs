//! CPU architectures and their two name projections.
use vstd::prelude::*;

verus! {

/// Architecture a library is compiled for.
#[derive(Debug, Clone, Copy, PartialEq, Eq, Hash, Structural)]
pub enum Architecture {
    /// The i686 architecture.
    X86_32,
    /// The x86_64 architecture.
    X86_64,
    /// The 32-bit ARMv7 architecture.
    Armv7,
    /// The AArch64 architecture.
    Arm64,
    /// The 64-bit RISC-V architecture.
    Rv64,
    /// The WebAssembly architecture.
    Wasm32,
    /// No architecture-specific build: a universal or platform-generic library.
    Generic,
}

impl Architecture {
    /// The name of the architecture in toolchain target triples.
    pub open spec fn rust_name(self) -> Seq<char> {
        match self {
            Architecture::X86_32 => "i686"@,
            Architecture::X86_64 => "x86_64"@,
            Architecture::Armv7 => "armv7"@,
            Architecture::Arm64 => "aarch64"@,
            Architecture::Rv64 => "riscv64gc"@,
            Architecture::Wasm32 => "wasm32"@,
            Architecture::Generic => ""@,
        }
    }

    /// The name of the architecture in the host's target keys.
    pub open spec fn godot_name(self) -> Seq<char> {
        match self {
            Architecture::X86_32 => "x86_32"@,
            Architecture::X86_64 => "x86_64"@,
            Architecture::Armv7 => "arm_32"@,
            Architecture::Arm64 => "arm_64"@,
            Architecture::Rv64 => "rv_64"@,
            Architecture::Wasm32 => "wasm32"@,
            Architecture::Generic => ""@,
        }
    }

    /// Gets the name of the architecture used in toolchain target triples.
    pub fn get_rust_name(&self) -> (r: &'static str)
        ensures
            r@ == self.rust_name(),
    {
        match self {
            Architecture::X86_32 => "i686",
            Architecture::X86_64 => "x86_64",
            Architecture::Armv7 => "armv7",
            Architecture::Arm64 => "aarch64",
            Architecture::Rv64 => "riscv64gc",
            Architecture::Wasm32 => "wasm32",
            Architecture::Generic => "",
        }
    }

    /// Gets the name of the architecture used in the host's target keys.
    pub fn get_godot_name(&self) -> (r: &'static str)
        ensures
            r@ == self.godot_name(),
    {
        match self {
            Architecture::X86_32 => "x86_32",
            Architecture::X86_64 => "x86_64",
            Architecture::Armv7 => "arm_32",
            Architecture::Arm64 => "arm_64",
            Architecture::Rv64 => "rv_64",
            Architecture::Wasm32 => "wasm32",
            Architecture::Generic => "",
        }
    }
}

/// The host names of distinct architectures differ, and none holds a dot.
pub proof fn lemma_godot_names_distinct(a: Architecture, b: Architecture)
    ensures
        a.godot_name() == b.godot_name() ==> a == b,
        forall|i: int| 0 <= i < a.godot_name().len() ==> a.godot_name()[i] != '.',
        a.godot_name().len() == 0 <==> a == Architecture::Generic,
{
    reveal_strlit("x86_32");
    reveal_strlit("x86_64");
    reveal_strlit("arm_32");
    reveal_strlit("arm_64");
    reveal_strlit("rv_64");
    reveal_strlit("wasm32");
    reveal_strlit("");
    let (na, nb) = (a.godot_name(), b.godot_name());
    if na == nb && na.len() > 0 {
        assert(na[0] == nb[0] && na[4] == nb[4]);
        match a {
            Architecture::X86_32 => assert(na[0] == 'x' && na[4] == '3'),
            Architecture::X86_64 => assert(na[0] == 'x' && na[4] == '6'),
            Architecture::Armv7 => assert(na[0] == 'a' && na[4] == '3'),
            Architecture::Arm64 => assert(na[0] == 'a' && na[4] == '6'),
            Architecture::Rv64 => assert(na[0] == 'r' && na[4] == '4'),
            Architecture::Wasm32 => assert(na[0] == 'w' && na[4] == '3'),
            Architecture::Generic => {},
        }
        match b {
            Architecture::X86_32 => assert(nb[0] == 'x' && nb[4] == '3'),
            Architecture::X86_64 => assert(nb[0] == 'x' && nb[4] == '6'),
            Architecture::Armv7 => assert(nb[0] == 'a' && nb[4] == '3'),
            Architecture::Arm64 => assert(nb[0] == 'a' && nb[4] == '6'),
            Architecture::Rv64 => assert(nb[0] == 'r' && nb[4] == '4'),
            Architecture::Wasm32 => assert(nb[0] == 'w' && nb[4] == '3'),
            Architecture::Generic => {},
        }
    }
}

} // verus!

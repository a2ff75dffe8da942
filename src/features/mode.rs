//! Build modes and their two name projections.
use vstd::prelude::*;

verus! {

/// Mode a library is compiled in.
#[derive(Debug, Clone, Copy, PartialEq, Eq, Hash, Structural)]
pub enum Mode {
    /// Debug mode.
    Debug,
    /// Release mode.
    Release,
    /// Editor mode: a debug build that the host loads in its editor.
    Editor,
}

/// Every build mode, in enumeration order.
pub open spec fn all_modes() -> Seq<Mode> {
    seq![Mode::Debug, Mode::Release, Mode::Editor]
}

impl Mode {
    /// The name of the mode's folder in the toolchain's output directory.
    pub open spec fn rust_name(self) -> Seq<char> {
        match self {
            Mode::Debug | Mode::Editor => "debug"@,
            Mode::Release => "release"@,
        }
    }

    /// The name of the mode in the host's target keys.
    pub open spec fn godot_name(self) -> Seq<char> {
        match self {
            Mode::Debug => "debug"@,
            Mode::Release => "release"@,
            Mode::Editor => "editor"@,
        }
    }

    /// Gets all build modes.
    pub fn get_modes() -> (r: [Self; 3])
        ensures
            r@ == all_modes(),
    {
        let r = [Mode::Debug, Mode::Release, Mode::Editor];
        assert(r@ =~= all_modes());
        r
    }

    /// Gets the name of the mode's folder in the toolchain's output directory.
    pub fn get_rust_name(&self) -> (r: &'static str)
        ensures
            r@ == self.rust_name(),
    {
        match self {
            Mode::Debug | Mode::Editor => "debug",
            Mode::Release => "release",
        }
    }

    /// Gets the name of the mode used in the host's target keys.
    pub fn get_godot_name(&self) -> (r: &'static str)
        ensures
            r@ == self.godot_name(),
    {
        match self {
            Mode::Debug => "debug",
            Mode::Release => "release",
            Mode::Editor => "editor",
        }
    }
}

/// The host names of distinct modes differ, none is empty and none holds a dot.
pub proof fn lemma_mode_names_distinct(a: Mode, b: Mode)
    ensures
        a.godot_name() == b.godot_name() ==> a == b,
        forall|i: int| 0 <= i < a.godot_name().len() ==> a.godot_name()[i] != '.',
        a.godot_name().len() > 0,
{
    reveal_strlit("debug");
    reveal_strlit("release");
    reveal_strlit("editor");
    let (na, nb) = (a.godot_name(), b.godot_name());
    if na == nb {
        assert(na[0] == nb[0]);
    }
}

/// Editor and debug builds share the toolchain's folder but not the host name.
pub proof fn lemma_editor_is_debug_build()
    ensures
        Mode::Editor.rust_name() == Mode::Debug.rust_name(),
        Mode::Editor.godot_name() != Mode::Debug.godot_name(),
{
    lemma_mode_names_distinct(Mode::Editor, Mode::Debug);
}

} // verus!

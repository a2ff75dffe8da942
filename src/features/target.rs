//! A (system, mode, architecture) combination and the two identifiers it
//! resolves to: the toolchain target triple and the host's target key.
use vstd::prelude::*;
use vstd::string::*;
use super::arch::{Architecture, lemma_godot_names_distinct};
use super::mode::{Mode, lemma_mode_names_distinct};
use super::sys::{System, WindowsABI, all_systems, lemma_system_names_distinct};

verus! {

/// Combination of system, mode and architecture a library is compiled for.
#[derive(Debug, Clone, Copy, PartialEq, Eq, Hash, Structural)]
pub struct Target(pub System, pub Mode, pub Architecture);

/// Whether `s` holds no dot.
pub open spec fn dot_free(s: Seq<char>) -> bool {
    forall|i: int| 0 <= i < s.len() ==> s[i] != '.'
}

impl Target {
    /// The toolchain target triple of the combination; empty for the generic
    /// architecture.
    pub open spec fn rust_triple(self) -> Seq<char> {
        let a = self.2.rust_name();
        let s = self.0.name();
        if self.2 == Architecture::Generic {
            Seq::empty()
        } else {
            match self.0 {
                System::Android => a + "-linux-"@ + s + if self.2 == Architecture::Armv7 {
                    "eabi"@
                } else {
                    ""@
                },
                System::IOS => a + "-apple-"@ + s,
                System::Linux => a + "-unknown-"@ + s + "-gnu"@,
                System::MacOS => a + "-apple-darwin"@,
                System::Web => a + "-unknown-emscripten"@,
                System::Windows(abi) => a + "-pc-"@ + s + "-"@ + abi.rust_name(),
            }
        }
    }

    /// The host's key for the combination: system and mode names, and the
    /// architecture's name unless it is the generic one, joined by dots.
    pub open spec fn godot_target(self) -> Seq<char> {
        if self.2 == Architecture::Generic {
            self.0.name() + "."@ + self.1.godot_name()
        } else {
            self.0.name() + "."@ + self.1.godot_name() + "."@ + self.2.godot_name()
        }
    }

    /// Gets the toolchain target triple of this target.
    pub fn get_rust_target_triple(&self) -> (r: String)
        ensures
            r@ == self.rust_triple(),
    {
        if self.2 == Architecture::Generic {
            return String::new();
        }
        let mut r = String::from_str(self.2.get_rust_name());
        match self.0 {
            System::Android => {
                r.append("-linux-");
                r.append(self.0.get_name());
                if self.2 == Architecture::Armv7 {
                    r.append("eabi");
                } else {
                    r.append("");
                }
            },
            System::IOS => {
                r.append("-apple-");
                r.append(self.0.get_name());
            },
            System::Linux => {
                r.append("-unknown-");
                r.append(self.0.get_name());
                r.append("-gnu");
            },
            System::MacOS => {
                r.append("-apple-darwin");
            },
            System::Web => {
                r.append("-unknown-emscripten");
            },
            System::Windows(windows_abi) => {
                r.append("-pc-");
                r.append(self.0.get_name());
                r.append("-");
                r.append(windows_abi.get_rust_name());
            },
        }
        r
    }

    /// Gets the host's key for this target.
    pub fn get_godot_target(&self) -> (r: String)
        ensures
            r@ == self.godot_target(),
    {
        let mut r = String::from_str(self.0.get_name());
        r.append(".");
        r.append(self.1.get_godot_name());
        if self.2 != Architecture::Generic {
            r.append(".");
            r.append(self.2.get_godot_name());
        }
        r
    }
}

/// Resolution depends on the target alone. For the generic architecture the
/// triple is empty and the key is system and mode; otherwise the key adds the
/// architecture, and a MacOS triple ends with `-apple-darwin`.
pub proof fn lemma_resolution(t1: Target, t2: Target)
    ensures
        t1 == t2 ==> t1.rust_triple() == t2.rust_triple() && t1.godot_target()
            == t2.godot_target(),
        t1.2 == Architecture::Generic ==> t1.rust_triple().len() == 0 && t1.godot_target()
            == t1.0.name() + "."@ + t1.1.godot_name(),
        t1.2 != Architecture::Generic ==> t1.godot_target() == t1.0.name() + "."@
            + t1.1.godot_name() + "."@ + t1.2.godot_name(),
        t1.0 == System::MacOS && t1.2 != Architecture::Generic ==> "-apple-darwin"@.is_suffix_of(
            t1.rust_triple(),
        ),
{
    if t1.0 == System::MacOS && t1.2 != Architecture::Generic {
        let a = t1.2.rust_name();
        let d = "-apple-darwin"@;
        assert((a + d).subrange(a.len() as int, (a + d).len() as int) =~= d);
    }
}

/// Two strings that each start with a dot-free part followed by a dot are
/// equal only if the parts and what follows the dots are equal.
pub proof fn lemma_split_at_dot(x: Seq<char>, r1: Seq<char>, y: Seq<char>, r2: Seq<char>)
    requires
        dot_free(x),
        dot_free(y),
        x + "."@ + r1 == y + "."@ + r2,
    ensures
        x == y,
        r1 == r2,
{
    reveal_strlit(".");
    let l = x + "."@ + r1;
    let m = y + "."@ + r2;
    if x.len() < y.len() {
        assert(l[x.len() as int] == '.');
        assert(m[x.len() as int] == y[x.len() as int]);
    }
    if y.len() < x.len() {
        assert(m[y.len() as int] == '.');
        assert(l[y.len() as int] == x[y.len() as int]);
    }
    assert(x =~= l.subrange(0, x.len() as int));
    assert(y =~= m.subrange(0, y.len() as int));
    assert(r1 =~= l.subrange(x.len() as int + 1, l.len() as int));
    assert(r2 =~= m.subrange(y.len() as int + 1, m.len() as int));
}

/// Two targets whose systems come from one enumeration have the same host key
/// only if they are the same target.
pub proof fn lemma_godot_target_injective(windows_abi: WindowsABI, t1: Target, t2: Target)
    requires
        all_systems(windows_abi).contains(t1.0),
        all_systems(windows_abi).contains(t2.0),
        t1.godot_target() == t2.godot_target(),
    ensures
        t1 == t2,
{
    reveal_strlit(".");
    lemma_system_names_distinct(windows_abi, t1.0, t2.0);
    lemma_system_names_distinct(windows_abi, t2.0, t1.0);
    lemma_mode_names_distinct(t1.1, t2.1);
    lemma_mode_names_distinct(t2.1, t1.1);
    lemma_godot_names_distinct(t1.2, t2.2);
    lemma_godot_names_distinct(t2.2, t1.2);
    let (s1, m1, a1) = (t1.0.name(), t1.1.godot_name(), t1.2.godot_name());
    let (s2, m2, a2) = (t2.0.name(), t2.1.godot_name(), t2.2.godot_name());
    let rest1 = if t1.2 == Architecture::Generic { m1 } else { m1 + "."@ + a1 };
    let rest2 = if t2.2 == Architecture::Generic { m2 } else { m2 + "."@ + a2 };
    assert(t1.godot_target() =~= s1 + "."@ + rest1);
    assert(t2.godot_target() =~= s2 + "."@ + rest2);
    lemma_split_at_dot(s1, rest1, s2, rest2);
    if t1.2 != Architecture::Generic && t2.2 != Architecture::Generic {
        lemma_split_at_dot(m1, a1, m2, a2);
    } else if t1.2 != Architecture::Generic {
        assert(rest1[m1.len() as int] == '.');
    } else if t2.2 != Architecture::Generic {
        assert(rest2[m2.len() as int] == '.');
    }
}

} // verus!

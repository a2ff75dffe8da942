//! The dependencies section: for each target, the paths of the native
//! dependencies its library needs and the subfolder each is placed in.
use vstd::prelude::*;
use vstd::string::*;
use crate::args::BaseDirectory;
use crate::features::sys::System;
use crate::features::target::Target;
use crate::text::{slashed, to_forward_slashes};
use super::table::Entry;
use super::GDExtension;

verus! {

/// The subfolder native dependencies go to on system `s`: MacOS places them
/// in its bundle's frameworks folder, every other system beside the library.
pub open spec fn dependency_folder(s: System) -> Seq<char> {
    match s {
        System::MacOS => "Contents/Frameworks"@,
        _ => ""@,
    }
}

/// The dependencies entry of target `t` with dependency paths `paths`: the
/// target's host key, and each path after the base directory's marker, with
/// forward slashes, paired with the system's subfolder.
pub open spec fn dependency_entry(base_dir: BaseDirectory, t: Target, paths: Seq<Seq<char>>) -> (
    Seq<char>,
    Seq<Entry>,
) {
    (
        t.godot_target(),
        paths.map_values(|p: Seq<char>| (base_dir.marker() + slashed(p), dependency_folder(t.0))),
    )
}

/// The view of one generated dependencies entry.
pub open spec fn dependency_view(d: (String, Vec<(String, String)>)) -> (Seq<char>, Seq<Entry>) {
    (d.0@, d.1@.map_values(|e: (String, String)| (e.0@, e.1@)))
}

impl GDExtension {
    /// Generates the dependencies section: one entry per target of
    /// `dependencies`, in order.
    pub fn generate_deps(base_dir: BaseDirectory, dependencies: &Vec<(Target, Vec<String>)>) -> (r:
        Vec<(String, Vec<(String, String)>)>)
        ensures
            r@.len() == dependencies@.len(),
            forall|i: int|
                0 <= i < r@.len() ==> dependency_view(#[trigger] r@[i]) == dependency_entry(
                    base_dir,
                    dependencies@[i].0,
                    dependencies@[i].1@.map_values(|p: String| p@),
                ),
    {
        let mut r: Vec<(String, Vec<(String, String)>)> = Vec::new();
        let mut i: usize = 0;
        while i < dependencies.len()
            invariant
                i <= dependencies@.len(),
                r@.len() == i,
                forall|j: int|
                    0 <= j < i ==> dependency_view(#[trigger] r@[j]) == dependency_entry(
                        base_dir,
                        dependencies@[j].0,
                        dependencies@[j].1@.map_values(|p: String| p@),
                    ),
            decreases dependencies@.len() - i,
        {
            let target = &dependencies[i].0;
            let paths = &dependencies[i].1;
            let folder = match target.0 {
                System::MacOS => "Contents/Frameworks",
                _ => "",
            };
            let ghost want = dependency_entry(
                base_dir,
                *target,
                paths@.map_values(|p: String| p@),
            ).1;
            let mut entries: Vec<(String, String)> = Vec::new();
            let mut k: usize = 0;
            while k < paths.len()
                invariant
                    k <= paths@.len(),
                    folder@ == dependency_folder(target.0),
                    want == dependency_entry(
                        base_dir,
                        *target,
                        paths@.map_values(|p: String| p@),
                    ).1,
                    want.len() == paths@.len(),
                    entries@.len() == k,
                    forall|j: int|
                        0 <= j < k ==> (entries@[j].0@, entries@[j].1@) == #[trigger] want[j],
                decreases paths@.len() - k,
            {
                let mut path = String::from_str(base_dir.as_str());
                path.append(to_forward_slashes(paths[k].as_str()).as_str());
                entries.push((path, String::from_str(folder)));
                k += 1;
            }
            assert(entries@.map_values(|e: (String, String)| (e.0@, e.1@)) =~= want);
            let key = target.get_godot_target();
            r.push((key, entries));
            i += 1;
        }
        r
    }
}

} // verus!

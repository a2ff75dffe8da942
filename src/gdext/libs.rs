//! The libraries section: one artifact path for every combination of system,
//! supported architecture and mode.
use vstd::prelude::*;
use vstd::string::*;
use crate::args::BaseDirectory;
use crate::features::arch::Architecture;
use crate::features::mode::{Mode, all_modes, lemma_mode_names_distinct};
use crate::features::sys::{System, WindowsABI, all_systems, lemma_architectures_hold_generic};
use crate::features::target::{Target, lemma_godot_target_injective};
use crate::text::{joined, slashed, join, to_forward_slashes};
use super::table::{
    Entry, insert_all, keys_of, lemma_insert_all_distinct, lemma_insert_all_push,
};
use super::GDExtension;

verus! {

/// The path, below the output directory and with backslashes turned into
/// forward slashes, of the artifact built for target `t`, after the base
/// directory's marker: `target_dir/triple/mode/file`, without the triple for
/// the generic architecture.
pub open spec fn library_path_of(
    base_dir: BaseDirectory,
    lib_name: Seq<char>,
    target_dir: Seq<char>,
    t: Target,
) -> Seq<char> {
    let file = t.0.lib_export_name(lib_name);
    let rel = if t.2 == Architecture::Generic {
        joined(joined(target_dir, t.1.rust_name()), file)
    } else {
        joined(joined(joined(target_dir, t.rust_triple()), t.1.rust_name()), file)
    };
    base_dir.marker() + slashed(rel)
}

/// The libraries entry of target `t`: its host key and its artifact path.
pub open spec fn library_entry(
    base_dir: BaseDirectory,
    lib_name: Seq<char>,
    target_dir: Seq<char>,
    t: Target,
) -> Entry {
    (t.godot_target(), library_path_of(base_dir, lib_name, target_dir, t))
}

/// The libraries entries of the targets `ts`, in order.
pub open spec fn library_entries_of(
    base_dir: BaseDirectory,
    lib_name: Seq<char>,
    target_dir: Seq<char>,
    ts: Seq<Target>,
) -> Seq<Entry> {
    ts.map_values(|t: Target| library_entry(base_dir, lib_name, target_dir, t))
}

/// The targets of system `s` and architecture `a`, one per mode.
pub open spec fn mode_targets(s: System, a: Architecture) -> Seq<Target> {
    all_modes().map_values(|m: Mode| Target(s, m, a))
}

/// The targets of system `s` for its first `n` architectures.
pub open spec fn arch_targets(s: System, n: int) -> Seq<Target>
    decreases n,
{
    if n <= 0 {
        Seq::empty()
    } else {
        arch_targets(s, n - 1) + mode_targets(s, s.architectures()[n - 1])
    }
}

/// The targets of the first `n` systems.
pub open spec fn matrix_upto(windows_abi: WindowsABI, n: int) -> Seq<Target>
    decreases n,
{
    if n <= 0 {
        Seq::empty()
    } else {
        let s = all_systems(windows_abi)[n - 1];
        matrix_upto(windows_abi, n - 1) + arch_targets(s, s.architectures().len() as int)
    }
}

/// Every target: each system, each architecture it supports, each mode.
pub open spec fn target_matrix(windows_abi: WindowsABI) -> Seq<Target> {
    matrix_upto(windows_abi, all_systems(windows_abi).len() as int)
}

/// The sum, over the first `n` systems, of the number of architectures the
/// system supports times the number of modes.
pub open spec fn matrix_size_upto(windows_abi: WindowsABI, n: int) -> nat
    decreases n,
{
    if n <= 0 {
        0
    } else {
        matrix_size_upto(windows_abi, n - 1) + all_systems(windows_abi)[n
            - 1].architectures().len() * all_modes().len()
    }
}

/// The number of architectures of each system times the number of modes,
/// summed over the systems.
pub open spec fn matrix_size(windows_abi: WindowsABI) -> nat {
    matrix_size_upto(windows_abi, all_systems(windows_abi).len() as int)
}

/// The libraries section for a run: the entry of every target of the matrix.
pub open spec fn library_entries(
    base_dir: BaseDirectory,
    lib_name: Seq<char>,
    target_dir: Seq<char>,
    windows_abi: WindowsABI,
) -> Seq<Entry> {
    library_entries_of(base_dir, lib_name, target_dir, target_matrix(windows_abi))
}

/// Computes the artifact path of `target`, relative to `base_dir`, for library
/// `lib_name` built into `target_dir`.
pub fn library_path(
    base_dir: BaseDirectory,
    lib_name: &str,
    target_dir: &str,
    target: &Target,
) -> (r: String)
    ensures
        r@ == library_path_of(base_dir, lib_name@, target_dir@, *target),
{
    let file = target.0.get_lib_export_name(lib_name);
    let mode = target.1.get_rust_name();
    let rel = if target.2 == Architecture::Generic {
        join(join(target_dir, mode).as_str(), file.as_str())
    } else {
        let triple = target.get_rust_target_triple();
        join(join(join(target_dir, triple.as_str()).as_str(), mode).as_str(), file.as_str())
    };
    let mut r = String::from_str(base_dir.as_str());
    r.append(to_forward_slashes(rel.as_str()).as_str());
    r
}

/// The targets of system `s` for its first `n` architectures: there are `n`
/// times the number of modes of them, all distinct, each of system `s` and of
/// one of those architectures.
proof fn lemma_arch_targets(s: System, n: int)
    requires
        0 <= n <= s.architectures().len(),
    ensures
        arch_targets(s, n).len() == n * all_modes().len(),
        arch_targets(s, n).no_duplicates(),
        forall|i: int|
            0 <= i < arch_targets(s, n).len() ==> arch_targets(s, n)[i].0 == s
                && s.architectures().take(n).contains(#[trigger] arch_targets(s, n)[i].2),
    decreases n,
{
    if n > 0 {
        lemma_arch_targets(s, n - 1);
        lemma_architectures_hold_generic(s);
        let archs = s.architectures();
        let a = archs[n - 1];
        let prev = arch_targets(s, n - 1);
        let block = mode_targets(s, a);
        assert(block.no_duplicates()) by {
            assert forall|i: int, j: int|
                0 <= i < block.len() && 0 <= j < block.len() && i != j implies block[i]
                != block[j] by {
                lemma_mode_names_distinct(all_modes()[i], all_modes()[j]);
            }
        }
        assert forall|i: int, j: int|
            0 <= i < prev.len() && 0 <= j < block.len() implies prev[i] != block[j] by {
            let earlier = archs.take(n - 1);
            let k = choose|k: int| 0 <= k < earlier.len() && #[trigger] earlier[k] == prev[i].2;
            assert(archs[k] != archs[n - 1]);
        }
        vstd::seq_lib::lemma_no_dup_in_concat(prev, block);
        let all = arch_targets(s, n);
        assert forall|i: int| 0 <= i < all.len() implies all[i].0 == s && archs.take(n).contains(
            #[trigger] all[i].2,
        ) by {
            if i < prev.len() {
                assert(all[i] == prev[i]);
                let earlier = archs.take(n - 1);
                let k = choose|k: int| 0 <= k < earlier.len() && #[trigger] earlier[k] == prev[i].2;
                assert(archs.take(n)[k] == all[i].2);
            } else {
                assert(all[i] == block[i - prev.len()]);
                assert(archs.take(n)[n - 1] == all[i].2);
            }
        }
        assert(n * all_modes().len() == (n - 1) * all_modes().len() + all_modes().len())
            by (nonlinear_arith);
    }
}

/// The targets of the first `n` systems: as many as `matrix_size_upto` says,
/// all distinct, each of one of those systems and of an architecture the
/// system supports.
proof fn lemma_matrix_upto(windows_abi: WindowsABI, n: int)
    requires
        0 <= n <= all_systems(windows_abi).len(),
    ensures
        matrix_upto(windows_abi, n).len() == matrix_size_upto(windows_abi, n),
        matrix_upto(windows_abi, n).no_duplicates(),
        forall|i: int|
            0 <= i < matrix_upto(windows_abi, n).len() ==> all_systems(windows_abi).take(
                n,
            ).contains(#[trigger] matrix_upto(windows_abi, n)[i].0)
                && matrix_upto(windows_abi, n)[i].0.architectures().contains(
                matrix_upto(windows_abi, n)[i].2,
            ),
    decreases n,
{
    if n > 0 {
        lemma_matrix_upto(windows_abi, n - 1);
        let systems = all_systems(windows_abi);
        let s = systems[n - 1];
        let prev = matrix_upto(windows_abi, n - 1);
        let block = arch_targets(s, s.architectures().len() as int);
        lemma_arch_targets(s, s.architectures().len() as int);
        assert(s.architectures().take(s.architectures().len() as int) =~= s.architectures());
        assert forall|i: int, j: int|
            0 <= i < prev.len() && 0 <= j < block.len() implies prev[i] != block[j] by {
            let earlier = systems.take(n - 1);
            let k = choose|k: int| 0 <= k < earlier.len() && #[trigger] earlier[k] == prev[i].0;
            assert(systems[k] != systems[n - 1]);
        }
        vstd::seq_lib::lemma_no_dup_in_concat(prev, block);
        let all = matrix_upto(windows_abi, n);
        assert forall|i: int| 0 <= i < all.len() implies systems.take(n).contains(
            #[trigger] all[i].0,
        ) && all[i].0.architectures().contains(all[i].2) by {
            if i < prev.len() {
                assert(all[i] == prev[i]);
                let earlier = systems.take(n - 1);
                let k = choose|k: int| 0 <= k < earlier.len() && #[trigger] earlier[k] == prev[i].0;
                assert(systems.take(n)[k] == all[i].0);
            } else {
                assert(all[i] == block[i - prev.len()]);
                assert(systems.take(n)[n - 1] == all[i].0);
            }
        }
    }
}

/// The libraries section of a run has one entry for every system, every
/// architecture the system supports and every mode, that is the sum over the
/// systems of the number of architectures times the number of modes; no two
/// entries share a key, so filling an empty table yields the entries as they
/// are.
pub proof fn lemma_library_matrix(
    base_dir: BaseDirectory,
    lib_name: Seq<char>,
    target_dir: Seq<char>,
    windows_abi: WindowsABI,
)
    ensures
        target_matrix(windows_abi).len() == matrix_size(windows_abi),
        library_entries(base_dir, lib_name, target_dir, windows_abi).len() == matrix_size(
            windows_abi,
        ),
        keys_of(library_entries(base_dir, lib_name, target_dir, windows_abi)).no_duplicates(),
        insert_all(Seq::empty(), library_entries(base_dir, lib_name, target_dir, windows_abi))
            == library_entries(base_dir, lib_name, target_dir, windows_abi),
        forall|i: int|
            0 <= i < target_matrix(windows_abi).len() ==> all_systems(windows_abi).contains(
                #[trigger] target_matrix(windows_abi)[i].0,
            ) && target_matrix(windows_abi)[i].0.architectures().contains(
                target_matrix(windows_abi)[i].2,
            ),
{
    let systems = all_systems(windows_abi);
    let ts = target_matrix(windows_abi);
    lemma_matrix_upto(windows_abi, systems.len() as int);
    assert(systems.take(systems.len() as int) =~= systems);
    let es = library_entries(base_dir, lib_name, target_dir, windows_abi);
    let keys = keys_of(es);
    assert forall|i: int, j: int|
        0 <= i < keys.len() && 0 <= j < keys.len() && i != j implies keys[i] != keys[j] by {
        assert(keys[i] == ts[i].godot_target());
        assert(keys[j] == ts[j].godot_target());
        if keys[i] == keys[j] {
            lemma_godot_target_injective(windows_abi, ts[i], ts[j]);
        }
    }
    lemma_insert_all_distinct(es);
}

impl GDExtension {
    /// Fills the libraries section: for every system (Windows built with
    /// `windows_abi`), every architecture it supports and every mode, sets the
    /// target's host key to the path of its artifact.
    pub fn generate_libs(
        &mut self,
        base_dir: BaseDirectory,
        lib_name: &str,
        windows_abi: WindowsABI,
        target_dir: &str,
    )
        requires
            old(self).libraries.well_formed(),
        ensures
            final(self).libraries@ == insert_all(
                old(self).libraries@,
                library_entries(base_dir, lib_name@, target_dir@, windows_abi),
            ),
            final(self).libraries.well_formed(),
            final(self).configuration == old(self).configuration,
            final(self).icons == old(self).icons,
            final(self).dependencies == old(self).dependencies,
    {
        let ghost start = self.libraries@;
        let systems = System::get_systems(windows_abi);
        let modes = Mode::get_modes();
        let mut si: usize = 0;
        while si < systems.len()
            invariant
                si <= systems@.len(),
                systems@ == all_systems(windows_abi),
                modes@ == all_modes(),
                self.libraries.well_formed(),
                self.libraries@ == insert_all(
                    start,
                    library_entries_of(
                        base_dir,
                        lib_name@,
                        target_dir@,
                        matrix_upto(windows_abi, si as int),
                    ),
                ),
                self.configuration == old(self).configuration,
                self.icons == old(self).icons,
                self.dependencies == old(self).dependencies,
            decreases systems@.len() - si,
        {
            let system = systems[si];
            let archs = system.get_architectures();
            let ghost done = matrix_upto(windows_abi, si as int);
            let mut ai: usize = 0;
            while ai < archs.len()
                invariant
                    ai <= archs@.len(),
                    archs@ == system.architectures(),
                    modes@ == all_modes(),
                    self.libraries.well_formed(),
                    self.libraries@ == insert_all(
                        start,
                        library_entries_of(
                            base_dir,
                            lib_name@,
                            target_dir@,
                            done + arch_targets(system, ai as int),
                        ),
                    ),
                    self.configuration == old(self).configuration,
                    self.icons == old(self).icons,
                    self.dependencies == old(self).dependencies,
                decreases archs@.len() - ai,
            {
                let arch = archs[ai];
                let ghost before = done + arch_targets(system, ai as int);
                let mut mi: usize = 0;
                while mi < modes.len()
                    invariant
                        mi <= modes@.len(),
                        modes@ == all_modes(),
                        arch == system.architectures()[ai as int],
                        self.libraries.well_formed(),
                        self.libraries@ == insert_all(
                            start,
                            library_entries_of(
                                base_dir,
                                lib_name@,
                                target_dir@,
                                before + mode_targets(system, arch).take(mi as int),
                            ),
                        ),
                        self.configuration == old(self).configuration,
                        self.icons == old(self).icons,
                        self.dependencies == old(self).dependencies,
                    decreases modes@.len() - mi,
                {
                    let target = Target(system, modes[mi], arch);
                    let key = target.get_godot_target();
                    let path = library_path(base_dir, lib_name, target_dir, &target);
                    self.libraries.insert(key, path);
                    proof {
                        let prev = before + mode_targets(system, arch).take(mi as int);
                        let next = before + mode_targets(system, arch).take(mi + 1);
                        assert(next =~= prev.push(target));
                        let entry = library_entry(base_dir, lib_name@, target_dir@, target);
                        let done_entries = library_entries_of(
                            base_dir,
                            lib_name@,
                            target_dir@,
                            prev,
                        );
                        assert(library_entries_of(base_dir, lib_name@, target_dir@, next)
                            =~= done_entries.push(entry));
                        lemma_insert_all_push(start, done_entries, entry);
                    }
                    mi += 1;
                }
                proof {
                    let block = mode_targets(system, arch);
                    assert(block.take(mi as int) =~= block);
                    assert(before + mode_targets(system, arch) =~= done + arch_targets(
                        system,
                        ai + 1,
                    ));
                }
                ai += 1;
            }
            proof {
                assert(done + arch_targets(system, archs@.len() as int) =~= matrix_upto(
                    windows_abi,
                    si + 1,
                ));
            }
            si += 1;
        }
    }
}

} // verus!

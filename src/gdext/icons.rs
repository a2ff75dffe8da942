//! The icons section: an icon for each inferred class under the default
//! policy, then the overrides, which win over inferred entries.
use vstd::prelude::*;
use vstd::string::*;
use crate::args::BaseDirectory;
use crate::args::icons::{DefaultNodeIcon, IconsConfig, IconsDirectories};
use crate::text::{joined, slashed, join, to_forward_slashes};
use super::inherit::{BaseClassMap, ChildEntry};
use super::table::{
    Entry, StringTable, insert_all, keys_of, lookup, lemma_insert_all_push,
    lemma_lookup_after_insert_all,
};
use super::GDExtension;

verus! {

/// What every icon path starts with: the marker of the directory the icons'
/// base directory is relative to.
pub open spec fn icons_marker(dirs: IconsDirectories) -> Seq<char> {
    match dirs.relative_directory {
        Some(d) => d.marker(),
        None => BaseDirectory::ProjectFolder.marker(),
    }
}

/// The icon path that the default policy gives a class inheriting from `base`.
pub open spec fn inferred_icon_path(config: IconsConfig, base: Seq<char>) -> Seq<char> {
    let dirs = config.directories;
    let marker = icons_marker(dirs);
    match config.default {
        DefaultNodeIcon::BaseClass => marker + slashed(
            joined(joined(dirs.base_directory@, dirs.editor_directory@), base),
        ) + ".svg"@,
        DefaultNodeIcon::Custom(p) => marker + slashed(joined(dirs.base_directory@, p@)),
        DefaultNodeIcon::NodeRust(n, p) => marker + slashed(joined(dirs.base_directory@, p@))
            + "/"@ + n.file_name(),
        DefaultNodeIcon::Node => Seq::empty(),
    }
}

/// The icon path of an override naming `icon`, relative to the library's icons'
/// directory.
pub open spec fn override_icon_path(dirs: IconsDirectories, icon: Seq<char>) -> Seq<char> {
    icons_marker(dirs) + slashed(joined(joined(dirs.base_directory@, dirs.custom_directory@), icon))
}

/// The inferred entries of the classes recorded under one base.
pub open spec fn base_entries(config: IconsConfig, e: ChildEntry) -> Seq<Entry> {
    e.1.map_values(|c: Seq<char>| (c, inferred_icon_path(config, e.0)))
}

/// The inferred entries of map `m`: each class under each base, in order.
pub open spec fn inferred_entries_of(config: IconsConfig, m: Seq<ChildEntry>) -> Seq<Entry>
    decreases m.len(),
{
    if m.len() == 0 {
        Seq::empty()
    } else {
        inferred_entries_of(config, m.drop_last()) + base_entries(config, m.last())
    }
}

/// The inferred entries: none under the policy of no default icon.
pub open spec fn inferred_entries(config: IconsConfig, m: Seq<ChildEntry>) -> Seq<Entry> {
    match config.default {
        DefaultNodeIcon::Node => Seq::empty(),
        _ => inferred_entries_of(config, m),
    }
}

/// The entries of the overrides, in order.
pub open spec fn override_entries(config: IconsConfig) -> Seq<Entry> {
    match config.custom_icons {
        Some(v) => v@.map_values(
            |o: (String, String)| (o.0@, override_icon_path(config.directories, o.1@)),
        ),
        None => Seq::empty(),
    }
}

/// The icons section: the inferred entries inserted, then the overrides.
pub open spec fn icon_entries(config: IconsConfig, m: Seq<ChildEntry>) -> Seq<Entry> {
    insert_all(insert_all(Seq::empty(), inferred_entries(config, m)), override_entries(config))
}

fn icons_marker_exec(dirs: &IconsDirectories) -> (r: &'static str)
    ensures
        r@ == icons_marker(*dirs),
{
    match dirs.relative_directory {
        Some(d) => d.as_str(),
        None => BaseDirectory::ProjectFolder.as_str(),
    }
}

/// Computes the icon path that the default policy gives a class inheriting
/// from `base`.
pub fn inferred_icon(config: &IconsConfig, base: &String) -> (r: String)
    ensures
        r@ == inferred_icon_path(*config, base@),
{
    let dirs = &config.directories;
    let mut r = String::from_str(icons_marker_exec(dirs));
    match &config.default {
        DefaultNodeIcon::BaseClass => {
            let editor = join(dirs.base_directory.as_str(), dirs.editor_directory.as_str());
            r.append(to_forward_slashes(join(editor.as_str(), base.as_str()).as_str()).as_str());
            r.append(".svg");
        },
        DefaultNodeIcon::Custom(p) => {
            let path = join(dirs.base_directory.as_str(), p.as_str());
            r.append(to_forward_slashes(path.as_str()).as_str());
        },
        DefaultNodeIcon::NodeRust(n, p) => {
            let folder = join(dirs.base_directory.as_str(), p.as_str());
            r.append(to_forward_slashes(folder.as_str()).as_str());
            r.append("/");
            r.append(n.get_file_name());
        },
        DefaultNodeIcon::Node => {
            return String::new();
        },
    }
    r
}

/// Computes the icon path of an override naming `icon`.
pub fn override_icon(dirs: &IconsDirectories, icon: &String) -> (r: String)
    ensures
        r@ == override_icon_path(*dirs, icon@),
{
    let mut r = String::from_str(icons_marker_exec(dirs));
    let custom = join(dirs.base_directory.as_str(), dirs.custom_directory.as_str());
    r.append(to_forward_slashes(join(custom.as_str(), icon.as_str()).as_str()).as_str());
    r
}

/// Builds the icons section from the options and the inferred base classes.
pub fn icon_table(icons_config: &IconsConfig, base_class_to_nodes: &BaseClassMap) -> (r:
    StringTable)
    ensures
        r@ == icon_entries(*icons_config, base_class_to_nodes@),
        r.well_formed(),
{
    let mut icons = StringTable::new();
    let ghost m = base_class_to_nodes@;
    let inferring = match icons_config.default {
        DefaultNodeIcon::Node => false,
        _ => true,
    };
    if inferring {
        let entries = base_class_to_nodes.entries();
        let mut i: usize = 0;
        while i < entries.len()
            invariant
                i <= entries@.len(),
                entries@.map_values(
                    |e: (String, Vec<String>)| (e.0@, e.1@.map_values(|s: String| s@)),
                ) == m,
                icons.well_formed(),
                icons@ == insert_all(
                    Seq::empty(),
                    inferred_entries_of(*icons_config, m.take(i as int)),
                ),
            decreases entries@.len() - i,
        {
            let base = &entries[i].0;
            let nodes = &entries[i].1;
            let path = inferred_icon(icons_config, base);
            let ghost done = inferred_entries_of(*icons_config, m.take(i as int));
            let ghost children = nodes@.map_values(|s: String| s@);
            assert(m[i as int] == (base@, children));
            let mut j: usize = 0;
            while j < nodes.len()
                invariant
                    j <= nodes@.len(),
                    children == nodes@.map_values(|s: String| s@),
                    path@ == inferred_icon_path(*icons_config, base@),
                    icons.well_formed(),
                    icons@ == insert_all(
                        Seq::empty(),
                        done + base_entries(*icons_config, (base@, children)).take(j as int),
                    ),
                decreases nodes@.len() - j,
            {
                let node = nodes[j].clone();
                let ghost e = (node@, path@);
                icons.insert(node, path.clone());
                proof {
                    let prev = done + base_entries(*icons_config, (base@, children)).take(j as int);
                    let all = base_entries(*icons_config, (base@, children));
                    assert(done + all.take(j + 1) =~= prev.push(e));
                    lemma_insert_all_push(Seq::empty(), prev, e);
                }
                j += 1;
            }
            proof {
                let all = base_entries(*icons_config, (base@, children));
                assert(all.take(j as int) =~= all);
                assert(m.take(i + 1).drop_last() =~= m.take(i as int));
            }
            i += 1;
        }
        assert(m.take(i as int) =~= m);
    } else {
        assert(insert_all(Seq::empty(), inferred_entries(*icons_config, m))
            == Seq::<Entry>::empty());
    }
    let ghost inferred = icons@;
    match &icons_config.custom_icons {
        Some(custom) => {
            let ghost overrides = override_entries(*icons_config);
            let mut k: usize = 0;
            while k < custom.len()
                invariant
                    k <= custom@.len(),
                    icons_config.custom_icons == Some(*custom),
                    overrides == override_entries(*icons_config),
                    icons.well_formed(),
                    icons@ == insert_all(inferred, overrides.take(k as int)),
                decreases custom@.len() - k,
            {
                let node = custom[k].0.clone();
                let path = override_icon(&icons_config.directories, &custom[k].1);
                let ghost e = (node@, path@);
                icons.insert(node, path);
                proof {
                    assert(overrides.take(k + 1) =~= overrides.take(k as int).push(e));
                    lemma_insert_all_push(inferred, overrides.take(k as int), e);
                }
                k += 1;
            }
            assert(overrides.take(k as int) =~= overrides);
        },
        None => {},
    }
    icons
}

impl GDExtension {
    /// Fills the icons section from the options and from the base classes
    /// inferred from the library's sources.
    pub fn generate_icons(&mut self, icons_config: &IconsConfig, base_class_to_nodes: &BaseClassMap)
        ensures
            final(self).icons matches Some(t) && t@ == icon_entries(
                *icons_config,
                base_class_to_nodes@,
            ) && t.well_formed(),
            final(self).configuration == old(self).configuration,
            final(self).libraries == old(self).libraries,
            final(self).dependencies == old(self).dependencies,
    {
        self.icons = Some(icon_table(icons_config, base_class_to_nodes));
    }
}

/// An override sets its class's icon, whether or not the class was inferred;
/// a class that no override names keeps its inferred icon, if any.
pub proof fn lemma_overrides_win(config: IconsConfig, m: Seq<ChildEntry>, class: Seq<char>)
    ensures
        lookup(override_entries(config), class) is Some ==> lookup(icon_entries(config, m), class)
            == lookup(override_entries(config), class),
        lookup(override_entries(config), class) is None ==> lookup(icon_entries(config, m), class)
            == lookup(inferred_entries(config, m), class),
{
    let inferred = insert_all(Seq::empty(), inferred_entries(config, m));
    assert(keys_of(Seq::<Entry>::empty()).no_duplicates());
    lemma_lookup_after_insert_all(Seq::empty(), inferred_entries(config, m), class);
    lemma_lookup_after_insert_all(inferred, override_entries(config), class);
}

} // verus!

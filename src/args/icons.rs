//! The options of the icons section: the default icon policy, which bundled
//! icon files to copy, the icon directories and the per-class overrides.
use vstd::prelude::*;
use vstd::string::*;
use crate::text::{replaced, to_snake_case};
use super::BaseDirectory;

verus! {

/// One of the bundled node icons.
#[derive(Debug, Clone, Copy, PartialEq, Eq, Structural)]
pub enum NodeRust {
    /// Small icon.
    Small,
    /// Large icon.
    Large,
    /// Icon of the crab mascot.
    Ferris,
}

impl NodeRust {
    /// The file name of the bundled icon.
    pub open spec fn file_name(self) -> Seq<char> {
        match self {
            NodeRust::Small => "NodeRustSmall.svg"@,
            NodeRust::Large => "NodeRustLarge.svg"@,
            NodeRust::Ferris => "NodeRustFerris.svg"@,
        }
    }

    /// Gets the file name of the bundled icon.
    pub fn get_file_name(&self) -> (r: &'static str)
        ensures
            r@ == self.file_name(),
    {
        match self {
            NodeRust::Small => "NodeRustSmall.svg",
            NodeRust::Large => "NodeRustLarge.svg",
            NodeRust::Ferris => "NodeRustFerris.svg",
        }
    }
}

impl Default for NodeRust {
    fn default() -> (r: Self)
        ensures
            r == NodeRust::Small,
    {
        NodeRust::Small
    }
}

/// The icon that an inferred class gets when no override names it.
#[derive(Debug, Clone)]
pub enum DefaultNodeIcon {
    /// One icon for every inferred class, at the given path below the icons'
    /// base directory.
    Custom(String),
    /// The icon of the class's base class, in the editor icons' directory.
    BaseClass,
    /// A bundled icon, in the given folder below the icons' base directory.
    NodeRust(NodeRust, String),
    /// No icon: inferred classes get no entry.
    Node,
}

impl Default for DefaultNodeIcon {
    fn default() -> (r: Self)
        ensures
            r is Node,
    {
        DefaultNodeIcon::Node
    }
}

/// Which bundled icon files to copy, and where.
#[derive(Debug)]
pub struct IconsCopyStrategy {
    /// Whether to copy the bundled icon that the default policy uses.
    pub copy_node_rust: bool,
    /// Whether to copy every bundled icon.
    pub copy_all: bool,
    /// Folder the icons are copied to, relative to the package's folder.
    pub path_node_rust: String,
    /// Whether to copy a file even where it already exists.
    pub force_copy: bool,
}

impl IconsCopyStrategy {
    /// Creates a copy strategy from all its fields.
    pub fn new(
        copy_node_rust: bool,
        copy_all: bool,
        path_node_rust: String,
        force_copy: bool,
    ) -> (r: Self)
        ensures
            r.copy_node_rust == copy_node_rust,
            r.copy_all == copy_all,
            r.path_node_rust == path_node_rust,
            r.force_copy == force_copy,
    {
        IconsCopyStrategy { copy_node_rust, copy_all, path_node_rust, force_copy }
    }

    /// The same strategy, copying the bundled icon of the default policy.
    pub fn copying_node_rust(self) -> (r: Self)
        ensures
            r == (IconsCopyStrategy { copy_node_rust: true, ..self }),
    {
        IconsCopyStrategy { copy_node_rust: true, ..self }
    }

    /// The same strategy, copying the bundled icon of the default policy.
    pub fn copy_node_rust(self) -> (r: Self)
        ensures
            r == (IconsCopyStrategy { copy_node_rust: true, ..self }),
    {
        self.copying_node_rust()
    }

    /// The same strategy, copying to folder `path_node_rust`.
    pub fn with_path_node_rust(self, path_node_rust: String) -> (r: Self)
        ensures
            r == (IconsCopyStrategy { path_node_rust, ..self }),
    {
        IconsCopyStrategy { path_node_rust, ..self }
    }

    /// The same strategy, copying every bundled icon.
    pub fn copying_all(self) -> (r: Self)
        ensures
            r == (IconsCopyStrategy { copy_all: true, ..self }),
    {
        IconsCopyStrategy { copy_all: true, ..self }
    }

    /// The same strategy, copying files even where they exist.
    pub fn forcing_copy(self) -> (r: Self)
        ensures
            r == (IconsCopyStrategy { force_copy: true, ..self }),
    {
        IconsCopyStrategy { force_copy: true, ..self }
    }

    /// The same strategy, copying files even where they exist.
    pub fn force_copy(self) -> (r: Self)
        ensures
            r == (IconsCopyStrategy { force_copy: true, ..self }),
    {
        self.forcing_copy()
    }
}

impl Default for IconsCopyStrategy {
    fn default() -> (r: Self)
        ensures
            !r.copy_node_rust,
            !r.copy_all,
            r.path_node_rust@ == Seq::<char>::empty(),
            !r.force_copy,
    {
        IconsCopyStrategy {
            copy_node_rust: false,
            copy_all: false,
            path_node_rust: String::new(),
            force_copy: false,
        }
    }
}

/// The directories of the icons, each relative to the one before it.
#[derive(Debug)]
pub struct IconsDirectories {
    /// Folder of all icons, relative to the relative directory.
    pub base_directory: String,
    /// Folder of the editor's icons, relative to the base directory.
    pub editor_directory: String,
    /// Folder of this library's own icons, relative to the base directory.
    pub custom_directory: String,
    /// What the base directory is relative to; the run's base directory where
    /// it is `None`.
    pub relative_directory: Option<BaseDirectory>,
}

impl IconsDirectories {
    /// Creates the directories from all their fields.
    pub fn new(
        base_directory: String,
        editor_directory: String,
        custom_directory: String,
        relative_directory: Option<BaseDirectory>,
    ) -> (r: Self)
        ensures
            r == (IconsDirectories {
                base_directory,
                editor_directory,
                custom_directory,
                relative_directory,
            }),
    {
        IconsDirectories { base_directory, editor_directory, custom_directory, relative_directory }
    }

    /// Creates the directories, relative to the run's base directory.
    pub fn from_directories(
        base_directory: String,
        editor_directory: String,
        custom_directory: String,
    ) -> (r: Self)
        ensures
            r == (IconsDirectories {
                base_directory,
                editor_directory,
                custom_directory,
                relative_directory: None,
            }),
    {
        IconsDirectories {
            base_directory,
            editor_directory,
            custom_directory,
            relative_directory: None,
        }
    }

    /// The usual directories for package `package_name`: `addons`, `editor`
    /// below it, and the package's name, with dashes turned into underscores,
    /// below it too; relative to the run's base directory.
    pub fn from_package_name(package_name: &str) -> (r: Self)
        ensures
            r.base_directory@ == "addons"@,
            r.editor_directory@ == "editor"@,
            r.custom_directory@ == replaced(package_name@, '-', '_'),
            r.relative_directory is None,
    {
        IconsDirectories {
            base_directory: String::from_str("addons"),
            editor_directory: String::from_str("editor"),
            custom_directory: to_snake_case(package_name),
            relative_directory: None,
        }
    }

    /// The same directories with the three folders replaced.
    pub fn with_directories(
        self,
        base_directory: String,
        editor_directory: String,
        custom_directory: String,
    ) -> (r: Self)
        ensures
            r == (IconsDirectories { base_directory, editor_directory, custom_directory, ..self }),
    {
        IconsDirectories { base_directory, editor_directory, custom_directory, ..self }
    }

    /// The same directories with the base directory replaced.
    pub fn with_base_directory(self, base_directory: String) -> (r: Self)
        ensures
            r == (IconsDirectories { base_directory, ..self }),
    {
        IconsDirectories { base_directory, ..self }
    }

    /// The same directories with the editor icons' directory replaced.
    pub fn with_editor_directory(self, editor_directory: String) -> (r: Self)
        ensures
            r == (IconsDirectories { editor_directory, ..self }),
    {
        IconsDirectories { editor_directory, ..self }
    }

    /// The same directories with the library's icons' directory replaced.
    pub fn with_custom_directory(self, custom_directory: String) -> (r: Self)
        ensures
            r == (IconsDirectories { custom_directory, ..self }),
    {
        IconsDirectories { custom_directory, ..self }
    }

    /// The same directories, relative to `relative_directory`.
    pub fn with_relative_directory(self, relative_directory: BaseDirectory) -> (r: Self)
        ensures
            r == (IconsDirectories { relative_directory: Some(relative_directory), ..self }),
    {
        IconsDirectories { relative_directory: Some(relative_directory), ..self }
    }
}

/// The options of the icons section.
#[derive(Debug)]
pub struct IconsConfig {
    /// The icon of inferred classes that no override names.
    pub default: DefaultNodeIcon,
    /// Which bundled icon files to copy.
    pub copy_strategy: IconsCopyStrategy,
    /// Overrides: class name and icon path, relative to the library's icons'
    /// directory.
    pub custom_icons: Option<Vec<(String, String)>>,
    /// The directories of the icons.
    pub directories: IconsDirectories,
}

/// The bundled icons to copy under `config`: all of them where the strategy
/// copies all, else the default policy's own where the strategy copies it.
pub open spec fn icons_to_copy_of(config: IconsConfig) -> Seq<NodeRust> {
    if config.copy_strategy.copy_all {
        seq![NodeRust::Small, NodeRust::Large, NodeRust::Ferris]
    } else if config.copy_strategy.copy_node_rust {
        match config.default {
            DefaultNodeIcon::NodeRust(n, _) => seq![n],
            _ => Seq::empty(),
        }
    } else {
        Seq::empty()
    }
}

impl IconsConfig {
    /// Creates the options from all their fields.
    pub fn new(
        default: DefaultNodeIcon,
        copy_strategy: IconsCopyStrategy,
        custom_icons: Option<Vec<(String, String)>>,
        directories: IconsDirectories,
    ) -> (r: Self)
        ensures
            r == (IconsConfig { default, copy_strategy, custom_icons, directories }),
    {
        IconsConfig { default, copy_strategy, custom_icons, directories }
    }

    /// The bundled icons to copy, in order.
    pub fn icons_to_copy(&self) -> (r: Vec<NodeRust>)
        ensures
            r@ == icons_to_copy_of(*self),
    {
        let mut r: Vec<NodeRust> = Vec::new();
        if self.copy_strategy.copy_all {
            r.push(NodeRust::Small);
            r.push(NodeRust::Large);
            r.push(NodeRust::Ferris);
        } else if self.copy_strategy.copy_node_rust {
            match &self.default {
                DefaultNodeIcon::NodeRust(n, _) => r.push(*n),
                _ => {},
            }
        }
        assert(r@ =~= icons_to_copy_of(*self));
        r
    }
}

} // verus!

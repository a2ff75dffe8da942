//! The options a generation run is given.
use vstd::prelude::*;
use vstd::string::*;
use crate::text::{replaced, to_snake_case};

pub mod icons;

pub use self::icons::{
    DefaultNodeIcon, IconsConfig, IconsCopyStrategy, IconsDirectories, NodeRust,
};
pub use crate::features::sys::WindowsABI;

verus! {

/// Marker of a path relative to the host project's folder.
pub const PROJECT_FOLDER: &'static str = "res://";

/// Marker of a path relative to the folder that holds the manifest file.
pub const GDEXTENSION_FOLDER: &'static str = "";

/// Name of the default entry function of a library.
pub const DEFAULT_ENTRY_SYMBOL: &'static str = "gdext_rust_init";

/// The base directory that the manifest's paths are relative to.
#[derive(Debug, Clone, Copy, PartialEq, Eq, Structural)]
pub enum BaseDirectory {
    /// The host project's folder: paths start with `"res://"`.
    ProjectFolder,
    /// The folder of the manifest file: paths start with nothing.
    GDExtensionFolder,
}

impl BaseDirectory {
    /// What every path relative to this directory starts with.
    pub open spec fn marker(self) -> Seq<char> {
        match self {
            BaseDirectory::ProjectFolder => "res://"@,
            BaseDirectory::GDExtensionFolder => ""@,
        }
    }

    /// Retrieves what every path relative to this directory starts with.
    pub fn as_str(&self) -> (r: &'static str)
        ensures
            r@ == self.marker(),
    {
        match self {
            BaseDirectory::ProjectFolder => PROJECT_FOLDER,
            BaseDirectory::GDExtensionFolder => GDEXTENSION_FOLDER,
        }
    }
}

impl Default for BaseDirectory {
    fn default() -> (r: Self)
        ensures
            r == BaseDirectory::ProjectFolder,
    {
        BaseDirectory::ProjectFolder
    }
}

/// Entry symbol of the library: the function the host calls to load it.
#[derive(Debug, Clone)]
pub enum EntrySymbol {
    /// The default entry symbol, `"gdext_rust_init"`.
    GodotRustDefault,
    /// A symbol made of the package name: `"lib{package_name}_init"`, with
    /// dashes in the name turned into underscores.
    CrateNameBased,
    /// A symbol given as it is.
    Custom(String),
}

impl EntrySymbol {
    /// The symbol's name, for a package called `package_name`.
    pub open spec fn name(self, package_name: Seq<char>) -> Seq<char> {
        match self {
            EntrySymbol::GodotRustDefault => "gdext_rust_init"@,
            EntrySymbol::CrateNameBased => "lib"@ + replaced(package_name, '-', '_') + "_init"@,
            EntrySymbol::Custom(s) => s@,
        }
    }

    /// The symbol's name, for a package called `package_name`.
    pub fn to_string(&self, package_name: &str) -> (r: String)
        ensures
            r@ == self.name(package_name@),
    {
        match self {
            EntrySymbol::GodotRustDefault => String::from_str(DEFAULT_ENTRY_SYMBOL),
            EntrySymbol::CrateNameBased => {
                let snake = to_snake_case(package_name);
                let mut r = String::from_str("lib");
                r.append(snake.as_str());
                r.append("_init");
                r
            },
            EntrySymbol::Custom(s) => s.clone(),
        }
    }
}

impl Default for EntrySymbol {
    fn default() -> (r: Self)
        ensures
            r is GodotRustDefault,
    {
        EntrySymbol::GodotRustDefault
    }
}

} // verus!

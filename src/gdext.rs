//! The manifest and the generation of its sections.
pub mod config;
pub mod deps;
pub mod icons;
pub mod inherit;
pub mod libs;
pub mod scan;
pub mod table;

use vstd::prelude::*;
use self::config::Configuration;
use self::table::{Entry, StringTable, keys_of};
use crate::text::str_equal;

verus! {

/// The manifest: the configuration record, the libraries section, and the
/// optional icons and dependencies sections.
pub struct GDExtension {
    /// Configuration section, passed through as it is.
    pub configuration: Configuration,
    /// Libraries section: host target key to artifact path.
    pub libraries: StringTable,
    /// Icons section: class name to icon path.
    pub icons: Option<StringTable>,
    /// Dependencies section: host target key to the dependencies' paths, each
    /// with the subfolder it goes to.
    pub dependencies: Option<Vec<(String, Vec<(String, String)>)>>,
}

/// An error of a generation run.
#[derive(Debug, Clone, Copy, PartialEq, Eq, Structural)]
pub enum GenerationError {
    /// The manifest path has an extension other than `gdextension`.
    InvalidExtension,
    /// The manifest path has no extension and its file name is not
    /// `.gdextension`.
    NotAGdextensionFile,
    /// The libraries section has no entry.
    EmptyLibraries,
}

impl GenerationError {
    /// A description of the error.
    pub fn message(&self) -> &'static str {
        match self {
            GenerationError::InvalidExtension => "The extension of the file must be gdextension.",
            GenerationError::NotAGdextensionFile => {
                "The path to the gdextension file must lead to a .gdextension file."
            },
            GenerationError::EmptyLibraries => {
                "The libraries section of the gdextension file has no entry."
            },
        }
    }
}

/// Checks the manifest file's path, given its extension and its file name:
/// an extension must be `gdextension`; a path without one must be named
/// `.gdextension`.
pub fn check_gdextension_path(extension: Option<&str>, file_name: Option<&str>) -> (r: Result<
    (),
    GenerationError,
>)
    ensures
        r == match extension {
            Some(e) => if e@ == "gdextension"@ {
                Ok(())
            } else {
                Err(GenerationError::InvalidExtension)
            },
            None => match file_name {
                Some(f) => if f@ == ".gdextension"@ {
                    Ok(())
                } else {
                    Err(GenerationError::NotAGdextensionFile)
                },
                None => Err(GenerationError::NotAGdextensionFile),
            },
        },
{
    match extension {
        Some(e) => if str_equal(e, "gdextension") {
            Ok(())
        } else {
            Err(GenerationError::InvalidExtension)
        },
        None => match file_name {
            Some(f) => if str_equal(f, ".gdextension") {
                Ok(())
            } else {
                Err(GenerationError::NotAGdextensionFile)
            },
            None => Err(GenerationError::NotAGdextensionFile),
        },
    }
}

impl GDExtension {
    /// Creates a manifest with configuration `configuration` and every other
    /// section empty.
    pub fn from_config(configuration: Configuration) -> (r: Self)
        ensures
            r.configuration == configuration,
            r.libraries@ == Seq::<Entry>::empty(),
            r.libraries.well_formed(),
            r.icons is None,
            r.dependencies is None,
    {
        GDExtension {
            configuration,
            libraries: StringTable::new(),
            icons: None,
            dependencies: None,
        }
    }

    /// Gathers the sections into a manifest; an empty libraries section is a
    /// configuration error.
    pub fn assemble(
        configuration: Configuration,
        libraries: StringTable,
        icons: Option<StringTable>,
        dependencies: Option<Vec<(String, Vec<(String, String)>)>>,
    ) -> (r: Result<Self, GenerationError>)
        ensures
            libraries@.len() == 0 <==> r == Err::<Self, GenerationError>(
                GenerationError::EmptyLibraries,
            ),
            libraries@.len() > 0 ==> (r matches Ok(m) && m.configuration == configuration
                && m.libraries == libraries && m.icons == icons && m.dependencies == dependencies),
    {
        if libraries.is_empty() {
            Err(GenerationError::EmptyLibraries)
        } else {
            Ok(GDExtension { configuration, libraries, icons, dependencies })
        }
    }

    /// The keys of the libraries section, in order.
    pub fn library_keys(&self) -> (r: Vec<String>)
        ensures
            r@.map_values(|k: String| k@) == keys_of(self.libraries@),
    {
        let entries = self.libraries.entries();
        let mut r: Vec<String> = Vec::new();
        let mut i: usize = 0;
        while i < entries.len()
            invariant
                i <= entries@.len(),
                entries@.map_values(|e: (String, String)| (e.0@, e.1@)) == self.libraries@,
                r@.len() == i,
                forall|j: int| 0 <= j < i ==> r@[j]@ == self.libraries@[j].0,
            decreases entries@.len() - i,
        {
            assert(entries@.map_values(|e: (String, String)| (e.0@, e.1@))[i as int]
                == self.libraries@[i as int]);
            r.push(entries[i].0.clone());
            i += 1;
        }
        assert(r@.map_values(|k: String| k@) =~= keys_of(self.libraries@));
        r
    }
}

} // verus!

//! The configuration section: the entry symbol and the loading options,
//! carried through the run as they are.
use vstd::prelude::*;
use vstd::string::*;
use crate::args::EntrySymbol;

verus! {

/// Configuration section of the manifest.
#[derive(Debug)]
pub struct Configuration {
    /// Name of the library's entry function.
    pub entry_symbol: String,
    /// Oldest host version that may load the library, as (major, minor).
    pub compatibility_minimum: Option<(u8, u8)>,
    /// Newest host version that may load the library, as (major, minor).
    pub compatibility_maximum: Option<(u8, u8)>,
    /// Whether the host may reload the library when it is rebuilt.
    pub reloadable: Option<bool>,
    /// Whether the library's native files are exported by an Android plugin.
    pub android_aar_plugin: Option<bool>,
}

impl Configuration {
    /// Creates a configuration from options of their natural types: the entry
    /// symbol is named for package `package_name`, and each flag is recorded
    /// only when set.
    pub fn new(
        entry_symbol: EntrySymbol,
        package_name: &str,
        compatibility_minimum: Option<(u8, u8)>,
        compatibility_maximum: Option<(u8, u8)>,
        is_reloadable: bool,
        are_exported_by_android_aar_plugin: bool,
    ) -> (r: Self)
        ensures
            r.entry_symbol@ == entry_symbol.name(package_name@),
            r.compatibility_minimum == compatibility_minimum,
            r.compatibility_maximum == compatibility_maximum,
            r.reloadable == if is_reloadable {
                Some(true)
            } else {
                None
            },
            r.android_aar_plugin == if are_exported_by_android_aar_plugin {
                Some(true)
            } else {
                None
            },
    {
        Configuration {
            entry_symbol: entry_symbol.to_string(package_name),
            compatibility_minimum,
            compatibility_maximum,
            reloadable: if is_reloadable {
                Some(true)
            } else {
                None
            },
            android_aar_plugin: if are_exported_by_android_aar_plugin {
                Some(true)
            } else {
                None
            },
        }
    }

    /// Creates a configuration with entry symbol `entry_symbol`, named for
    /// package `package_name`, and no other option.
    pub fn from_entry_symbol(entry_symbol: EntrySymbol, package_name: &str) -> (r: Self)
        ensures
            r.entry_symbol@ == entry_symbol.name(package_name@),
            r.compatibility_minimum is None,
            r.compatibility_maximum is None,
            r.reloadable is None,
            r.android_aar_plugin is None,
    {
        Configuration::from_raw_entry_symbol(entry_symbol.to_string(package_name))
    }

    /// Creates a configuration with entry symbol `entry_symbol`, as it is, and
    /// no other option.
    pub fn from_raw_entry_symbol(entry_symbol: String) -> (r: Self)
        ensures
            r == (Configuration {
                entry_symbol,
                compatibility_minimum: None,
                compatibility_maximum: None,
                reloadable: None,
                android_aar_plugin: None,
            }),
    {
        Configuration {
            entry_symbol,
            compatibility_minimum: None,
            compatibility_maximum: None,
            reloadable: None,
            android_aar_plugin: None,
        }
    }

    /// The same configuration with oldest host version `compatibility_minimum`.
    pub fn with_compatibility_minimum(self, compatibility_minimum: (u8, u8)) -> (r: Self)
        ensures
            r == (Configuration { compatibility_minimum: Some(compatibility_minimum), ..self }),
    {
        Configuration { compatibility_minimum: Some(compatibility_minimum), ..self }
    }

    /// The same configuration with newest host version `compatibility_maximum`.
    pub fn with_compatibility_maximum(self, compatibility_maximum: (u8, u8)) -> (r: Self)
        ensures
            r == (Configuration { compatibility_maximum: Some(compatibility_maximum), ..self }),
    {
        Configuration { compatibility_maximum: Some(compatibility_maximum), ..self }
    }

    /// The same configuration, letting the host reload the library.
    pub fn with_reloadability(self) -> (r: Self)
        ensures
            r == (Configuration { reloadable: Some(true), ..self }),
    {
        Configuration { reloadable: Some(true), ..self }
    }

    /// The same configuration, with the native files exported by an Android
    /// plugin.
    pub fn with_android_aar_plugin(self) -> (r: Self)
        ensures
            r == (Configuration { android_aar_plugin: Some(true), ..self }),
    {
        Configuration { android_aar_plugin: Some(true), ..self }
    }
}

impl Default for Configuration {
    /// The default entry symbol and no other option.
    fn default() -> (r: Self)
        ensures
            r.entry_symbol@ == "gdext_rust_init"@,
            r.compatibility_minimum is None,
            r.compatibility_maximum is None,
            r.reloadable is None,
            r.android_aar_plugin is None,
    {
        Configuration::from_raw_entry_symbol(EntrySymbol::GodotRustDefault.to_string(""))
    }
}

} // verus!

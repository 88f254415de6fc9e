//! Behavior and resource pack manifests: their shape and the checks a
//! manifest must pass. Reading and writing them (JSON, zip archives) is the
//! application's part.

use vstd::prelude::*;
use crate::text::{str_chars, trim_char_vec, trimmed};

verus! {

/// A pack manifest. UUIDs are carried as their sixteen bytes.
#[derive(Debug, Clone, PartialEq, Eq)]
pub struct AddonManifest {
    pub header: ManifestHeader,
    pub modules: Vec<Module>,
    pub dependencies: Vec<Dependency>,
}

#[derive(Debug, Clone, PartialEq, Eq)]
pub struct ManifestHeader {
    pub name: String,
    pub description: String,
    pub uuid: [u8; 16],
    pub version: [u32; 3],
    pub min_engine_version: [u32; 3],
}

#[derive(Debug, Clone, PartialEq, Eq)]
pub enum Module {
    Resources { uuid: [u8; 16], version: [u32; 3] },
    Data { uuid: [u8; 16], version: [u32; 3] },
}

#[derive(Debug, Clone, PartialEq, Eq)]
pub struct Dependency {
    pub uuid: Option<[u8; 16]>,
    pub module_name: Option<String>,
    pub version: Option<[u32; 3]>,
}

/// Something a manifest should fix.
#[derive(Debug, Clone, PartialEq, Eq)]
pub struct ValidationWarning {
    pub message: String,
}

/// The warnings of a manifest, in order: a blank header name, then no modules.
pub open spec fn manifest_warnings(m: AddonManifest) -> Seq<Seq<char>> {
    (if trimmed(m.header.name@).len() == 0 {
        seq!["manifest header name is empty"@]
    } else {
        Seq::empty()
    }) + (if m.modules@.len() == 0 {
        seq!["manifest has no modules"@]
    } else {
        Seq::empty()
    })
}

pub open spec fn warning_messages(warnings: Seq<ValidationWarning>) -> Seq<Seq<char>> {
    warnings.map_values(|w: ValidationWarning| w.message@)
}

impl AddonManifest {
    pub fn validate(&self) -> (r: Vec<ValidationWarning>)
        ensures
            warning_messages(r@) == manifest_warnings(*self),
    {
        let mut warnings: Vec<ValidationWarning> = Vec::new();
        let name: Vec<char> = str_chars(self.header.name.as_str());
        let name_trimmed: Vec<char> = trim_char_vec(&name);
        let name_empty: bool = name_trimmed.len() == 0;
        if name_empty {
            warnings.push(ValidationWarning { message: String::from_str("manifest header name is empty") });
        }
        let ghost first = warnings@;
        assert(warning_messages(first) =~= (if name_empty {
            seq!["manifest header name is empty"@]
        } else {
            Seq::<Seq<char>>::empty()
        }));
        let no_modules: bool = self.modules.len() == 0;
        if no_modules {
            warnings.push(ValidationWarning { message: String::from_str("manifest has no modules") });
        }
        assert(warning_messages(warnings@) =~= warning_messages(first) + (if no_modules {
            seq!["manifest has no modules"@]
        } else {
            Seq::<Seq<char>>::empty()
        }));
        warnings
    }
}

} // verus!

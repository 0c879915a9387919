//! The definition of one package: where its configuration lives.

use crate::decode::{field_text, find_text, Decode};
use crate::json::{fields_view, Field, FieldView};
use vstd::prelude::*;

verus! {

/// Definition of a package.
#[derive(Debug)]
pub struct Package {
    /// Path of the package directory.
    pub cfg_path: String,
    /// Name of the file that holds the current values.
    pub ini_file: String,
    /// Name of the file that holds the attribute definitions.
    pub json_file: String,
}

/// The mathematical value of a [`Package`]: its texts as character sequences.
pub struct PackageView {
    pub cfg_path: Seq<char>,
    pub ini_file: Seq<char>,
    pub json_file: Seq<char>,
}

impl View for Package {
    type V = PackageView;

    open spec fn view(&self) -> PackageView {
        PackageView { cfg_path: self.cfg_path@, ini_file: self.ini_file@, json_file: self.json_file@ }
    }
}

impl Clone for Package {
    fn clone(&self) -> (copy: Self)
        ensures
            copy == *self,
    {
        Package {
            cfg_path: self.cfg_path.clone(),
            ini_file: self.ini_file.clone(),
            json_file: self.json_file.clone(),
        }
    }
}

impl Decode for Package {
    /// An entry defines a package if it has the texts `cfg_path`, `ini_file` and `json_file`.
    /// Other members of the entry are passed over.
    open spec fn decoded(fields: Seq<FieldView>) -> Option<PackageView> {
        match (
            field_text(fields, "cfg_path"@),
            field_text(fields, "ini_file"@),
            field_text(fields, "json_file"@),
        ) {
            (Some(cfg_path), Some(ini_file), Some(json_file)) => Some(
                PackageView { cfg_path, ini_file, json_file },
            ),
            _ => None,
        }
    }

    fn decode(fields: &Vec<Field>) -> (item: Option<Package>) {
        let cfg_path = find_text(fields, "cfg_path");
        let ini_file = find_text(fields, "ini_file");
        let json_file = find_text(fields, "json_file");
        match (cfg_path, ini_file, json_file) {
            (Some(cfg_path), Some(ini_file), Some(json_file)) => Some(
                Package { cfg_path, ini_file, json_file },
            ),
            _ => None,
        }
    }
}

} // verus!

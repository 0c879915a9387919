//! The packages of an installation: where each keeps its configuration.

use crate::error::CfgError;
use crate::loader::{loading, read_definitions, Loading};
use crate::package::{Package, PackageView};
use crate::schema::{package_schema, Schema};
use crate::table::Table;
use vstd::prelude::*;

verus! {

/// The package definitions of an installation, by key.
pub type PackageHash = Table<Package>;

/// The structure that holds the definition of package items.
///
/// It starts without packages; `load_packages` gives it its packages.
pub struct Pkg {
    /// The schema against which package definitions are checked; nothing if the schema
    /// could not be compiled.
    pub schema: Option<Schema>,
    /// The packages, once they have been loaded.
    pub packages: Option<PackageHash>,
}

impl Pkg {
    /// Creates a structure without packages, ready to load them.
    pub fn new() -> (made: Pkg)
        ensures
            made.packages is None,
            match made.schema {
                Some(schema) => package_schema() == Some(schema.compiled()),
                None => package_schema() is None,
            },
    {
        let schema = match Pkg::create_defn_schema() {
            Ok(schema) => Some(schema),
            Err(_) => None,
        };
        Pkg { schema, packages: None }
    }

    /// Compiles the schema for package definition documents.
    pub fn create_defn_schema() -> (made: Result<Schema, CfgError>)
        ensures
            match made {
                Ok(schema) => package_schema() == Some(schema.compiled()),
                Err(_) => package_schema() is None,
            },
    {
        Schema::for_packages()
    }

    /// Reads package definitions from the bytes of a JSON document, or from the failure to
    /// read them, and checks them against `schema` before decoding them.
    pub fn read_defn_file(
        source: Result<Vec<u8>, std::io::Error>,
        origin: &str,
        schema: &Schema,
    ) -> (loaded: Result<PackageHash, CfgError>)
        ensures
            match loaded {
                Ok(table) => loading::<Package>(source, Some(*schema)) == Loading::Defined(table@),
                Err(CfgError::Io(error)) => source == Err::<Vec<u8>, std::io::Error>(error),
                Err(CfgError::Json(_)) => loading::<Package>(source, Some(*schema))
                    == Loading::<Map<Seq<char>, PackageView>>::Malformed,
                Err(CfgError::Schema(name)) => name@ == origin@ && loading::<Package>(
                    source,
                    Some(*schema),
                ) == Loading::<Map<Seq<char>, PackageView>>::Rejected,
                Err(CfgError::Decode(name)) => name@ == origin@ && loading::<Package>(
                    source,
                    Some(*schema),
                ) == Loading::<Map<Seq<char>, PackageView>>::Misshapen,
                Err(_) => false,
            },
    {
        read_definitions::<Package>(source, origin, Some(schema))
    }

    /// Loads the package definitions.
    ///
    /// The definitions come as the bytes of a JSON document, or as the failure to read them;
    /// `def_origin` names the document in errors. On any error the packages stay as they
    /// were.
    pub fn load_packages(
        &mut self,
        def_source: Result<Vec<u8>, std::io::Error>,
        def_origin: &str,
    ) -> (loaded: Result<(), CfgError>)
        ensures
            final(self).schema == old(self).schema,
            match loaded {
                Ok(_) => {
                    &&& loading::<Package>(def_source, old(self).schema) matches Loading::Defined(
                        definitions,
                    )
                    &&& final(self).packages matches Some(table)
                    &&& table@ == definitions
                },
                Err(error) => {
                    &&& final(self).packages == old(self).packages
                    &&& match error {
                        CfgError::Io(cause) => def_source == Err::<Vec<u8>, std::io::Error>(cause),
                        CfgError::Json(_) => loading::<Package>(def_source, old(self).schema)
                            == Loading::<Map<Seq<char>, PackageView>>::Malformed,
                        CfgError::Schema(name) => name@ == def_origin@ && loading::<Package>(
                            def_source,
                            old(self).schema,
                        ) == Loading::<Map<Seq<char>, PackageView>>::Rejected,
                        CfgError::Decode(name) => name@ == def_origin@ && loading::<Package>(
                            def_source,
                            old(self).schema,
                        ) == Loading::<Map<Seq<char>, PackageView>>::Misshapen,
                        _ => false,
                    }
                },
            },
    {
        match read_definitions::<Package>(def_source, def_origin, self.schema.as_ref()) {
            Ok(table) => {
                self.packages = Some(table);
                Ok(())
            },
            Err(error) => Err(error),
        }
    }
}

} // verus!

//! Loading a definition document: parse it, check it against a schema, decode it.

use crate::decode::{decode_table, items_of, Decode};
use crate::error::CfgError;
use crate::json::{json_records, json_value, parse, records};
use crate::schema::Schema;
use crate::table::Table;
use vstd::prelude::*;
use vstd::string::StringExecFns;

verus! {

/// How the loading of a definition document ends.
pub enum Loading<M> {
    /// The document could not be read.
    Unreadable,
    /// The document is not well-formed JSON.
    Malformed,
    /// The document is JSON, but there is no schema that accepts it.
    Rejected,
    /// The schema accepts the document, but not every entry of it defines an item.
    Misshapen,
    /// The document defines the items of this map.
    Defined(M),
}

/// The table that a JSON document defines, if the document is an object and each of its
/// members defines an item.
pub open spec fn definitions_in<T: Decode>(document: serde_json::Value) -> Option<
    Map<Seq<char>, T::V>,
> {
    match json_records(document) {
        Some(records) => items_of::<T>(records),
        None => None,
    }
}

/// How loading ends for a source and a schema. The steps are taken in this order: read,
/// parse, check against the schema, decode; the first that fails decides. Without a schema
/// no document is accepted, and a document that is not accepted is never decoded.
pub open spec fn loading<T: Decode>(
    source: Result<Vec<u8>, std::io::Error>,
    schema: Option<Schema>,
) -> Loading<Map<Seq<char>, T::V>> {
    match source {
        Err(_) => Loading::Unreadable,
        Ok(bytes) => match json_value(bytes@) {
            None => Loading::Malformed,
            Some(document) => {
                if !(schema matches Some(usable) && usable.accepts(document)) {
                    Loading::Rejected
                } else {
                    match definitions_in::<T>(document) {
                        None => Loading::Misshapen,
                        Some(items) => Loading::Defined(items),
                    }
                }
            },
        },
    }
}

/// Loads a definition document from its bytes, or from the failure to read them.
///
/// `origin` names the document; the schema error and the decoding error carry it. The
/// document is decoded only after the schema has accepted it.
pub fn read_definitions<T: Decode>(
    source: Result<Vec<u8>, std::io::Error>,
    origin: &str,
    schema: Option<&Schema>,
) -> (loaded: Result<Table<T>, CfgError>)
    ensures
        match loaded {
            Ok(table) => loading::<T>(source, schema_value(schema)) == Loading::Defined(table@),
            Err(CfgError::Io(error)) => source == Err::<Vec<u8>, std::io::Error>(error),
            Err(CfgError::Json(_)) => loading::<T>(source, schema_value(schema))
                == Loading::<Map<Seq<char>, T::V>>::Malformed,
            Err(CfgError::Schema(name)) => name@ == origin@ && loading::<T>(
                source,
                schema_value(schema),
            ) == Loading::<Map<Seq<char>, T::V>>::Rejected,
            Err(CfgError::Decode(name)) => name@ == origin@ && loading::<T>(
                source,
                schema_value(schema),
            ) == Loading::<Map<Seq<char>, T::V>>::Misshapen,
            Err(_) => false,
        },
{
    let bytes = match source {
        Err(error) => {
            return Err(CfgError::Io(error));
        },
        Ok(bytes) => bytes,
    };
    let document = match parse(bytes.as_slice()) {
        Err(error) => {
            return Err(CfgError::Json(error));
        },
        Ok(document) => document,
    };
    let accepted = match schema {
        Some(usable) => usable.is_valid(&document),
        None => false,
    };
    if !accepted {
        return Err(CfgError::Schema(String::from_str(origin)));
    }
    let table = match records(&document) {
        Some(list) => decode_table::<T>(&list),
        None => None,
    };
    match table {
        Some(made) => Ok(made),
        None => Err(CfgError::Decode(String::from_str(origin))),
    }
}

/// The schema that a borrowed schema stands for.
pub open spec fn schema_value(schema: Option<&Schema>) -> Option<Schema> {
    match schema {
        Some(usable) => Some(*usable),
        None => None,
    }
}

} // verus!

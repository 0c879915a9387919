//! The schemas of the definition documents, compiled and applied by the `jsonschema` crate.

use crate::error::CfgError;
use crate::json::{json_value, parse};
use vstd::prelude::*;
use vstd::string::StringExecFns;
use vstd::string::StringSliceAdditionalSpecFns;

verus! {

/// `jsonschema::JSONSchema`: a compiled schema. Nothing is known of it but what the
/// functions below say of it.
#[verifier::external_type_specification]
#[verifier::external_body]
pub struct ExJsonSchema(jsonschema::JSONSchema);

/// The schema that an attribute definition document has to meet: a JSON object whose members
/// are objects with the texts `prompt`, `tooltip`, `current`, `default` and `format`, and with
/// an `action` that is one of `Edit`, `Display` and `Hide`.
pub const ATTRIBUTE_SCHEMA: &'static str = r##"{
  "$schema": "http://json-schema.org/draft-07/schema#",
  "title": "Map_of_Attribute",
  "type": "object",
  "additionalProperties": {
    "$ref": "#/definitions/Attribute"
  },
  "definitions": {
    "ActionBehaviour": {
      "type": "string",
      "enum": ["Edit", "Display", "Hide"]
    },
    "Attribute": {
      "type": "object",
      "required": ["action", "current", "default", "format", "prompt", "tooltip"],
      "properties": {
        "action": { "$ref": "#/definitions/ActionBehaviour" },
        "current": { "type": "string" },
        "default": { "type": "string" },
        "format": { "type": "string" },
        "prompt": { "type": "string" },
        "tooltip": { "type": "string" }
      }
    }
  }
}"##;

/// The schema that a package definition document has to meet: a JSON object whose members
/// are objects with the texts `cfg_path`, `ini_file` and `json_file`.
pub const PACKAGE_SCHEMA: &'static str = r##"{
  "$schema": "http://json-schema.org/draft-07/schema#",
  "title": "Map_of_Package",
  "type": "object",
  "additionalProperties": {
    "$ref": "#/definitions/Package"
  },
  "definitions": {
    "Package": {
      "type": "object",
      "required": ["cfg_path", "ini_file", "json_file"],
      "properties": {
        "cfg_path": { "type": "string" },
        "ini_file": { "type": "string" },
        "json_file": { "type": "string" }
      }
    }
  }
}"##;

/// The schema that `JSONSchema::compile` makes of a JSON value, if the value describes one.
pub uninterp spec fn schema_compiled(description: serde_json::Value) -> Option<jsonschema::JSONSchema>;

/// Whether `JSONSchema::is_valid` finds that a document conforms to a compiled schema.
pub uninterp spec fn schema_accepts(schema: jsonschema::JSONSchema, document: serde_json::Value) -> bool;

/// The schema that the text of a description compiles to, if the text is JSON and describes
/// a schema.
pub open spec fn schema_of(description: Seq<u8>) -> Option<jsonschema::JSONSchema> {
    match json_value(description) {
        Some(value) => schema_compiled(value),
        None => None,
    }
}

/// The compiled form of the schema for attribute definitions, if it compiles.
pub open spec fn attribute_schema() -> Option<jsonschema::JSONSchema> {
    schema_of(ATTRIBUTE_SCHEMA.spec_bytes())
}

/// The compiled form of the schema for package definitions, if it compiles.
pub open spec fn package_schema() -> Option<jsonschema::JSONSchema> {
    schema_of(PACKAGE_SCHEMA.spec_bytes())
}

/// Whether a JSON value is what one of the two schema descriptions of this library parses to.
pub open spec fn is_own_description(description: serde_json::Value) -> bool {
    ||| json_value(ATTRIBUTE_SCHEMA.spec_bytes()) == Some(description)
    ||| json_value(PACKAGE_SCHEMA.spec_bytes()) == Some(description)
}

/// Whether a compiled schema is one of the two schemas of this library.
pub open spec fn is_own_schema(schema: jsonschema::JSONSchema) -> bool {
    ||| attribute_schema() == Some(schema)
    ||| package_schema() == Some(schema)
}

/// Calls `JSONSchema::compile`, on one of the two schema descriptions of this library only;
/// what it reports about a value that describes no schema is dropped.
#[verifier::external_body]
fn compile_value(description: &serde_json::Value) -> (compiled: Option<jsonschema::JSONSchema>)
    requires
        is_own_description(*description),
    ensures
        compiled == schema_compiled(*description),
{
    jsonschema::JSONSchema::compile(description).ok()
}

/// Calls `JSONSchema::is_valid`, with one of the two schemas of this library only. Neither
/// of them refers to itself, so that the check ends for every document. The same schema and
/// the same document always give the same answer.
#[verifier::external_body]
fn check_value(schema: &jsonschema::JSONSchema, document: &serde_json::Value) -> (valid: bool)
    requires
        is_own_schema(*schema),
    ensures
        valid == schema_accepts(*schema, *document),
{
    schema.is_valid(document)
}

/// A schema that is ready to check documents: that of the attribute definitions or that of
/// the package definitions.
///
/// A schema is compiled once and then used for any number of documents.
pub struct Schema {
    compiled: jsonschema::JSONSchema,
}

impl Schema {
    #[verifier::type_invariant]
    spec fn is_own(&self) -> bool {
        is_own_schema(self.compiled)
    }

    /// The compiled form that this schema holds.
    pub closed spec fn compiled(&self) -> jsonschema::JSONSchema {
        self.compiled
    }

    /// Whether the schema accepts `document`.
    pub open spec fn accepts(&self, document: serde_json::Value) -> bool {
        schema_accepts(self.compiled(), document)
    }

    /// Compiles the schema for attribute definition documents.
    ///
    /// This fails only if the description that this library holds is not JSON, which gives
    /// the parser's error, or describes no schema, which gives a schema error.
    pub fn for_attributes() -> (made: Result<Schema, CfgError>)
        ensures
            match made {
                Ok(schema) => attribute_schema() == Some(schema.compiled()),
                Err(CfgError::Json(_)) => json_value(ATTRIBUTE_SCHEMA.spec_bytes()) is None,
                Err(CfgError::Schema(name)) => name@ == "attribute schema"@ && json_value(
                    ATTRIBUTE_SCHEMA.spec_bytes(),
                ) is Some && attribute_schema() is None,
                Err(_) => false,
            },
    {
        match parse(ATTRIBUTE_SCHEMA.as_bytes()) {
            Err(error) => Err(CfgError::Json(error)),
            Ok(description) => match compile_value(&description) {
                Some(compiled) => Ok(Schema { compiled }),
                None => Err(CfgError::Schema(String::from_str("attribute schema"))),
            },
        }
    }

    /// Compiles the schema for package definition documents.
    ///
    /// This fails only if the description that this library holds is not JSON, which gives
    /// the parser's error, or describes no schema, which gives a schema error.
    pub fn for_packages() -> (made: Result<Schema, CfgError>)
        ensures
            match made {
                Ok(schema) => package_schema() == Some(schema.compiled()),
                Err(CfgError::Json(_)) => json_value(PACKAGE_SCHEMA.spec_bytes()) is None,
                Err(CfgError::Schema(name)) => name@ == "package schema"@ && json_value(
                    PACKAGE_SCHEMA.spec_bytes(),
                ) is Some && package_schema() is None,
                Err(_) => false,
            },
    {
        match parse(PACKAGE_SCHEMA.as_bytes()) {
            Err(error) => Err(CfgError::Json(error)),
            Ok(description) => match compile_value(&description) {
                Some(compiled) => Ok(Schema { compiled }),
                None => Err(CfgError::Schema(String::from_str("package schema"))),
            },
        }
    }

    /// Whether `document` conforms to the schema.
    pub fn is_valid(&self, document: &serde_json::Value) -> (valid: bool)
        ensures
            valid == self.accepts(*document),
    {
        proof {
            use_type_invariant(self);
        }
        check_value(&self.compiled, document)
    }
}

} // verus!

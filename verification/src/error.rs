//! The ways in which loading or changing a configuration can fail.

use vstd::prelude::*;
use vstd::string::StringExecFns;

verus! {

/// `std::io::Error`: what a reader reports. It is carried, never looked into.
#[verifier::external_type_specification]
#[verifier::external_body]
pub struct ExIoError(std::io::Error);

/// `serde_json::Error`: what the JSON parser reports. It is carried, never looked into.
#[verifier::external_type_specification]
#[verifier::external_body]
pub struct ExJsonError(serde_json::Error);

/// `ini::Error`: what the INI parser reports. It is carried, never looked into.
#[verifier::external_type_specification]
#[verifier::external_body]
pub struct ExIniError(ini::Error);

/// Categorizes the cause of errors when processing configuration documents.
#[derive(Debug)]
pub enum CfgError {
    /// A document could not be read; holds what the reader reported.
    Io(std::io::Error),
    /// A JSON document is well formed but the schema rejects it; holds the name of the
    /// document.
    Schema(String),
    /// A document is not well-formed JSON; holds what the parser reported.
    Json(serde_json::Error),
    /// A JSON document passed the schema but does not have the shape of the items it is
    /// meant to define; holds the name of the document.
    Decode(String),
    /// The value store is malformed; holds what the parser reported.
    Ini(ini::Error),
    /// An attribute was written before any definitions were loaded.
    Cfg(),
}

impl CfgError {
    /// The text of the message for this error.
    pub open spec fn message_text(self) -> Seq<char> {
        match self {
            CfgError::Io(_) => "cannot open configuration file"@,
            CfgError::Schema(name) => "JSON input '"@ + name@
                + "' failed to validate against schema"@,
            CfgError::Json(_) => "cannot deserialize configuration file"@,
            CfgError::Decode(name) => "JSON input '"@ + name@
                + "' does not have the expected structure"@,
            CfgError::Ini(_) => "cannot read/write cfg file"@,
            CfgError::Cfg() => "Cfg structure not properly initialised"@,
        }
    }

    /// A message that describes the error to a user.
    pub fn message(&self) -> (text: String)
        ensures
            text@ == self.message_text(),
    {
        match self {
            CfgError::Io(_) => String::from_str("cannot open configuration file"),
            CfgError::Schema(name) => {
                let mut text = String::from_str("JSON input '");
                text.append(name.as_str());
                text.append("' failed to validate against schema");
                text
            },
            CfgError::Json(_) => String::from_str("cannot deserialize configuration file"),
            CfgError::Decode(name) => {
                let mut text = String::from_str("JSON input '");
                text.append(name.as_str());
                text.append("' does not have the expected structure");
                text
            },
            CfgError::Ini(_) => String::from_str("cannot read/write cfg file"),
            CfgError::Cfg() => String::from_str("Cfg structure not properly initialised"),
        }
    }
}

} // verus!

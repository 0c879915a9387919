//! Configuration attributes for a small server: what each attribute means, how it is shown
//! to the user, and what it is currently set to.
//!
//! Attribute definitions come from a JSON document that is checked against a schema before it
//! is decoded. The current values come from a flat `key=value` store and are laid over the
//! definitions, so that the loaded [`Cfg`] is the single source of truth for a settings page.

pub mod attribute;
pub mod cfg;
pub mod decode;
pub mod error;
pub mod json;
pub mod laws;
pub mod loader;
pub mod package;
pub mod pkg;
pub mod reconcile;
pub mod schema;
pub mod table;
pub mod values;

pub use attribute::{ActionBehaviour, Attribute, AttributeView};
pub use cfg::{Cfg, ConfigHash, WritePlan};
pub use error::CfgError;
pub use package::{Package, PackageView};
pub use pkg::{PackageHash, Pkg};
pub use schema::Schema;
pub use table::Table;
pub use values::ValueStore;

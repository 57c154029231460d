//! A declarative validator for JSON-like documents.
//!
//! A schema is a tree of typed nodes ([`DataType`]); a document is a tree of
//! values ([`Value`]).  Every node type is a [`Validator`]: it checks its own
//! definition, decides whether a value conforms to it, and reports where a
//! value fails to.  A [`Schema`] holds a root node whose definition was found
//! sound, with the names of the validators registered for the whole
//! document, and gives a [`Verdict`] on a document.
pub mod binary64;
pub mod dict;
pub mod document;
pub mod error;
pub mod laws;
pub mod list;
pub mod pattern;
pub mod report;
pub mod schema;
pub mod validator;

pub use document::Kind;
pub use document::Number;
pub use document::Value;
pub use error::DefectKind;
pub use error::SchemaError;
pub use error::Step;
pub use report::Reason;
pub use report::Segment;
pub use report::Verdict;
pub use report::Violation;
pub use schema::BooleanType;
pub use schema::DataType;
pub use schema::DictType;
pub use schema::ListType;
pub use schema::LiteralType;
pub use schema::NumberType;
pub use schema::Schema;
pub use schema::StringType;
pub use validator::Validator;

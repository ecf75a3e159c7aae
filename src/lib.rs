//! Entity mapping for a key-value store whose primary key has a hash part and
//! an optional sort part.
//!
//! A record declaration ([`RecordDecl`]) is resolved once into an
//! [`EntitySchema`]: which field holds the hash key, which the sort key, and
//! how key values are made (as given, a constant, or a prefix followed by the
//! value). The schema then builds entities and keys and supplies the save and
//! query hooks, and [`DynamoDbDao`] plans the requests of each operation on a
//! table and reads result pages.

pub mod dao;
pub mod declaration;
pub mod entity;
pub mod laws;
pub mod request;
pub mod schema;
pub mod value;

pub use crate::dao::DynamoDbDao;
pub use crate::declaration::{ArgValue, FieldDecl, Marker, MarkerArg, RecordDecl, Shape, TypeAttr};
pub use crate::request::{
    DeleteRequest, DynamoDbResultsPage, GetRequest, KeyCondition, PutRequest, QueryOutput,
    QueryRequest, SortPrefix,
};
pub use crate::schema::{derive_dynamo_entity, DefinitionError, EntitySchema, KeyField};
pub use crate::value::{Record, Value};

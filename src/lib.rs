//! Asset metadata documents: the record types, their builders, and a
//! verified codec between records and a key-value document tree.
pub mod codec;
pub mod document;
pub mod laws;
pub mod records;
pub mod schema;

pub use codec::{
    DecodeError, Policy, decode_asset_file, decode_attribute, decode_metadata, decode_properties,
    encode_asset_file, encode_attribute, encode_metadata, encode_properties,
};
pub use document::{Entry, Kind, Value};
pub use records::{AssetFile, Attribute, Metadata, Properties};
pub use schema::{FieldSchema, Record, schema};

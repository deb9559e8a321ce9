//! The index that the public directory serves.
pub mod indexjson;

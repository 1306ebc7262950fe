//! A user-directory library: user records (id, name, email) held by a
//! storage engine behind one repository contract, with a service layer
//! that validates input, enforces id uniqueness and translates storage
//! failures into a protocol-independent error taxonomy.

pub mod config;
pub mod errors;
pub mod internal;
pub mod laws;
pub mod relational;
pub mod repo;
pub mod service;
mod strutil;
pub mod types;
pub mod uuid_codec;
pub mod validation;

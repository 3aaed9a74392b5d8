//! Qualified names and namespaces of the AVM2 object model: construction,
//! namespace coercion, accessors and string formatting.
pub mod api_version;
pub mod namespace;
pub mod heap;
pub mod value;
pub mod activation;
pub mod q_name;

//! The server core of a small personal portfolio/blog site: a document-style
//! record store keyed by collection-scoped compound ids, a single-credential
//! session authenticator, public and protected route groups with an
//! authorization gate, and an RPC dispatcher, all with verified contracts.
//! JSON request bodies are read through `serde_json` behind trusted wrappers;
//! the HTTP host around this library hands it plain values and takes plain
//! values back.
pub mod handler;
pub mod ids;
pub mod json;
pub mod records;
pub mod render;
pub mod rpc;
pub mod routes;
pub mod session;
pub mod store;
pub mod text;

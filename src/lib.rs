//! Tool-dispatch core of a notification server: the parameter value model,
//! tool schemas, the tool registry with schema-checked decoding, the dispatch
//! of decoded calls, and the server identity advertised on initialization.

pub mod value;
pub mod schema;
pub mod tools;
pub mod registry;
pub mod handler;
pub mod session;
pub mod laws;

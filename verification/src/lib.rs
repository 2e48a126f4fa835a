//! A waPC host: the state of a guest/host conversation, the host side of a
//! guest call, the host functions that a guest imports (over its linear
//! memory), and the import routing of an engine; together with the HTTP
//! types, component logic, dispatchers and generated interfaces that are
//! built on it.

pub mod components;
pub mod dispatch;
pub mod errors;
pub mod host;
pub mod http;
pub mod imports;
pub mod interfaces;
pub mod memory;
pub mod state;
pub mod text;

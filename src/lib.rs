//! Authentication core: path rules, session records, the gating decision of the
//! middleware, credential persistence rules and the login decision.
pub mod config;
pub mod errors;
pub mod login;
pub mod memory_store;
pub mod middleware;
pub mod path_matcher;
pub mod session;
pub mod store;
pub mod user;

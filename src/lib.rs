//! Request collection, navigation cursor and mode-scoped command dispatch
//! for a terminal HTTP client.
pub mod commands;
pub mod request;
pub mod requests;
pub mod session;
pub mod states;
pub mod store;

//! The centralized exchange: stream naming, subscription requests, typed
//! JSON-mode models, and the client builder.

pub mod models;
pub mod url;

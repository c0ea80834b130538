//! The prediction-market exchange: wire models, protocol routing, and the
//! market lifecycle controller.

pub mod lifecycle;
pub mod models;
pub mod protocol;

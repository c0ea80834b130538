//! SBE frame decoding: cursor, header, wire grammar, typed messages, and the
//! lazy depth view used on the imbalance hot path.

pub mod cursor;
pub mod decoder;
pub mod depth;
pub mod laws;
pub mod messages;
pub mod types;
pub mod wire;

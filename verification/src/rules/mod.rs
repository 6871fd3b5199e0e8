//! Rules that adjust a score.

pub mod actions;
pub mod audit;
pub mod conditions;
pub mod engine;
pub mod order;
pub mod projection;
pub mod schema;

//! Stateless helpers.

pub mod fees;
pub mod payouts;
pub mod text;

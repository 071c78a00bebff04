//! Quadratic-funding matching pool: round, project and voter records, their
//! fixed-width byte layouts, the instruction wire format, and the handlers
//! that move a round through its life and split the pool at withdrawal.

pub mod accounting;
pub mod bytes;
pub mod error;
pub mod instruction;
pub mod precise;
pub mod processor;
pub mod state;
pub mod wide;

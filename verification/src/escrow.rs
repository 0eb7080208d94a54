//! One escrowed call from its opening to its settlement.

pub mod custody;
pub mod evaluation;
pub mod events;
pub mod lifecycle;
pub mod operations;
pub mod proration;
pub mod record;
pub mod release;

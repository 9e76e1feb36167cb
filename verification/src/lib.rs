//! Session logic of a launcher mode that evaluates faye expressions.

pub mod clipboard;
pub mod entry;
pub mod evaluator;
pub mod outcome;
pub mod session;
pub mod store;
pub mod text;

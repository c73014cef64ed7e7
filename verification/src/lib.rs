//! Evaluation of arithmetic expressions given as text.
//!
//! The arithmetic itself is the work of the `meval` crate. This library
//! decides which expressions are handed to it, and turns what comes back into
//! a number or a diagnostic text.
pub mod blank;
pub mod calculator;
pub mod engine;
pub mod error;

pub use crate::calculator::{evaluate, evaluate_expression, flatten, structured};
pub use crate::error::EvaluationError;

//! Library behind an interactive configuration wizard for a proof-of-space
//! farming node.
//!
//! The wizard collects operator-supplied parameters (reward address, node
//! identity, storage locations, plot size, network selection, operational
//! role) through a sequence of validated prompts, then compiles them into a
//! chain-specific configuration aggregate that is persisted once, at the end.
//!
//! This crate holds the decision logic: the validators that turn raw text
//! into typed values, the prompt-with-default protocol, the chain profile
//! registry with its per-variant constructors, the assembler that produces
//! the configuration aggregate, and a line-oriented codec for the persisted
//! form. Reading the terminal, resolving platform directories and writing
//! the file itself are left to the surrounding binary.

pub mod ascii;
pub mod codec;
pub mod config;
pub mod errors;
pub mod prompt;
pub mod validate;
pub mod wizard;

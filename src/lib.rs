//! A typing exercise whose practice text arrives in story parts produced by a
//! background generator: the keystroke state machine, the results derived from
//! it, and the decisions of the producer and of the interactive session.

pub mod key;
pub mod producer;
pub mod prompts;
pub mod results;
pub mod session;
pub mod story;
pub mod text;
pub mod typing;

//! Build and run a chain of external processes connected by pipes, in the
//! manner of a shell pipeline `cmd1 | cmd2 | cmd3`.
//!
//! The decision logic is split from the operating system: [`pipeline::Executor`]
//! decides, step by step, which stage to validate, which stage to start next and
//! how to classify every answer the operating system can give, while the caller
//! performs the actual spawning and reports back what happened. Every decision
//! and every classification is verified.

pub mod error;
pub mod pipeline;

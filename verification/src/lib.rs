//! Queries about the operating system and the hardware, answered from a
//! snapshot of plain values and rendered as text, field by field or through a
//! template with `%field%` placeholders.

pub mod app;
pub mod cli;
pub mod cmd;
pub mod escape;
pub mod failure;
pub mod query;
pub mod refresh;
pub mod schedule;
pub mod snapshot;
pub mod template;
pub mod text;
pub mod units;

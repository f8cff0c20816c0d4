//! The commands behind a desktop application shell: a greeting and the
//! decisions of a one-shot HTTP relay. The relay is written without I/O:
//! the caller performs each action and reports what happened.

pub mod greeting;
pub mod laws;
pub mod method;
pub mod relay;
pub mod status;

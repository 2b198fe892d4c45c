//! Core value types of a terminal UI library: the integer geometry behind
//! gradient interpolation, and a bounded log-record buffer used as a logging
//! sink.

pub mod gradient;
pub mod logger;

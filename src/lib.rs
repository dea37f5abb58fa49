//! A command-line dispatcher: user requests are parsed into a closed set of
//! commands, each command is resolved to an external operation, and the
//! outcome of that operation is normalised into one uniform result.

pub mod command;
pub mod dispatch;

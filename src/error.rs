//! Errors that end a conversation turn.
use vstd::prelude::*;
use crate::module::ModuleError;

verus! {

/// Why a turn or a setup step failed.
#[derive(Debug, PartialEq)]
pub enum AppError {
    InvalidInput,
    ChannelSend,
    Other(String),
    /// No registered module has the name that a tool call gives.
    ModuleNotFound(String),
    /// The module failed to run the function.
    ModuleError(ModuleError),
}

impl AppError {
    /// An error with a message of its own.
    pub fn from(s: &str) -> (r: AppError)
        ensures
            match r {
                AppError::Other(m) => m@ == s@,
                _ => false,
            },
    {
        AppError::Other(String::from_str(s))
    }
}

} // verus!

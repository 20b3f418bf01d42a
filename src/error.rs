use vstd::prelude::*;
use crate::cli::BuildError;
use crate::input::InputError;

verus! {

/// Why a run failed.
pub enum AppError {
    ConfigError(String),
    InputError(String),
    RuntimeError(String),
}

impl AppError {
    pub fn from_build(err: BuildError) -> (r: AppError)
        ensures
            r matches AppError::ConfigError(m) && m@ == err.spec_message(),
    {
        AppError::ConfigError(String::from_str(err.message()))
    }

    pub fn from_input(err: InputError) -> (r: AppError)
        ensures
            r matches AppError::InputError(m) && m@ == err.spec_message(),
    {
        AppError::InputError(err.message())
    }

    pub fn from_runtime(err: &str) -> (r: AppError)
        ensures
            r matches AppError::RuntimeError(m) && m@ == err@,
    {
        AppError::RuntimeError(String::from_str(err))
    }

    /// What went wrong, in words.
    pub fn message(&self) -> (r: String)
        ensures
            r@ == match self {
                AppError::ConfigError(m) => "Configuration error: "@ + m@,
                AppError::InputError(m) => "Input data error. "@ + m@,
                AppError::RuntimeError(m) => "Runtime error: "@ + m@,
            },
    {
        let (mut head, tail) = match self {
            AppError::ConfigError(m) => (String::from_str("Configuration error: "), m),
            AppError::InputError(m) => (String::from_str("Input data error. "), m),
            AppError::RuntimeError(m) => (String::from_str("Runtime error: "), m),
        };
        head.append(tail.as_str());
        head
    }
}

} // verus!

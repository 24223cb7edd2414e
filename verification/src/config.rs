//! The resolved configuration of a run.

use vstd::prelude::*;
use crate::env::{EnvSnapshot, load_vars, load_result};
use crate::errors::AppError;

verus! {

/// Repositories cloned at once.
pub const DEFAULT_BATCH_SIZE: usize = 8;
/// Seconds an HTTP request may take.
pub const DEFAULT_TIMEOUT_SECONDS: u64 = 30;

/// Everything a run needs to know before it starts.
#[derive(Debug, Clone)]
pub struct Config {
    pub github_token: String,
    pub download_path: String,
    pub organization: String,
    pub batch_size: usize,
    pub timeout_seconds: u64,
}

impl Config {
    /// Resolves the configuration from what the environment held; a
    /// setting that is missing or wrong is an `EnvError` with its message.
    pub fn from_env(env: EnvSnapshot) -> (res: Result<Config, AppError>)
        ensures
            match (res, load_result(env)) {
                (Ok(c), Ok((t, p, o, _))) => {
                    &&& c.github_token@ == t
                    &&& c.download_path@ == p
                    &&& c.organization@ == o
                    &&& c.batch_size == DEFAULT_BATCH_SIZE
                    &&& c.timeout_seconds == DEFAULT_TIMEOUT_SECONDS
                },
                (Err(AppError::EnvError(m)), Err(m2)) => m@ == m2,
                _ => false,
            },
    {
        match load_vars(env) {
            Ok((token, path, org, _)) => Ok(Config {
                github_token: token,
                download_path: path,
                organization: org,
                batch_size: DEFAULT_BATCH_SIZE,
                timeout_seconds: DEFAULT_TIMEOUT_SECONDS,
            }),
            Err(m) => Err(AppError::EnvError(m)),
        }
    }
}

} // verus!

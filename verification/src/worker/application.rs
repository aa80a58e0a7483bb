//! The errors of the worker application.

use crate::text::{concat2, concat3, decimal, u64_to_decimal};
use vstd::prelude::*;

verus! {

/// What can go wrong while setting up or running the workers.
#[derive(Debug)]
pub enum ApplicationError {
    ConfigFileNotFound(String),
    EnvConfigNotFound(String),
    ConfigInvalid,
    PortCanNotBind(u16),
    ServerError,
}

impl ApplicationError {
    /// The human-readable message of the error.
    pub fn message(&self) -> (r: String)
        ensures
            match self {
                ApplicationError::ConfigFileNotFound(p) => r@ == "Config file not found:"@ + p@,
                ApplicationError::EnvConfigNotFound(v) => r@ == "Env var "@ + v@ + " not found"@,
                ApplicationError::ConfigInvalid => r@ == "Config Invalid"@,
                ApplicationError::PortCanNotBind(port) => r@ == "Port "@ + decimal(*port as nat)
                    + " is not available"@,
                ApplicationError::ServerError => r@ == "Server Error"@,
            },
    {
        match self {
            ApplicationError::ConfigFileNotFound(p) => concat2("Config file not found:", p.as_str()),
            ApplicationError::EnvConfigNotFound(v) => concat3("Env var ", v.as_str(), " not found"),
            ApplicationError::ConfigInvalid => String::from_str("Config Invalid"),
            ApplicationError::PortCanNotBind(port) => {
                let digits = u64_to_decimal(*port as u64);
                concat3("Port ", digits.as_str(), " is not available")
            },
            ApplicationError::ServerError => String::from_str("Server Error"),
        }
    }
}

} // verus!

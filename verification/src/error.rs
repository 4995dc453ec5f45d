//! Error taxonomy of the governance module.

use vstd::prelude::*;

verus! {

/// Errors that the governance module can report to its host.
pub enum GovernanceError {
    /// Failure in the module plumbing (connection, subscription).
    ModuleError(String),
    /// Failure while preparing or scheduling a webhook delivery.
    WebhookError(String),
    /// Failure in the economic node registry collaborator.
    EconomicNodeError(String),
    /// Invalid or missing configuration.
    ConfigError(String),
}

impl GovernanceError {
    /// The message carried by this error, whichever variant it is.
    pub fn message(&self) -> (r: &String)
        ensures
            r == match self {
                GovernanceError::ModuleError(m) => m,
                GovernanceError::WebhookError(m) => m,
                GovernanceError::EconomicNodeError(m) => m,
                GovernanceError::ConfigError(m) => m,
            },
    {
        match self {
            GovernanceError::ModuleError(m) => m,
            GovernanceError::WebhookError(m) => m,
            GovernanceError::EconomicNodeError(m) => m,
            GovernanceError::ConfigError(m) => m,
        }
    }
}

} // verus!

//! Errors of the operator, by kind.
use vstd::prelude::*;

use crate::text::concat;

verus! {

/// What went wrong, with a description of the cause.
#[derive(Debug, Clone, PartialEq)]
pub enum Error {
    /// The platform's API refused a request; worth retrying.
    KubeError(String),
    /// The resource's specification is malformed or incomplete.
    UserError(String),
    /// A bounded wait expired.
    Timeout(String),
    /// A rendered object could not be encoded.
    TemplateSerializationError(String),
    /// A watch stream broke.
    WatcherError(String),
    /// Forming the cluster failed.
    DeploymentError(String),
    /// An HTTP exchange with a pod failed.
    ReqwestError(String),
}

pub open spec fn error_prefix(e: Error) -> Seq<char> {
    match e {
        Error::KubeError(_) => "Kubernetes reported error: "@,
        Error::UserError(_) => "Kubernetes reported error: "@,
        Error::Timeout(_) => "Operation timed out. Reason: "@,
        Error::TemplateSerializationError(_) => "Failed to serialize template. Reason: "@,
        Error::WatcherError(_) => "Resource watch failed. Reason: "@,
        Error::DeploymentError(_) => "Error during H2O subresources deployment: "@,
        Error::ReqwestError(_) => "Hyper error: "@,
    }
}

pub open spec fn error_cause(e: Error) -> Seq<char> {
    match e {
        Error::KubeError(s) => s@,
        Error::UserError(s) => s@,
        Error::Timeout(s) => s@,
        Error::TemplateSerializationError(s) => s@,
        Error::WatcherError(s) => s@,
        Error::DeploymentError(s) => s@,
        Error::ReqwestError(s) => s@,
    }
}

impl Error {
    /// The error as a line of text for logs and users.
    pub fn message(&self) -> (r: String)
        ensures
            r@ == error_prefix(*self) + error_cause(*self),
    {
        match self {
            Error::KubeError(s) => concat("Kubernetes reported error: ", s.as_str()),
            Error::UserError(s) => concat("Kubernetes reported error: ", s.as_str()),
            Error::Timeout(s) => concat("Operation timed out. Reason: ", s.as_str()),
            Error::TemplateSerializationError(s) => concat("Failed to serialize template. Reason: ", s.as_str()),
            Error::WatcherError(s) => concat("Resource watch failed. Reason: ", s.as_str()),
            Error::DeploymentError(s) => concat("Error during H2O subresources deployment: ", s.as_str()),
            Error::ReqwestError(s) => concat("Hyper error: ", s.as_str()),
        }
    }
}

} // verus!

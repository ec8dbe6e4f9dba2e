//! Errors of the library.
use vstd::prelude::*;

verus! {

#[verifier::external_type_specification]
#[verifier::external_body]
pub struct ExIoError(std::io::Error);

#[verifier::external_type_specification]
#[verifier::external_body]
pub struct ExRecvError(tokio::sync::oneshot::error::RecvError);

/// Enumeration of errors.
#[derive(Debug)]
pub enum Error {
    /// Worker is missing the id environment variable.
    WorkerNoId,
    /// Input/output errors.
    Io(std::io::Error),
    /// Error whilst sending bind notifications.
    Oneshot(tokio::sync::oneshot::error::RecvError),
}

}

//! The errors of issuance, bootstrap and layout.

use vstd::prelude::*;

verus! {

/// Every way an issuance request, a bootstrap step or a layout change can fail.
#[derive(Clone, Copy, Debug, PartialEq, Eq, Structural)]
pub enum PkiError {
    /// The configuration is malformed or lacks a required field.
    ConfigurationError,
    /// A kind selector names no certificate kind.
    UnknownCertificateKind,
    /// A selector names a host that the configuration does not list.
    NoSuchHostname,
    /// The certificate authority that must sign is not available.
    MissingIssuer,
    /// The target already holds a bundle and overwriting was not requested.
    AlreadyExists,
    /// A link would replace a regular file.
    UnexpectedRegularFile,
    /// The serial counter of an authority cannot advance any further.
    SerialExhausted,
    /// The cryptographic provider reported an error.
    SigningFailure,
    /// Reading or writing storage failed.
    StorageFailure,
}

} // verus!

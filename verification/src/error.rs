//! The ways in which bootstrapping a guardian's configuration can fail.

use vstd::prelude::*;

verus! {

/// Why an operation was refused. Nothing is retried or repaired inside the
/// library: every failure is handed to the caller.
#[derive(Clone, Copy, Debug, PartialEq, Eq, Structural)]
pub enum ConfigError {
    /// A file cannot be read or written: it is not there, it does not hold
    /// text, or it is not kept in the form that was asked for.
    IoError,
    /// A key could not be derived, or data could not be sealed.
    CryptoError,
    /// Sealed data did not open: the password is wrong, or the file is
    /// damaged, cut short, or another file.
    AuthFailed,
    /// A connection string does not have four fields, or one of its URLs or
    /// its certificate cannot be read.
    MalformedConnectionString,
    /// A guardian name that TLS server-name validation does not accept.
    InvalidName,
    /// The directory already holds a salt: it has been used before.
    DirectoryInUse,
    /// Two connection strings carry the same certificate.
    DuplicateCertificate,
    /// Fewer connection strings than key generation needs.
    TooFewPeers,
    /// More connection strings than there are peer ids.
    TooManyPeers,
    /// None of the connection strings carries our own certificate.
    SelfNotInRoster,
    /// One of the three records of a configuration is missing.
    IncompleteConfig,
    /// A stored record is not in the form it was written in.
    MalformedConfig,
    /// Key generation itself failed.
    DkgFailed,
    /// The caller cancelled key generation.
    Aborted,
}

} // verus!

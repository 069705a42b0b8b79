use vstd::prelude::*;

verus! {

/// `std::io::Error`, carried through opaquely; only its kind is read.
#[verifier::external_type_specification]
#[verifier::external_body]
pub struct ExIoError(std::io::Error);

/// `std::io::ErrorKind`, a field-less enum whose variants the classifier
/// tells apart.
#[verifier::external_type_specification]
pub struct ExIoErrorKind(std::io::ErrorKind);

/// The kind that an I/O error carries.
pub uninterp spec fn io_kind_of(e: std::io::Error) -> std::io::ErrorKind;

/// Relies on `std::io::Error::kind`: it returns the kind the error was built with.
pub assume_specification[ std::io::Error::kind ](e: &std::io::Error) -> (r: std::io::ErrorKind)
    ensures
        r == io_kind_of(*e),
;

/// The kinds of I/O error that do not heal on retry: a loop that meets one ends.
pub open spec fn is_fatal_kind(k: std::io::ErrorKind) -> bool {
    match k {
        std::io::ErrorKind::PermissionDenied => true,
        std::io::ErrorKind::ConnectionRefused => true,
        std::io::ErrorKind::AddrInUse => true,
        std::io::ErrorKind::AddrNotAvailable => true,
        std::io::ErrorKind::Unsupported => true,
        std::io::ErrorKind::OutOfMemory => true,
        _ => false,
    }
}

/// What a loop does after an I/O error.
pub enum ErrorAction {
    /// The error is transient: drop the current datagram and go on.
    Continue,
    /// The error is fatal: end the loop with this error.
    Terminate(std::io::Error),
}

/// Whether an error of kind `kind` ends the loop that met it.
pub fn is_fatal(kind: std::io::ErrorKind) -> (r: bool)
    ensures
        r == is_fatal_kind(kind),
{
    match kind {
        std::io::ErrorKind::PermissionDenied => true,
        std::io::ErrorKind::ConnectionRefused => true,
        std::io::ErrorKind::AddrInUse => true,
        std::io::ErrorKind::AddrNotAvailable => true,
        std::io::ErrorKind::Unsupported => true,
        std::io::ErrorKind::OutOfMemory => true,
        _ => false,
    }
}

/// Sorts an I/O error into recoverable and fatal, so that a loop knows whether
/// to go on or to end with the error.
pub fn handle_io_error(err: std::io::Error) -> (r: ErrorAction)
    ensures
        match r {
            ErrorAction::Terminate(e) => e == err && is_fatal_kind(io_kind_of(err)),
            ErrorAction::Continue => !is_fatal_kind(io_kind_of(err)),
        },
{
    if is_fatal(err.kind()) {
        ErrorAction::Terminate(err)
    } else {
        ErrorAction::Continue
    }
}

} // verus!

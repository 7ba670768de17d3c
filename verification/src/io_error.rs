//! The common I/O error type, and its conversions.

use core::convert::Infallible;
use core::ops::Deref;
use core::str::FromStr;

use std::io::ErrorKind;

use vstd::prelude::*;

verus! {

/// Makes `std::io::ErrorKind` known to the verifier, with all of its variants.
#[verifier::external_type_specification]
pub struct ExErrorKind(std::io::ErrorKind);

/// Simple common types of I/O error
#[derive(Debug, Copy, Clone, PartialEq, Eq, Structural)]
#[non_exhaustive]
pub enum IoError {
    Unknown,
    InternalFailure,
    TemporarilyOffline,
    InvalidState,
    PeerFailure,
    BrokenPipe,
    NotFound,
    Unsupported,
    PermissionDenied,
    AuthenticationRequired,
    AuthenticationFailed,
    ConnectionRefused,
    Unreachable,
    AbortRequested,
    AllocationConflict,
    OperationConflict,
    OptimisticConcurrencyFailure,
    Deadlock,
    AlreadyExists,
    MalformedInput,
    InvalidData,
    InvalidReference,
    TimedOut,
    TooBig,
    Busy,
    RateLimited,
    QuotaLimited,
    Interrupted,
    UnexpectedEof,
    OutOfMemory,
    OutOfStorage,
}

impl IoError {
    /// The name of the variant.
    pub open spec fn name(self) -> Seq<char> {
        match self {
            IoError::Unknown => "Unknown"@,
            IoError::InternalFailure => "InternalFailure"@,
            IoError::TemporarilyOffline => "TemporarilyOffline"@,
            IoError::InvalidState => "InvalidState"@,
            IoError::PeerFailure => "PeerFailure"@,
            IoError::BrokenPipe => "BrokenPipe"@,
            IoError::NotFound => "NotFound"@,
            IoError::Unsupported => "Unsupported"@,
            IoError::PermissionDenied => "PermissionDenied"@,
            IoError::AuthenticationRequired => "AuthenticationRequired"@,
            IoError::AuthenticationFailed => "AuthenticationFailed"@,
            IoError::ConnectionRefused => "ConnectionRefused"@,
            IoError::Unreachable => "Unreachable"@,
            IoError::AbortRequested => "AbortRequested"@,
            IoError::AllocationConflict => "AllocationConflict"@,
            IoError::OperationConflict => "OperationConflict"@,
            IoError::OptimisticConcurrencyFailure => "OptimisticConcurrencyFailure"@,
            IoError::Deadlock => "Deadlock"@,
            IoError::AlreadyExists => "AlreadyExists"@,
            IoError::MalformedInput => "MalformedInput"@,
            IoError::InvalidData => "InvalidData"@,
            IoError::InvalidReference => "InvalidReference"@,
            IoError::TimedOut => "TimedOut"@,
            IoError::TooBig => "TooBig"@,
            IoError::Busy => "Busy"@,
            IoError::RateLimited => "RateLimited"@,
            IoError::QuotaLimited => "QuotaLimited"@,
            IoError::Interrupted => "Interrupted"@,
            IoError::UnexpectedEof => "UnexpectedEof"@,
            IoError::OutOfMemory => "OutOfMemory"@,
            IoError::OutOfStorage => "OutOfStorage"@,
        }
    }

    /// The error whose variant has the given name; a name that no variant has is
    /// taken for `Unknown`.
    pub open spec fn named(name: Seq<char>) -> IoError {
        if exists|err: IoError| #[trigger] err.name() == name {
            choose|err: IoError| #[trigger] err.name() == name
        } else {
            IoError::Unknown
        }
    }

    /// What the error says to a human reader.
    pub open spec fn description(self) -> Seq<char> {
        match self {
            IoError::Unknown => "Unknown error"@,
            IoError::InternalFailure => "Internal failure"@,
            IoError::TemporarilyOffline => "Internal failure"@,
            IoError::InvalidState => "Invalid state for operation"@,
            IoError::PeerFailure => "Unknown peer failed"@,
            IoError::BrokenPipe => "Peer closed"@,
            IoError::NotFound => "Not found"@,
            IoError::Unsupported => "Unsupported operation"@,
            IoError::PermissionDenied => "Permission denied"@,
            IoError::AuthenticationRequired => "Authentication required"@,
            IoError::AuthenticationFailed => "Authentication could not be verified"@,
            IoError::ConnectionRefused => "Connection refused"@,
            IoError::Unreachable => "Peer unreachable"@,
            IoError::AbortRequested => "Abort requested"@,
            IoError::AllocationConflict => "Conflicting allocations"@,
            IoError::OperationConflict => "Peer unreachable"@,
            IoError::OptimisticConcurrencyFailure => "Optimistic concurrency control failure (can retry)"@,
            IoError::Deadlock => "Deadlock"@,
            IoError::AlreadyExists => "Object to create already exists"@,
            IoError::MalformedInput => "Input or message does not conform to protocol"@,
            IoError::InvalidData => "Referenced data is not valid"@,
            IoError::InvalidReference => "Could not find reference target"@,
            IoError::TimedOut => "Operation timed out"@,
            IoError::TooBig => "Request is too big to process with available resources"@,
            IoError::Busy => "Busy. Try again later"@,
            IoError::RateLimited => "Rate limit exceeded"@,
            IoError::QuotaLimited => "Quota exceeded"@,
            IoError::Interrupted => "Interrupted"@,
            IoError::UnexpectedEof => "Unexpected end of data"@,
            IoError::OutOfMemory => "Out of memory"@,
            IoError::OutOfStorage => "Storage limit exceeded"@,
        }
    }

    /// The most equivalent HTTP status code.
    pub open spec fn http_status(self) -> u16 {
        match self {
            IoError::MalformedInput
            | IoError::UnexpectedEof => 400,
            IoError::AuthenticationRequired
            | IoError::AuthenticationFailed => 401,
            IoError::PermissionDenied => 403,
            IoError::NotFound => 404,
            IoError::InvalidState
            | IoError::AllocationConflict
            | IoError::OperationConflict
            | IoError::OptimisticConcurrencyFailure
            | IoError::Deadlock
            | IoError::AlreadyExists => 409,
            IoError::TooBig => 413,
            IoError::InvalidData
            | IoError::InvalidReference => 422,
            IoError::RateLimited
            | IoError::QuotaLimited => 429,
            IoError::AbortRequested => 499,
            IoError::Unknown
            | IoError::InternalFailure => 500,
            IoError::Unsupported => 501,
            IoError::PeerFailure
            | IoError::BrokenPipe
            | IoError::ConnectionRefused
            | IoError::Unreachable => 502,
            IoError::TemporarilyOffline
            | IoError::Busy
            | IoError::Interrupted
            | IoError::OutOfMemory => 503,
            IoError::TimedOut => 504,
            IoError::OutOfStorage => 507,
        }
    }

    /// The kind of standard library error that is closest to this error.
    pub open spec fn kind(self) -> ErrorKind {
        match self {
            IoError::Unknown
            | IoError::InternalFailure
            | IoError::TemporarilyOffline
            | IoError::InvalidState
            | IoError::PeerFailure
            | IoError::OperationConflict => ErrorKind::Other,
            IoError::BrokenPipe => ErrorKind::BrokenPipe,
            IoError::NotFound => ErrorKind::NotFound,
            IoError::Unsupported => ErrorKind::Unsupported,
            IoError::PermissionDenied
            | IoError::AuthenticationRequired
            | IoError::AuthenticationFailed => ErrorKind::PermissionDenied,
            IoError::ConnectionRefused => ErrorKind::ConnectionRefused,
            IoError::Unreachable => ErrorKind::HostUnreachable,
            IoError::AbortRequested => ErrorKind::ConnectionAborted,
            IoError::AllocationConflict => ErrorKind::AddrInUse,
            IoError::OptimisticConcurrencyFailure
            | IoError::Deadlock => ErrorKind::Deadlock,
            IoError::AlreadyExists => ErrorKind::AlreadyExists,
            IoError::MalformedInput => ErrorKind::InvalidInput,
            IoError::InvalidData
            | IoError::InvalidReference => ErrorKind::InvalidData,
            IoError::TimedOut => ErrorKind::TimedOut,
            IoError::TooBig => ErrorKind::ArgumentListTooLong,
            IoError::Busy => ErrorKind::ResourceBusy,
            IoError::RateLimited
            | IoError::QuotaLimited => ErrorKind::QuotaExceeded,
            IoError::Interrupted => ErrorKind::Interrupted,
            IoError::UnexpectedEof => ErrorKind::UnexpectedEof,
            IoError::OutOfMemory => ErrorKind::OutOfMemory,
            IoError::OutOfStorage => ErrorKind::StorageFull,
        }
    }

    /// The error that stands for a kind of standard library error; a kind that
    /// has no counterpart is `Unknown`.
    pub open spec fn of_kind(kind: ErrorKind) -> IoError {
        match kind {
            ErrorKind::NotFound => IoError::NotFound,
            ErrorKind::PermissionDenied => IoError::PermissionDenied,
            ErrorKind::ConnectionRefused => IoError::ConnectionRefused,
            ErrorKind::ConnectionReset
            | ErrorKind::NotConnected
            | ErrorKind::BrokenPipe
            | ErrorKind::WriteZero => IoError::BrokenPipe,
            ErrorKind::HostUnreachable
            | ErrorKind::NetworkUnreachable => IoError::Unreachable,
            ErrorKind::ConnectionAborted => IoError::AbortRequested,
            ErrorKind::AddrInUse
            | ErrorKind::AddrNotAvailable => IoError::AllocationConflict,
            ErrorKind::NetworkDown => IoError::TemporarilyOffline,
            ErrorKind::AlreadyExists => IoError::AlreadyExists,
            ErrorKind::WouldBlock
            | ErrorKind::ResourceBusy
            | ErrorKind::ExecutableFileBusy => IoError::Busy,
            ErrorKind::NotADirectory
            | ErrorKind::IsADirectory
            | ErrorKind::StaleNetworkFileHandle => IoError::InvalidReference,
            ErrorKind::DirectoryNotEmpty => IoError::OperationConflict,
            ErrorKind::ReadOnlyFilesystem
            | ErrorKind::NotSeekable
            | ErrorKind::CrossesDevices
            | ErrorKind::Unsupported => IoError::Unsupported,
            ErrorKind::InvalidInput
            | ErrorKind::InvalidFilename => IoError::MalformedInput,
            ErrorKind::InvalidData => IoError::InvalidData,
            ErrorKind::TimedOut => IoError::TimedOut,
            ErrorKind::StorageFull => IoError::OutOfStorage,
            ErrorKind::QuotaExceeded => IoError::QuotaLimited,
            ErrorKind::FileTooLarge
            | ErrorKind::ArgumentListTooLong => IoError::TooBig,
            ErrorKind::Deadlock => IoError::Deadlock,
            ErrorKind::Interrupted => IoError::Interrupted,
            ErrorKind::UnexpectedEof => IoError::UnexpectedEof,
            ErrorKind::OutOfMemory => IoError::OutOfMemory,
            _ => IoError::Unknown,
        }
    }

    /// The text that describes the error to a human reader.
    pub fn message(self) -> (text: &'static str)
        ensures
            text@ == self.description(),
    {
        match self {
            IoError::Unknown => "Unknown error",
            IoError::InternalFailure => "Internal failure",
            IoError::TemporarilyOffline => "Internal failure",
            IoError::InvalidState => "Invalid state for operation",
            IoError::PeerFailure => "Unknown peer failed",
            IoError::BrokenPipe => "Peer closed",
            IoError::NotFound => "Not found",
            IoError::Unsupported => "Unsupported operation",
            IoError::PermissionDenied => "Permission denied",
            IoError::AuthenticationRequired => "Authentication required",
            IoError::AuthenticationFailed => "Authentication could not be verified",
            IoError::ConnectionRefused => "Connection refused",
            IoError::Unreachable => "Peer unreachable",
            IoError::AbortRequested => "Abort requested",
            IoError::AllocationConflict => "Conflicting allocations",
            IoError::OperationConflict => "Peer unreachable",
            IoError::OptimisticConcurrencyFailure => "Optimistic concurrency control failure (can retry)",
            IoError::Deadlock => "Deadlock",
            IoError::AlreadyExists => "Object to create already exists",
            IoError::MalformedInput => "Input or message does not conform to protocol",
            IoError::InvalidData => "Referenced data is not valid",
            IoError::InvalidReference => "Could not find reference target",
            IoError::TimedOut => "Operation timed out",
            IoError::TooBig => "Request is too big to process with available resources",
            IoError::Busy => "Busy. Try again later",
            IoError::RateLimited => "Rate limit exceeded",
            IoError::QuotaLimited => "Quota exceeded",
            IoError::Interrupted => "Interrupted",
            IoError::UnexpectedEof => "Unexpected end of data",
            IoError::OutOfMemory => "Out of memory",
            IoError::OutOfStorage => "Storage limit exceeded",
        }
    }

    /// Map to the most equivalent HTTP status code.
    pub fn to_http_status(self) -> (status: u16)
        ensures
            status == self.http_status(),
    {
        match self {
            IoError::Unknown => 500,
            IoError::InternalFailure => 500,
            IoError::TemporarilyOffline => 503,
            IoError::InvalidState => 409,
            IoError::PeerFailure => 502,
            IoError::BrokenPipe => 502,
            IoError::NotFound => 404,
            IoError::Unsupported => 501,
            IoError::PermissionDenied => 403,
            IoError::AuthenticationRequired => 401,
            IoError::AuthenticationFailed => 401,
            IoError::ConnectionRefused => 502,
            IoError::Unreachable => 502,
            IoError::AbortRequested => 499,
            IoError::AllocationConflict => 409,
            IoError::OperationConflict => 409,
            IoError::OptimisticConcurrencyFailure => 409,
            IoError::Deadlock => 409,
            IoError::AlreadyExists => 409,
            IoError::MalformedInput => 400,
            IoError::InvalidData => 422,
            IoError::InvalidReference => 422,
            IoError::TimedOut => 504,
            IoError::TooBig => 413,
            IoError::Busy => 503,
            IoError::RateLimited => 429,
            IoError::QuotaLimited => 429,
            IoError::Interrupted => 503,
            IoError::UnexpectedEof => 400,
            IoError::OutOfMemory => 503,
            IoError::OutOfStorage => 507,
        }
    }

    /// The enum constant name for this variant.
    pub fn as_str(self) -> (name: &'static str)
        ensures
            name@ == self.name(),
    {
        match self {
            IoError::Unknown => "Unknown",
            IoError::InternalFailure => "InternalFailure",
            IoError::TemporarilyOffline => "TemporarilyOffline",
            IoError::InvalidState => "InvalidState",
            IoError::PeerFailure => "PeerFailure",
            IoError::BrokenPipe => "BrokenPipe",
            IoError::NotFound => "NotFound",
            IoError::Unsupported => "Unsupported",
            IoError::PermissionDenied => "PermissionDenied",
            IoError::AuthenticationRequired => "AuthenticationRequired",
            IoError::AuthenticationFailed => "AuthenticationFailed",
            IoError::ConnectionRefused => "ConnectionRefused",
            IoError::Unreachable => "Unreachable",
            IoError::AbortRequested => "AbortRequested",
            IoError::AllocationConflict => "AllocationConflict",
            IoError::OperationConflict => "OperationConflict",
            IoError::OptimisticConcurrencyFailure => "OptimisticConcurrencyFailure",
            IoError::Deadlock => "Deadlock",
            IoError::AlreadyExists => "AlreadyExists",
            IoError::MalformedInput => "MalformedInput",
            IoError::InvalidData => "InvalidData",
            IoError::InvalidReference => "InvalidReference",
            IoError::TimedOut => "TimedOut",
            IoError::TooBig => "TooBig",
            IoError::Busy => "Busy",
            IoError::RateLimited => "RateLimited",
            IoError::QuotaLimited => "QuotaLimited",
            IoError::Interrupted => "Interrupted",
            IoError::UnexpectedEof => "UnexpectedEof",
            IoError::OutOfMemory => "OutOfMemory",
            IoError::OutOfStorage => "OutOfStorage",
        }
    }

    /// The error whose variant has the given name; a name that no variant has is
    /// taken for `Unknown`.
    pub fn from_name(name: &str) -> (err: IoError)
        ensures
            err == IoError::named(name@),
    {
        let err = IoError::find_name(name);
        proof {
            if exists|e: IoError| #[trigger] e.name() == name@ {
                law_name_round_trip(choose|e: IoError| #[trigger] e.name() == name@);
                law_names_are_distinct(err, IoError::named(name@));
            }
        }
        err
    }

    /// Looks the name up, one variant after the other.
    fn find_name(name: &str) -> (err: IoError)
        ensures
            err.name() == name@ || (err == IoError::Unknown && forall|e: IoError|
                #[trigger] e.name() != name@),
    {
        if same_text(name, "Unknown") {
            IoError::Unknown
        } else if same_text(name, "InternalFailure") {
            IoError::InternalFailure
        } else if same_text(name, "TemporarilyOffline") {
            IoError::TemporarilyOffline
        } else if same_text(name, "InvalidState") {
            IoError::InvalidState
        } else if same_text(name, "PeerFailure") {
            IoError::PeerFailure
        } else if same_text(name, "BrokenPipe") {
            IoError::BrokenPipe
        } else if same_text(name, "NotFound") {
            IoError::NotFound
        } else if same_text(name, "Unsupported") {
            IoError::Unsupported
        } else if same_text(name, "PermissionDenied") {
            IoError::PermissionDenied
        } else if same_text(name, "AuthenticationRequired") {
            IoError::AuthenticationRequired
        } else if same_text(name, "AuthenticationFailed") {
            IoError::AuthenticationFailed
        } else if same_text(name, "ConnectionRefused") {
            IoError::ConnectionRefused
        } else if same_text(name, "Unreachable") {
            IoError::Unreachable
        } else if same_text(name, "AbortRequested") {
            IoError::AbortRequested
        } else if same_text(name, "AllocationConflict") {
            IoError::AllocationConflict
        } else if same_text(name, "OperationConflict") {
            IoError::OperationConflict
        } else if same_text(name, "OptimisticConcurrencyFailure") {
            IoError::OptimisticConcurrencyFailure
        } else if same_text(name, "Deadlock") {
            IoError::Deadlock
        } else if same_text(name, "AlreadyExists") {
            IoError::AlreadyExists
        } else if same_text(name, "MalformedInput") {
            IoError::MalformedInput
        } else if same_text(name, "InvalidData") {
            IoError::InvalidData
        } else if same_text(name, "InvalidReference") {
            IoError::InvalidReference
        } else if same_text(name, "TimedOut") {
            IoError::TimedOut
        } else if same_text(name, "TooBig") {
            IoError::TooBig
        } else if same_text(name, "Busy") {
            IoError::Busy
        } else if same_text(name, "RateLimited") {
            IoError::RateLimited
        } else if same_text(name, "QuotaLimited") {
            IoError::QuotaLimited
        } else if same_text(name, "Interrupted") {
            IoError::Interrupted
        } else if same_text(name, "UnexpectedEof") {
            IoError::UnexpectedEof
        } else if same_text(name, "OutOfMemory") {
            IoError::OutOfMemory
        } else if same_text(name, "OutOfStorage") {
            IoError::OutOfStorage
        } else {
            assert forall|e: IoError| #[trigger] e.name() != name@ by {
                match e {
                    IoError::Unknown => {},
                    IoError::InternalFailure => {},
                    IoError::TemporarilyOffline => {},
                    IoError::InvalidState => {},
                    IoError::PeerFailure => {},
                    IoError::BrokenPipe => {},
                    IoError::NotFound => {},
                    IoError::Unsupported => {},
                    IoError::PermissionDenied => {},
                    IoError::AuthenticationRequired => {},
                    IoError::AuthenticationFailed => {},
                    IoError::ConnectionRefused => {},
                    IoError::Unreachable => {},
                    IoError::AbortRequested => {},
                    IoError::AllocationConflict => {},
                    IoError::OperationConflict => {},
                    IoError::OptimisticConcurrencyFailure => {},
                    IoError::Deadlock => {},
                    IoError::AlreadyExists => {},
                    IoError::MalformedInput => {},
                    IoError::InvalidData => {},
                    IoError::InvalidReference => {},
                    IoError::TimedOut => {},
                    IoError::TooBig => {},
                    IoError::Busy => {},
                    IoError::RateLimited => {},
                    IoError::QuotaLimited => {},
                    IoError::Interrupted => {},
                    IoError::UnexpectedEof => {},
                    IoError::OutOfMemory => {},
                    IoError::OutOfStorage => {},
                }
            }
            IoError::Unknown
        }
    }

    /// The error behind a standard library error of the given kind, which may
    /// carry an `IoError` as its source.
    pub fn from_source(kind: ErrorKind, inner: Option<IoError>) -> (err: IoError)
        ensures
            err == match inner {
                Some(inner) => inner,
                None => IoError::of_kind(kind),
            },
    {
        match inner {
            Some(inner) => inner,
            None => IoError::from(kind),
        }
    }
}

/// Returns `true` if both strings hold the same text.
fn same_text(a: &str, b: &str) -> (same: bool)
    ensures
        same == (a@ == b@),
{
    let a_bytes: &[u8] = a.as_bytes();
    let b_bytes: &[u8] = b.as_bytes();
    proof {
        vstd::utf8::encode_utf8_decode_utf8(a@);
        vstd::utf8::encode_utf8_decode_utf8(b@);
    }
    if a_bytes.len() != b_bytes.len() {
        return false;
    }
    let mut i: usize = 0;
    while i < a_bytes.len()
        invariant
            i <= a_bytes@.len(),
            a_bytes@.len() == b_bytes@.len(),
            forall|j: int| 0 <= j < i ==> a_bytes@[j] == b_bytes@[j],
            a_bytes@ == vstd::utf8::encode_utf8(a@),
            b_bytes@ == vstd::utf8::encode_utf8(b@),
        decreases a_bytes@.len() - i,
    {
        if a_bytes[i] != b_bytes[i] {
            return false;
        }
        i = i + 1;
    }
    assert(a_bytes@ =~= b_bytes@);
    true
}

impl vstd::std_specs::convert::FromSpecImpl<IoError> for ErrorKind {
    open spec fn obeys_from_spec() -> bool {
        true
    }

    open spec fn from_spec(err: IoError) -> ErrorKind {
        err.kind()
    }
}

impl From<IoError> for ErrorKind {
    fn from(err: IoError) -> (kind: ErrorKind) {
        match err {
            IoError::Unknown => ErrorKind::Other,
            IoError::InternalFailure => ErrorKind::Other,
            IoError::TemporarilyOffline => ErrorKind::Other,
            IoError::InvalidState => ErrorKind::Other,
            IoError::PeerFailure => ErrorKind::Other,
            IoError::BrokenPipe => ErrorKind::BrokenPipe,
            IoError::NotFound => ErrorKind::NotFound,
            IoError::Unsupported => ErrorKind::Unsupported,
            IoError::PermissionDenied => ErrorKind::PermissionDenied,
            IoError::AuthenticationRequired => ErrorKind::PermissionDenied,
            IoError::AuthenticationFailed => ErrorKind::PermissionDenied,
            IoError::ConnectionRefused => ErrorKind::ConnectionRefused,
            IoError::Unreachable => ErrorKind::HostUnreachable,
            IoError::AbortRequested => ErrorKind::ConnectionAborted,
            IoError::AllocationConflict => ErrorKind::AddrInUse,
            IoError::OperationConflict => ErrorKind::Other,
            IoError::OptimisticConcurrencyFailure => ErrorKind::Deadlock,
            IoError::Deadlock => ErrorKind::Deadlock,
            IoError::AlreadyExists => ErrorKind::AlreadyExists,
            IoError::MalformedInput => ErrorKind::InvalidInput,
            IoError::InvalidData => ErrorKind::InvalidData,
            IoError::InvalidReference => ErrorKind::InvalidData,
            IoError::TimedOut => ErrorKind::TimedOut,
            IoError::TooBig => ErrorKind::ArgumentListTooLong,
            IoError::Busy => ErrorKind::ResourceBusy,
            IoError::RateLimited => ErrorKind::QuotaExceeded,
            IoError::QuotaLimited => ErrorKind::QuotaExceeded,
            IoError::Interrupted => ErrorKind::Interrupted,
            IoError::UnexpectedEof => ErrorKind::UnexpectedEof,
            IoError::OutOfMemory => ErrorKind::OutOfMemory,
            IoError::OutOfStorage => ErrorKind::StorageFull,
        }
    }
}

impl vstd::std_specs::convert::FromSpecImpl<ErrorKind> for IoError {
    open spec fn obeys_from_spec() -> bool {
        true
    }

    open spec fn from_spec(kind: ErrorKind) -> IoError {
        IoError::of_kind(kind)
    }
}

impl From<ErrorKind> for IoError {
    fn from(kind: ErrorKind) -> (err: IoError) {
        match kind {
            ErrorKind::NotFound => IoError::NotFound,
            ErrorKind::PermissionDenied => IoError::PermissionDenied,
            ErrorKind::ConnectionRefused => IoError::ConnectionRefused,
            ErrorKind::ConnectionReset => IoError::BrokenPipe,
            ErrorKind::HostUnreachable => IoError::Unreachable,
            ErrorKind::NetworkUnreachable => IoError::Unreachable,
            ErrorKind::ConnectionAborted => IoError::AbortRequested,
            ErrorKind::NotConnected => IoError::BrokenPipe,
            ErrorKind::AddrInUse => IoError::AllocationConflict,
            ErrorKind::AddrNotAvailable => IoError::AllocationConflict,
            ErrorKind::NetworkDown => IoError::TemporarilyOffline,
            ErrorKind::BrokenPipe => IoError::BrokenPipe,
            ErrorKind::AlreadyExists => IoError::AlreadyExists,
            ErrorKind::WouldBlock => IoError::Busy,
            ErrorKind::NotADirectory => IoError::InvalidReference,
            ErrorKind::IsADirectory => IoError::InvalidReference,
            ErrorKind::DirectoryNotEmpty => IoError::OperationConflict,
            ErrorKind::ReadOnlyFilesystem => IoError::Unsupported,
            ErrorKind::StaleNetworkFileHandle => IoError::InvalidReference,
            ErrorKind::InvalidInput => IoError::MalformedInput,
            ErrorKind::InvalidData => IoError::InvalidData,
            ErrorKind::TimedOut => IoError::TimedOut,
            ErrorKind::WriteZero => IoError::BrokenPipe,
            ErrorKind::StorageFull => IoError::OutOfStorage,
            ErrorKind::NotSeekable => IoError::Unsupported,
            ErrorKind::QuotaExceeded => IoError::QuotaLimited,
            ErrorKind::FileTooLarge => IoError::TooBig,
            ErrorKind::ResourceBusy => IoError::Busy,
            ErrorKind::ExecutableFileBusy => IoError::Busy,
            ErrorKind::Deadlock => IoError::Deadlock,
            ErrorKind::CrossesDevices => IoError::Unsupported,
            ErrorKind::TooManyLinks => IoError::Unknown,
            ErrorKind::InvalidFilename => IoError::MalformedInput,
            ErrorKind::ArgumentListTooLong => IoError::TooBig,
            ErrorKind::Interrupted => IoError::Interrupted,
            ErrorKind::Unsupported => IoError::Unsupported,
            ErrorKind::UnexpectedEof => IoError::UnexpectedEof,
            ErrorKind::OutOfMemory => IoError::OutOfMemory,
            ErrorKind::Other => IoError::Unknown,
            _ => IoError::Unknown,
        }
    }
}

impl Deref for IoError {
    type Target = str;

    fn deref(&self) -> (name: &str)
        ensures
            name@ == self.name(),
    {
        self.as_str()
    }
}

impl FromStr for IoError {
    type Err = Infallible;

    fn from_str(s: &str) -> (err: Result<IoError, Infallible>)
        ensures
            err == Ok::<IoError, Infallible>(IoError::named(s@)),
    {
        Ok(IoError::from_name(s))
    }
}

/// No two variants have the same name.
pub proof fn law_names_are_distinct(a: IoError, b: IoError)
    requires
        a.name() == b.name(),
    ensures
        a == b,
{
    reveal_strlit("Unknown");
    reveal_strlit("InternalFailure");
    reveal_strlit("TemporarilyOffline");
    reveal_strlit("InvalidState");
    reveal_strlit("PeerFailure");
    reveal_strlit("BrokenPipe");
    reveal_strlit("NotFound");
    reveal_strlit("Unsupported");
    reveal_strlit("PermissionDenied");
    reveal_strlit("AuthenticationRequired");
    reveal_strlit("AuthenticationFailed");
    reveal_strlit("ConnectionRefused");
    reveal_strlit("Unreachable");
    reveal_strlit("AbortRequested");
    reveal_strlit("AllocationConflict");
    reveal_strlit("OperationConflict");
    reveal_strlit("OptimisticConcurrencyFailure");
    reveal_strlit("Deadlock");
    reveal_strlit("AlreadyExists");
    reveal_strlit("MalformedInput");
    reveal_strlit("InvalidData");
    reveal_strlit("InvalidReference");
    reveal_strlit("TimedOut");
    reveal_strlit("TooBig");
    reveal_strlit("Busy");
    reveal_strlit("RateLimited");
    reveal_strlit("QuotaLimited");
    reveal_strlit("Interrupted");
    reveal_strlit("UnexpectedEof");
    reveal_strlit("OutOfMemory");
    reveal_strlit("OutOfStorage");
    assert("Unknown"@.len() == 7 && "Unknown"@[0] == 'U' && "Unknown"@[2] == 'k');
    assert("InternalFailure"@.len() == 15 && "InternalFailure"@[0] == 'I' && "InternalFailure"@[2] == 't');
    assert("TemporarilyOffline"@.len() == 18 && "TemporarilyOffline"@[0] == 'T' && "TemporarilyOffline"@[2] == 'm');
    assert("InvalidState"@.len() == 12 && "InvalidState"@[0] == 'I' && "InvalidState"@[2] == 'v');
    assert("PeerFailure"@.len() == 11 && "PeerFailure"@[0] == 'P' && "PeerFailure"@[2] == 'e');
    assert("BrokenPipe"@.len() == 10 && "BrokenPipe"@[0] == 'B' && "BrokenPipe"@[2] == 'o');
    assert("NotFound"@.len() == 8 && "NotFound"@[0] == 'N' && "NotFound"@[2] == 't');
    assert("Unsupported"@.len() == 11 && "Unsupported"@[0] == 'U' && "Unsupported"@[2] == 's');
    assert("PermissionDenied"@.len() == 16 && "PermissionDenied"@[0] == 'P' && "PermissionDenied"@[2] == 'r');
    assert("AuthenticationRequired"@.len() == 22 && "AuthenticationRequired"@[0] == 'A' && "AuthenticationRequired"@[2] == 't');
    assert("AuthenticationFailed"@.len() == 20 && "AuthenticationFailed"@[0] == 'A' && "AuthenticationFailed"@[2] == 't');
    assert("ConnectionRefused"@.len() == 17 && "ConnectionRefused"@[0] == 'C' && "ConnectionRefused"@[2] == 'n');
    assert("Unreachable"@.len() == 11 && "Unreachable"@[0] == 'U' && "Unreachable"@[2] == 'r');
    assert("AbortRequested"@.len() == 14 && "AbortRequested"@[0] == 'A' && "AbortRequested"@[2] == 'o');
    assert("AllocationConflict"@.len() == 18 && "AllocationConflict"@[0] == 'A' && "AllocationConflict"@[2] == 'l');
    assert("OperationConflict"@.len() == 17 && "OperationConflict"@[0] == 'O' && "OperationConflict"@[2] == 'e');
    assert("OptimisticConcurrencyFailure"@.len() == 28 && "OptimisticConcurrencyFailure"@[0] == 'O' && "OptimisticConcurrencyFailure"@[2] == 't');
    assert("Deadlock"@.len() == 8 && "Deadlock"@[0] == 'D' && "Deadlock"@[2] == 'a');
    assert("AlreadyExists"@.len() == 13 && "AlreadyExists"@[0] == 'A' && "AlreadyExists"@[2] == 'r');
    assert("MalformedInput"@.len() == 14 && "MalformedInput"@[0] == 'M' && "MalformedInput"@[2] == 'l');
    assert("InvalidData"@.len() == 11 && "InvalidData"@[0] == 'I' && "InvalidData"@[2] == 'v');
    assert("InvalidReference"@.len() == 16 && "InvalidReference"@[0] == 'I' && "InvalidReference"@[2] == 'v');
    assert("TimedOut"@.len() == 8 && "TimedOut"@[0] == 'T' && "TimedOut"@[2] == 'm');
    assert("TooBig"@.len() == 6 && "TooBig"@[0] == 'T' && "TooBig"@[2] == 'o');
    assert("Busy"@.len() == 4 && "Busy"@[0] == 'B' && "Busy"@[2] == 's');
    assert("RateLimited"@.len() == 11 && "RateLimited"@[0] == 'R' && "RateLimited"@[2] == 't');
    assert("QuotaLimited"@.len() == 12 && "QuotaLimited"@[0] == 'Q' && "QuotaLimited"@[2] == 'o');
    assert("Interrupted"@.len() == 11 && "Interrupted"@[0] == 'I' && "Interrupted"@[2] == 't');
    assert("UnexpectedEof"@.len() == 13 && "UnexpectedEof"@[0] == 'U' && "UnexpectedEof"@[2] == 'e');
    assert("OutOfMemory"@.len() == 11 && "OutOfMemory"@[0] == 'O' && "OutOfMemory"@[2] == 't');
    assert("OutOfStorage"@.len() == 12 && "OutOfStorage"@[0] == 'O' && "OutOfStorage"@[2] == 't');
}

/// A variant is found again by its name.
pub proof fn law_name_round_trip(err: IoError)
    ensures
        IoError::named(err.name()) == err,
{
    law_names_are_distinct(IoError::named(err.name()), err);
}

/// A standard library error kind that an error is turned into keeps its kind when
/// it is turned back into an error and once more into a kind.
pub proof fn law_kind_round_trip(err: IoError)
    ensures
        IoError::of_kind(err.kind()).kind() == err.kind(),
{
}

/// Every error is an HTTP client error or server error.
pub proof fn law_http_status_is_an_error(err: IoError)
    ensures
        400 <= err.http_status() < 600,
{
}

/// Which errors have which HTTP status code.  What the caller did wrong is a client error:
/// a malformed request, one without permission, one for what is not there or in the way of
/// something else, one that is too large, or one too many.  All else is a server error.
pub proof fn law_http_status_tells_errors_apart(err: IoError, status: u16)
    requires
        call_ensures(IoError::to_http_status, (err,), status),
    ensures
        status == 400 <==> (err == IoError::MalformedInput
            || err == IoError::UnexpectedEof),
        status == 401 <==> (err == IoError::AuthenticationRequired
            || err == IoError::AuthenticationFailed),
        status == 403 <==> (err == IoError::PermissionDenied),
        status == 404 <==> (err == IoError::NotFound),
        status == 409 <==> (err == IoError::InvalidState
            || err == IoError::AllocationConflict
            || err == IoError::OperationConflict
            || err == IoError::OptimisticConcurrencyFailure
            || err == IoError::Deadlock
            || err == IoError::AlreadyExists),
        status == 413 <==> (err == IoError::TooBig),
        status == 422 <==> (err == IoError::InvalidData
            || err == IoError::InvalidReference),
        status == 429 <==> (err == IoError::RateLimited
            || err == IoError::QuotaLimited),
        status == 499 <==> (err == IoError::AbortRequested),
        status == 500 <==> (err == IoError::Unknown
            || err == IoError::InternalFailure),
        status == 501 <==> (err == IoError::Unsupported),
        status == 502 <==> (err == IoError::PeerFailure
            || err == IoError::BrokenPipe
            || err == IoError::ConnectionRefused
            || err == IoError::Unreachable),
        status == 503 <==> (err == IoError::TemporarilyOffline
            || err == IoError::Busy
            || err == IoError::Interrupted
            || err == IoError::OutOfMemory),
        status == 504 <==> (err == IoError::TimedOut),
        status == 507 <==> (err == IoError::OutOfStorage),
        status == 400 || status == 401 || status == 403 || status == 404 || status == 409 || status == 413 || status == 422 || status == 429 || status == 499 || status == 500 || status == 501 || status == 502 || status == 503 || status == 504 || status == 507,
{
}

/// Which errors become which kind of standard library error.
pub proof fn law_kind_tells_errors_apart(err: IoError, kind: ErrorKind)
    requires
        call_ensures(<ErrorKind as From<IoError>>::from, (err,), kind),
    ensures
        kind == ErrorKind::Other <==> (err == IoError::Unknown
            || err == IoError::InternalFailure
            || err == IoError::TemporarilyOffline
            || err == IoError::InvalidState
            || err == IoError::PeerFailure
            || err == IoError::OperationConflict),
        kind == ErrorKind::BrokenPipe <==> (err == IoError::BrokenPipe),
        kind == ErrorKind::NotFound <==> (err == IoError::NotFound),
        kind == ErrorKind::Unsupported <==> (err == IoError::Unsupported),
        kind == ErrorKind::PermissionDenied <==> (err == IoError::PermissionDenied
            || err == IoError::AuthenticationRequired
            || err == IoError::AuthenticationFailed),
        kind == ErrorKind::ConnectionRefused <==> (err == IoError::ConnectionRefused),
        kind == ErrorKind::HostUnreachable <==> (err == IoError::Unreachable),
        kind == ErrorKind::ConnectionAborted <==> (err == IoError::AbortRequested),
        kind == ErrorKind::AddrInUse <==> (err == IoError::AllocationConflict),
        kind == ErrorKind::Deadlock <==> (err == IoError::OptimisticConcurrencyFailure
            || err == IoError::Deadlock),
        kind == ErrorKind::AlreadyExists <==> (err == IoError::AlreadyExists),
        kind == ErrorKind::InvalidInput <==> (err == IoError::MalformedInput),
        kind == ErrorKind::InvalidData <==> (err == IoError::InvalidData
            || err == IoError::InvalidReference),
        kind == ErrorKind::TimedOut <==> (err == IoError::TimedOut),
        kind == ErrorKind::ArgumentListTooLong <==> (err == IoError::TooBig),
        kind == ErrorKind::ResourceBusy <==> (err == IoError::Busy),
        kind == ErrorKind::QuotaExceeded <==> (err == IoError::RateLimited
            || err == IoError::QuotaLimited),
        kind == ErrorKind::Interrupted <==> (err == IoError::Interrupted),
        kind == ErrorKind::UnexpectedEof <==> (err == IoError::UnexpectedEof),
        kind == ErrorKind::OutOfMemory <==> (err == IoError::OutOfMemory),
        kind == ErrorKind::StorageFull <==> (err == IoError::OutOfStorage),
{
}

/// Which kinds of standard library error become which error; a kind that becomes none of
/// these is unknown.
pub proof fn law_error_tells_kinds_apart(kind: ErrorKind, err: IoError)
    requires
        call_ensures(<IoError as From<ErrorKind>>::from, (kind,), err),
    ensures
        err == IoError::NotFound <==> (kind == ErrorKind::NotFound),
        err == IoError::PermissionDenied <==> (kind == ErrorKind::PermissionDenied),
        err == IoError::ConnectionRefused <==> (kind == ErrorKind::ConnectionRefused),
        err == IoError::BrokenPipe <==> (kind == ErrorKind::ConnectionReset
            || kind == ErrorKind::NotConnected
            || kind == ErrorKind::BrokenPipe
            || kind == ErrorKind::WriteZero),
        err == IoError::Unreachable <==> (kind == ErrorKind::HostUnreachable
            || kind == ErrorKind::NetworkUnreachable),
        err == IoError::AbortRequested <==> (kind == ErrorKind::ConnectionAborted),
        err == IoError::AllocationConflict <==> (kind == ErrorKind::AddrInUse
            || kind == ErrorKind::AddrNotAvailable),
        err == IoError::TemporarilyOffline <==> (kind == ErrorKind::NetworkDown),
        err == IoError::AlreadyExists <==> (kind == ErrorKind::AlreadyExists),
        err == IoError::Busy <==> (kind == ErrorKind::WouldBlock
            || kind == ErrorKind::ResourceBusy
            || kind == ErrorKind::ExecutableFileBusy),
        err == IoError::InvalidReference <==> (kind == ErrorKind::NotADirectory
            || kind == ErrorKind::IsADirectory
            || kind == ErrorKind::StaleNetworkFileHandle),
        err == IoError::OperationConflict <==> (kind == ErrorKind::DirectoryNotEmpty),
        err == IoError::Unsupported <==> (kind == ErrorKind::ReadOnlyFilesystem
            || kind == ErrorKind::NotSeekable
            || kind == ErrorKind::CrossesDevices
            || kind == ErrorKind::Unsupported),
        err == IoError::MalformedInput <==> (kind == ErrorKind::InvalidInput
            || kind == ErrorKind::InvalidFilename),
        err == IoError::InvalidData <==> (kind == ErrorKind::InvalidData),
        err == IoError::TimedOut <==> (kind == ErrorKind::TimedOut),
        err == IoError::OutOfStorage <==> (kind == ErrorKind::StorageFull),
        err == IoError::QuotaLimited <==> (kind == ErrorKind::QuotaExceeded),
        err == IoError::TooBig <==> (kind == ErrorKind::FileTooLarge
            || kind == ErrorKind::ArgumentListTooLong),
        err == IoError::Deadlock <==> (kind == ErrorKind::Deadlock),
        err == IoError::Interrupted <==> (kind == ErrorKind::Interrupted),
        err == IoError::UnexpectedEof <==> (kind == ErrorKind::UnexpectedEof),
        err == IoError::OutOfMemory <==> (kind == ErrorKind::OutOfMemory),
        err != IoError::InternalFailure,
        err != IoError::InvalidState,
        err != IoError::PeerFailure,
        err != IoError::AuthenticationRequired,
        err != IoError::AuthenticationFailed,
        err != IoError::OptimisticConcurrencyFailure,
        err != IoError::RateLimited,
{
}

/// What each error says to a human reader.
pub proof fn law_message_describes_the_error(err: IoError, text: &'static str)
    requires
        call_ensures(IoError::message, (err,), text),
    ensures
        err == IoError::Unknown ==> text@ == "Unknown error"@,
        err == IoError::InternalFailure ==> text@ == "Internal failure"@,
        err == IoError::TemporarilyOffline ==> text@ == "Internal failure"@,
        err == IoError::InvalidState ==> text@ == "Invalid state for operation"@,
        err == IoError::PeerFailure ==> text@ == "Unknown peer failed"@,
        err == IoError::BrokenPipe ==> text@ == "Peer closed"@,
        err == IoError::NotFound ==> text@ == "Not found"@,
        err == IoError::Unsupported ==> text@ == "Unsupported operation"@,
        err == IoError::PermissionDenied ==> text@ == "Permission denied"@,
        err == IoError::AuthenticationRequired ==> text@ == "Authentication required"@,
        err == IoError::AuthenticationFailed ==> text@ == "Authentication could not be verified"@,
        err == IoError::ConnectionRefused ==> text@ == "Connection refused"@,
        err == IoError::Unreachable ==> text@ == "Peer unreachable"@,
        err == IoError::AbortRequested ==> text@ == "Abort requested"@,
        err == IoError::AllocationConflict ==> text@ == "Conflicting allocations"@,
        err == IoError::OperationConflict ==> text@ == "Peer unreachable"@,
        err == IoError::OptimisticConcurrencyFailure ==> text@ == "Optimistic concurrency control failure (can retry)"@,
        err == IoError::Deadlock ==> text@ == "Deadlock"@,
        err == IoError::AlreadyExists ==> text@ == "Object to create already exists"@,
        err == IoError::MalformedInput ==> text@ == "Input or message does not conform to protocol"@,
        err == IoError::InvalidData ==> text@ == "Referenced data is not valid"@,
        err == IoError::InvalidReference ==> text@ == "Could not find reference target"@,
        err == IoError::TimedOut ==> text@ == "Operation timed out"@,
        err == IoError::TooBig ==> text@ == "Request is too big to process with available resources"@,
        err == IoError::Busy ==> text@ == "Busy. Try again later"@,
        err == IoError::RateLimited ==> text@ == "Rate limit exceeded"@,
        err == IoError::QuotaLimited ==> text@ == "Quota exceeded"@,
        err == IoError::Interrupted ==> text@ == "Interrupted"@,
        err == IoError::UnexpectedEof ==> text@ == "Unexpected end of data"@,
        err == IoError::OutOfMemory ==> text@ == "Out of memory"@,
        err == IoError::OutOfStorage ==> text@ == "Storage limit exceeded"@,
{
}

/// A name is that of exactly the variant that is found by it; what is no variant's name is
/// unknown.
pub proof fn law_name_finds_its_error(name: &str, err: IoError, found: IoError)
    requires
        call_ensures(IoError::from_name, (name,), found),
    ensures
        err.name() == name@ ==> found == err,
        (forall|e: IoError| #[trigger] e.name() != name@) ==> found == IoError::Unknown,
{
    if err.name() == name@ {
        law_name_round_trip(err);
    }
}

/// An error that a standard library error carries comes back as it is, and otherwise the
/// kind decides.
pub proof fn law_carried_error_comes_first(
    kind: ErrorKind,
    inner: Option<IoError>,
    err: IoError,
    by_kind: IoError,
)
    requires
        call_ensures(IoError::from_source, (kind, inner), err),
        call_ensures(<IoError as From<ErrorKind>>::from, (kind,), by_kind),
    ensures
        inner matches Some(carried) ==> err == carried,
        inner is None ==> err == by_kind,
{
}

/// An error is known by one name, however it is asked for or looked up.
pub proof fn law_one_name_for_an_error(
    err: IoError,
    text: &'static str,
    shown: &str,
    found: IoError,
)
    requires
        call_ensures(IoError::as_str, (err,), text),
        call_ensures(<IoError as Deref>::deref, (&err,), shown),
        call_ensures(IoError::from_name, (shown,), found),
    ensures
        text@ == shown@,
        found == err,
{
    law_name_round_trip(err);
}

} // verus!

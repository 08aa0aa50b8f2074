use vstd::prelude::*;

verus! {

/// Why a conversion failed, with a human-readable detail.
#[derive(Debug)]
pub enum ConversionError {
    /// Reading or writing a file failed.
    IoFailure(String),
    /// A required external program could not be started; says how to install it.
    ProcessUnavailable(String),
    /// The browser's control endpoint answered with a failure or without an expected field.
    RemoteProtocolFailure(String),
    /// The control endpoint could not be reached.
    NetworkFailure(String),
    /// A converter exited with an error, or its output could not be decoded.
    ConversionFailure(String),
}

/// The text that starts the message of each kind of error.
pub open spec fn error_prefix(e: ConversionError) -> Seq<char> {
    match e {
        ConversionError::IoFailure(_) => "I/O error: "@,
        ConversionError::ProcessUnavailable(_) => "Process unavailable: "@,
        ConversionError::RemoteProtocolFailure(_) => "Chrome error: "@,
        ConversionError::NetworkFailure(_) => "Network error: "@,
        ConversionError::ConversionFailure(_) => "PDF conversion failed: "@,
    }
}

/// The detail an error carries.
pub open spec fn error_detail(e: ConversionError) -> Seq<char> {
    match e {
        ConversionError::IoFailure(s) => s@,
        ConversionError::ProcessUnavailable(s) => s@,
        ConversionError::RemoteProtocolFailure(s) => s@,
        ConversionError::NetworkFailure(s) => s@,
        ConversionError::ConversionFailure(s) => s@,
    }
}

impl ConversionError {
    /// The message shown to the user: the kind of failure, then its detail.
    pub fn message(&self) -> (r: String)
        ensures
            r@ == error_prefix(*self) + error_detail(*self),
    {
        let (prefix, detail) = match self {
            ConversionError::IoFailure(s) => ("I/O error: ", s),
            ConversionError::ProcessUnavailable(s) => ("Process unavailable: ", s),
            ConversionError::RemoteProtocolFailure(s) => ("Chrome error: ", s),
            ConversionError::NetworkFailure(s) => ("Network error: ", s),
            ConversionError::ConversionFailure(s) => ("PDF conversion failed: ", s),
        };
        let mut r = String::from_str(prefix);
        r.append(detail.as_str());
        r
    }
}

/// The kind of a [`ConversionError`], without its detail.
#[derive(Clone, Copy, Debug, PartialEq, Eq, Structural)]
pub enum ErrorKind {
    Io,
    Unavailable,
    Remote,
    Network,
    Conversion,
}

pub open spec fn kind_of(e: ConversionError) -> ErrorKind {
    match e {
        ConversionError::IoFailure(_) => ErrorKind::Io,
        ConversionError::ProcessUnavailable(_) => ErrorKind::Unavailable,
        ConversionError::RemoteProtocolFailure(_) => ErrorKind::Remote,
        ConversionError::NetworkFailure(_) => ErrorKind::Network,
        ConversionError::ConversionFailure(_) => ErrorKind::Conversion,
    }
}

impl ConversionError {
    /// The kind of this error.
    pub fn kind(&self) -> (r: ErrorKind)
        ensures
            r == kind_of(*self),
    {
        match self {
            ConversionError::IoFailure(_) => ErrorKind::Io,
            ConversionError::ProcessUnavailable(_) => ErrorKind::Unavailable,
            ConversionError::RemoteProtocolFailure(_) => ErrorKind::Remote,
            ConversionError::NetworkFailure(_) => ErrorKind::Network,
            ConversionError::ConversionFailure(_) => ErrorKind::Conversion,
        }
    }
}

} // verus!

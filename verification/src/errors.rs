use crate::text::joined;
use vstd::prelude::*;

verus! {

/// The ways in which a lookup fails. Where a failure comes from the network or
/// from another component, the variant holds its description.
#[derive(Debug, Clone)]
pub enum WhoisError {
    /// The domain is empty, has no dot, or is malformed.
    InvalidDomain(String),
    /// No server was found for the top-level domain by any means.
    UnsupportedTld(String),
    /// A network operation took longer than it may.
    Timeout,
    /// A connection or a read failed.
    IoError(String),
    /// An RDAP request failed in transport or by its status.
    HttpError(String),
    RegexError(String),
    /// A reply grew beyond the configured size.
    ResponseTooLarge,
    /// A WHOIS reply is not UTF-8.
    InvalidUtf8,
    ConfigError(String),
    CacheError(String),
    /// An invariant of the program or of its configuration does not hold.
    Internal(String),
}

/// What an error says of itself.
pub open spec fn message_of(e: WhoisError) -> Seq<char> {
    match e {
        WhoisError::InvalidDomain(d) => "Invalid domain: "@ + d@,
        WhoisError::UnsupportedTld(t) => "Unsupported TLD: "@ + t@,
        WhoisError::Timeout => "Network timeout"@,
        WhoisError::IoError(m) => "IO error: "@ + m@,
        WhoisError::HttpError(m) => "HTTP error: "@ + m@,
        WhoisError::RegexError(m) => "Regex error: "@ + m@,
        WhoisError::ResponseTooLarge => "Response too large"@,
        WhoisError::InvalidUtf8 => "Invalid UTF-8 in response"@,
        WhoisError::ConfigError(m) => "Configuration error: "@ + m@,
        WhoisError::CacheError(m) => "Cache error: "@ + m@,
        WhoisError::Internal(m) => "Internal server error: "@ + m@,
    }
}

/// The HTTP status under which an error is reported: 400 for what the caller got
/// wrong, 408 for a timeout, 500 for the rest.
pub open spec fn status_of(e: WhoisError) -> u16 {
    match e {
        WhoisError::InvalidDomain(_) => 400,
        WhoisError::UnsupportedTld(_) => 400,
        WhoisError::Timeout => 408,
        _ => 500,
    }
}

/// What a caller over HTTP is told of an error: its message where the status is
/// not 500, and no detail where it is.
pub open spec fn public_message_of(e: WhoisError) -> Seq<char> {
    if status_of(e) == 500 {
        "Internal server error"@
    } else {
        message_of(e)
    }
}

impl WhoisError {
    /// What the error says of itself.
    pub fn message(&self) -> (s: String)
        ensures
            s@ == message_of(*self),
    {
        match self {
            WhoisError::InvalidDomain(d) => joined("Invalid domain: ", d.as_str()),
            WhoisError::UnsupportedTld(t) => joined("Unsupported TLD: ", t.as_str()),
            WhoisError::Timeout => "Network timeout".to_owned(),
            WhoisError::IoError(m) => joined("IO error: ", m.as_str()),
            WhoisError::HttpError(m) => joined("HTTP error: ", m.as_str()),
            WhoisError::RegexError(m) => joined("Regex error: ", m.as_str()),
            WhoisError::ResponseTooLarge => "Response too large".to_owned(),
            WhoisError::InvalidUtf8 => "Invalid UTF-8 in response".to_owned(),
            WhoisError::ConfigError(m) => joined("Configuration error: ", m.as_str()),
            WhoisError::CacheError(m) => joined("Cache error: ", m.as_str()),
            WhoisError::Internal(m) => joined("Internal server error: ", m.as_str()),
        }
    }

    /// The HTTP status under which the error is reported.
    pub fn status_code(&self) -> (code: u16)
        ensures
            code == status_of(*self),
    {
        match self {
            WhoisError::InvalidDomain(_) => 400,
            WhoisError::UnsupportedTld(_) => 400,
            WhoisError::Timeout => 408,
            _ => 500,
        }
    }

    /// What a caller over HTTP is told of the error.
    pub fn public_message(&self) -> (s: String)
        ensures
            s@ == public_message_of(*self),
    {
        if self.status_code() == 500 {
            "Internal server error".to_owned()
        } else {
            self.message()
        }
    }
}

} // verus!

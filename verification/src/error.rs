use vstd::prelude::*;

verus! {

/// `std::io::Error` is carried through unchanged when a transport hands the
/// codec a failed read or write.  Verus treats the type as opaque; nothing
/// in the library inspects such a value.
#[verifier::external_type_specification]
#[verifier::external_body]
pub struct ExIoError(std::io::Error);

/// Decoding Errors
#[derive(Debug)]
pub enum DecodeError {
    /// A transport failure, propagated verbatim.
    IOError(std::io::Error),
    /// An unknown or invalid command was used.
    UnknownCommand(u8),
    /// A subnegotiation payload passed the configured maximum length.
    SubnegotiationTooLong,
}

impl From<std::io::Error> for DecodeError {
    fn from(error: std::io::Error) -> (r: DecodeError) {
        DecodeError::IOError(error)
    }
}

impl vstd::std_specs::convert::FromSpecImpl<std::io::Error> for DecodeError {
    open spec fn obeys_from_spec() -> bool {
        true
    }

    open spec fn from_spec(error: std::io::Error) -> DecodeError {
        DecodeError::IOError(error)
    }
}

/// Telnet Encoding Errors
#[derive(Debug)]
pub enum EncodeError {
    /// A transport failure, propagated verbatim.
    IOError(std::io::Error),
}

impl From<std::io::Error> for EncodeError {
    fn from(error: std::io::Error) -> (r: EncodeError) {
        EncodeError::IOError(error)
    }
}

impl vstd::std_specs::convert::FromSpecImpl<std::io::Error> for EncodeError {
    open spec fn obeys_from_spec() -> bool {
        true
    }

    open spec fn from_spec(error: std::io::Error) -> EncodeError {
        EncodeError::IOError(error)
    }
}

} // verus!

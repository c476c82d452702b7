use vstd::prelude::*;

verus! {

/// `bincode::ErrorKind`, what a `bincode::Error` boxes; carried through the
/// library without being looked into.
#[verifier::external_type_specification]
#[verifier::external_body]
pub struct ExBincodeErrorKind(bincode::ErrorKind);

/// Why a measurement stopped.
#[derive(Debug)]
pub enum Error {
    /// reading or writing a socket or a file failed
    Io(std::io::Error),
    /// a control message could not be encoded or decoded
    Bincode(bincode::Error),
    /// the peer sent a message that the protocol does not allow here
    Protocol(&'static str),
}

impl From<std::io::Error> for Error {
    fn from(e: std::io::Error) -> (r: Error) {
        Error::Io(e)
    }
}

impl vstd::std_specs::convert::FromSpecImpl<std::io::Error> for Error {
    open spec fn obeys_from_spec() -> bool {
        true
    }

    open spec fn from_spec(e: std::io::Error) -> Error {
        Error::Io(e)
    }
}

impl From<bincode::Error> for Error {
    fn from(e: bincode::Error) -> (r: Error) {
        Error::Bincode(e)
    }
}

impl vstd::std_specs::convert::FromSpecImpl<bincode::Error> for Error {
    open spec fn obeys_from_spec() -> bool {
        true
    }

    open spec fn from_spec(e: bincode::Error) -> Error {
        Error::Bincode(e)
    }
}

} // verus!

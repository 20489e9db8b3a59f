//! The error type of the library.

use vstd::prelude::*;
use corepc_types::bitcoin;
use std::io::Error as IoError;
use vstd::string::to_string_from_display_ensures;

verus! {

/// `std::io::Error`, which reading a cookie file can give.
#[verifier::external_type_specification]
#[verifier::external_body]
pub struct ExIoError(IoError);

/// The address parse error of the `bitcoin` crate.
#[verifier::external_type_specification]
#[verifier::external_body]
pub struct ExAddressParseError(bitcoin::address::ParseError);

/// The hex parse error of the `bitcoin` crate.
#[verifier::external_type_specification]
#[verifier::external_body]
pub struct ExHexToArrayError(bitcoin::hex::HexToArrayError);

/// Error
#[derive(Debug)]
pub enum Error {
    /// mismatched IDs
    IdMismatch,
    /// Invalid cookie file
    InvalidCookieFile,
    /// `std::io`
    Io(std::io::Error),
    /// `jsonrpc`
    JsonRpc(jsonrpc::Error),
    /// error modeling a `corepc` type, by its message
    Model(String),
    /// `serde_json`
    SerdeJson(serde_json::Error),
    /// Error returned from RPC
    Returned(String),
    /// Bitcoin address parsing error
    BitcoinAddressParse(bitcoin::address::ParseError),
    /// Bitcoin hex parsing error
    BitcoinHexParse(bitcoin::hex::HexToArrayError),
}

impl Error {
    /// The message of the error (what `Display` writes): for an error of
    /// another crate, that crate's message.
    pub fn to_string(&self) -> (s: String)
        ensures
            *self matches Error::IdMismatch ==> s@ == "request id mismatch"@,
            *self matches Error::InvalidCookieFile ==> s@ == "invaild cookie file"@,
            *self matches Error::Model(m) ==> s@ == m@,
            *self matches Error::Returned(m) ==> s@ == m@,
            *self matches Error::Io(e) ==> to_string_from_display_ensures(&e, s),
            *self matches Error::JsonRpc(e) ==> to_string_from_display_ensures(&e, s),
            *self matches Error::SerdeJson(e) ==> to_string_from_display_ensures(&e, s),
            *self matches Error::BitcoinAddressParse(e) ==> to_string_from_display_ensures(&e, s),
            *self matches Error::BitcoinHexParse(e) ==> to_string_from_display_ensures(&e, s),
    {
        match self {
            Error::IdMismatch => "request id mismatch".to_owned(),
            Error::InvalidCookieFile => "invaild cookie file".to_owned(),
            Error::Io(e) => e.to_string(),
            Error::JsonRpc(e) => e.to_string(),
            Error::Model(m) => m.clone(),
            Error::SerdeJson(e) => e.to_string(),
            Error::Returned(m) => m.clone(),
            Error::BitcoinAddressParse(e) => e.to_string(),
            Error::BitcoinHexParse(e) => e.to_string(),
        }
    }
}

impl vstd::std_specs::convert::FromSpecImpl<serde_json::Error> for Error {
    open spec fn obeys_from_spec() -> bool {
        true
    }

    open spec fn from_spec(e: serde_json::Error) -> Self {
        Error::SerdeJson(e)
    }
}

impl From<serde_json::Error> for Error {
    fn from(e: serde_json::Error) -> (r: Self) {
        Error::SerdeJson(e)
    }
}

impl vstd::std_specs::convert::FromSpecImpl<jsonrpc::Error> for Error {
    open spec fn obeys_from_spec() -> bool {
        true
    }

    open spec fn from_spec(e: jsonrpc::Error) -> Self {
        Error::JsonRpc(e)
    }
}

impl From<jsonrpc::Error> for Error {
    fn from(e: jsonrpc::Error) -> (r: Self) {
        Error::JsonRpc(e)
    }
}

impl vstd::std_specs::convert::FromSpecImpl<std::io::Error> for Error {
    open spec fn obeys_from_spec() -> bool {
        true
    }

    open spec fn from_spec(e: std::io::Error) -> Self {
        Error::Io(e)
    }
}

impl From<std::io::Error> for Error {
    fn from(e: std::io::Error) -> (r: Self) {
        Error::Io(e)
    }
}

impl vstd::std_specs::convert::FromSpecImpl<bitcoin::address::ParseError> for Error {
    open spec fn obeys_from_spec() -> bool {
        true
    }

    open spec fn from_spec(e: bitcoin::address::ParseError) -> Self {
        Error::BitcoinAddressParse(e)
    }
}

impl From<bitcoin::address::ParseError> for Error {
    fn from(e: bitcoin::address::ParseError) -> (r: Self) {
        Error::BitcoinAddressParse(e)
    }
}

impl vstd::std_specs::convert::FromSpecImpl<bitcoin::hex::HexToArrayError> for Error {
    open spec fn obeys_from_spec() -> bool {
        true
    }

    open spec fn from_spec(e: bitcoin::hex::HexToArrayError) -> Self {
        Error::BitcoinHexParse(e)
    }
}

impl From<bitcoin::hex::HexToArrayError> for Error {
    fn from(e: bitcoin::hex::HexToArrayError) -> (r: Self) {
        Error::BitcoinHexParse(e)
    }
}

} // verus!

use vstd::prelude::*;

verus! {

/// Errors of the game API client.
#[derive(Debug, PartialEq, Eq)]
pub enum ApiError {
    /// The server refused a request, or answered it without what was asked for.
    InvalidRequest(String),
    /// The URL provider has no URL for the named endpoint.
    MissingUrl(String),
    /// A body could not be decrypted.
    AesMsgpack(String),
    /// The request could not be sent or its answer could not be read.
    Request(String),
    /// A decrypted body is not the MessagePack encoding of the expected value.
    MsgpackDecode(String),
    /// A value could not be encoded as MessagePack.
    MsgpackEncode(String),
    /// A value cannot stand in an HTTP header.
    InvalidHeaderValue(String),
}

} // verus!

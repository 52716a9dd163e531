use vstd::prelude::*;

verus! {

/// A failure of the HTTP exchange.
#[verifier::external_type_specification]
#[verifier::external_body]
pub struct ExHttpError(hyper::Error);

/// Why a remote call failed.
#[derive(Debug)]
pub enum RpcError {
    /// The HTTP exchange could not be completed (connection, name lookup, I/O).
    Transport(hyper::Error),
    /// The server answered with a status other than 200; the code it sent.
    Status(u16),
    /// The reply body is not a response object.
    Decode(serde_json::Error),
    /// The request could not be written as JSON.
    Encode(serde_json::Error),
}

} // verus!

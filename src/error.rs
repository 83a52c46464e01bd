use vstd::prelude::*;

verus! {

/// Every way a call into the service can fail.
#[derive(Debug)]
pub enum Error {
    /// Connection, DNS, TLS or timeout failure of the transport, with the
    /// transport's own description of it.
    Http(String),
    /// A request payload could not be encoded or a response could not be
    /// decoded, with the codec's description of why.
    Json(String),
    /// The service reported a failure, either in the transport status line or
    /// in the status code of the response envelope.
    Api { status_code: u16, message: String },
    /// The signing key cannot be used.
    Auth(String),
    /// The settings cannot be used.
    Config(String),
    /// An inbound signature did not match.
    SignatureVerification(String),
    /// A caller-supplied value failed local validation.
    InvalidParameter(String),
    /// Any other local failure, such as reading a file to encode.
    Other(String),
}

pub type Result<T> = core::result::Result<T, Error>;

} // verus!

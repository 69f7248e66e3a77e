//! The error type shared by every builder and by the issuance client: a kind
//! naming the step that failed, an optional message, and the underlying
//! OpenSSL cause when one exists.

use vstd::prelude::*;

verus! {

/// Which operation failed.
#[derive(Clone, Copy, Debug, PartialEq, Eq, Structural)]
pub enum ErrorKind {
    /// A distinguished-name attribute value could not be encoded.
    Encoding,
    /// Asymmetric key generation failed.
    KeyGeneration,
    /// A SAN, BasicConstraints, KeyUsage or key-identifier extension could
    /// not be constructed.
    ExtensionBuild,
    /// A digest or signature operation failed.
    Signing,
    /// A request to the remote issuance service failed.
    Request,
}

/// An error raised by this library. The OpenSSL cause is preserved when the
/// failure came from a cryptographic or encoding operation; a request error
/// may carry the remote service's own message as its detail.
#[derive(Debug)]
pub struct Error {
    pub kind: ErrorKind,
    pub msg: Option<String>,
    pub detail: Option<String>,
    pub cause: Option<openssl::error::ErrorStack>,
}

impl Error {
    /// The kind of this error.
    pub fn kind(&self) -> (k: ErrorKind)
        ensures
            k == self.kind,
    {
        self.kind
    }

    /// A distinguished-name attribute value could not be encoded; the
    /// underlying OpenSSL cause is carried unchanged.
    pub fn encoding(cause: openssl::error::ErrorStack) -> (e: Error)
        ensures
            e.kind == ErrorKind::Encoding,
            e.cause == Some(cause),
            e.msg is None,
            e.detail is None,
    {
        Error { kind: ErrorKind::Encoding, msg: None, detail: None, cause: Some(cause) }
    }

    /// A value was refused before any encoding was attempted (an attribute
    /// over the size the name machinery accepts); there is no OpenSSL cause,
    /// the message says what was refused.
    pub fn encoding_msg(msg: String) -> (e: Error)
        ensures
            e.kind == ErrorKind::Encoding,
            e.msg == Some(msg),
            e.cause is None,
            e.detail is None,
    {
        Error { kind: ErrorKind::Encoding, msg: Some(msg), detail: None, cause: None }
    }

    /// Asymmetric key generation failed; the underlying OpenSSL cause is
    /// carried unchanged.
    pub fn key_generation(cause: openssl::error::ErrorStack) -> (e: Error)
        ensures
            e.kind == ErrorKind::KeyGeneration,
            e.cause == Some(cause),
            e.msg is None,
            e.detail is None,
    {
        Error { kind: ErrorKind::KeyGeneration, msg: None, detail: None, cause: Some(cause) }
    }

    /// An X.509v3 extension could not be constructed; the underlying
    /// OpenSSL cause is carried unchanged.
    pub fn extension_build(cause: openssl::error::ErrorStack) -> (e: Error)
        ensures
            e.kind == ErrorKind::ExtensionBuild,
            e.cause == Some(cause),
            e.msg is None,
            e.detail is None,
    {
        Error { kind: ErrorKind::ExtensionBuild, msg: None, detail: None, cause: Some(cause) }
    }

    /// An extension value was refused before any construction was attempted
    /// (an alternative name over the size the bindings accept); there is no
    /// OpenSSL cause, the message says what was refused.
    pub fn extension_build_msg(msg: String) -> (e: Error)
        ensures
            e.kind == ErrorKind::ExtensionBuild,
            e.msg == Some(msg),
            e.cause is None,
            e.detail is None,
    {
        Error { kind: ErrorKind::ExtensionBuild, msg: Some(msg), detail: None, cause: None }
    }

    /// A digest or signature operation failed; the underlying OpenSSL cause
    /// is carried unchanged.
    pub fn signing(cause: openssl::error::ErrorStack) -> (e: Error)
        ensures
            e.kind == ErrorKind::Signing,
            e.cause == Some(cause),
            e.msg is None,
            e.detail is None,
    {
        Error { kind: ErrorKind::Signing, msg: None, detail: None, cause: Some(cause) }
    }

    /// A request to the remote issuance service failed; the detail carries
    /// the remote service's own message when it gave one.
    pub fn request(msg: String, detail: Option<String>) -> (e: Error)
        ensures
            e.kind == ErrorKind::Request,
            e.msg == Some(msg),
            e.detail == detail,
    {
        Error { kind: ErrorKind::Request, msg: Some(msg), detail, cause: None }
    }
}

} // verus!

//! Failure taxonomy shared by every component.

use vstd::prelude::*;

verus! {

/// What went wrong while decoding one SBE frame.
#[derive(Debug, Clone, Copy, PartialEq, Eq, Structural)]
pub enum DecodeErrorKind {
    /// The frame ended before a fixed-width field or group could be read.
    ShortFrame,
    /// A repeating-group header declared a block length the schema forbids.
    BadGroup,
    /// The variable-length symbol was not valid UTF-8.
    BadUtf8,
    /// The header carried a template id outside the schema.
    Unknown,
}

/// A decode failure, with how many bytes the decoder needed at the point of
/// failure and how many were available there.
#[derive(Debug, Clone, Copy, PartialEq, Eq, Structural)]
pub struct DecodeError {
    pub kind: DecodeErrorKind,
    pub needed: usize,
    pub have: usize,
}

/// Unified error type of the library.
#[derive(Debug, Clone)]
pub enum Error {
    Config(String),
    Auth(String),
    WebSocket(String),
    Connection(String),
    Serialization(String),
    Http(String),
    Tls(String),
    Io(String),
    UrlParse(String),
    MarketNotFound(String),
    Subscription(String),
    SbeDecode(DecodeError),
    Database(String),
    Other(String),
}

impl Error {
    /// The name of the failure class, for log lines.
    pub fn kind_name(&self) -> (r: &'static str)
        ensures
            self is Config ==> r@ == "configuration"@,
            self is Auth ==> r@ == "authentication"@,
            self is WebSocket ==> r@ == "websocket"@,
            self is Connection ==> r@ == "connection"@,
            self is Serialization ==> r@ == "serialization"@,
            self is Http ==> r@ == "http"@,
            self is Tls ==> r@ == "tls"@,
            self is Io ==> r@ == "io"@,
            self is UrlParse ==> r@ == "url"@,
            self is MarketNotFound ==> r@ == "market not found"@,
            self is Subscription ==> r@ == "subscription"@,
            self is SbeDecode ==> r@ == "decode"@,
            self is Database ==> r@ == "database"@,
            self is Other ==> r@ == "other"@,
    {
        match self {
            Error::Config(_) => "configuration",
            Error::Auth(_) => "authentication",
            Error::WebSocket(_) => "websocket",
            Error::Connection(_) => "connection",
            Error::Serialization(_) => "serialization",
            Error::Http(_) => "http",
            Error::Tls(_) => "tls",
            Error::Io(_) => "io",
            Error::UrlParse(_) => "url",
            Error::MarketNotFound(_) => "market not found",
            Error::Subscription(_) => "subscription",
            Error::SbeDecode(_) => "decode",
            Error::Database(_) => "database",
            Error::Other(_) => "other",
        }
    }
}

} // verus!

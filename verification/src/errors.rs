use vstd::prelude::*;

verus! {

/// The failure a builder chain has captured. Once a transition records one of
/// these, every later transition forwards it unchanged and the terminal
/// execute step returns it without issuing a network call.
#[derive(Clone, Copy, Debug, PartialEq, Eq, Structural)]
pub enum ConstructionError {
    /// A joined path or query no longer parses as a URL.
    InvalidUrl,
    /// The request body could not be serialized to JSON.
    SerializeBody,
    /// A query transition ran without a staged parameter value.
    MissingParameter,
}

impl ConstructionError {
    /// The diagnostic text carried by this error.
    pub open spec fn spec_message(self) -> Seq<char> {
        match self {
            ConstructionError::InvalidUrl => "Failed to parse Url"@,
            ConstructionError::SerializeBody => "Unable to serialize data to JSON"@,
            ConstructionError::MissingParameter => "Expecting parameter"@,
        }
    }

    pub fn message(&self) -> (r: String)
        ensures
            r@ == self.spec_message(),
    {
        match self {
            ConstructionError::InvalidUrl => "Failed to parse Url".to_owned(),
            ConstructionError::SerializeBody => "Unable to serialize data to JSON".to_owned(),
            ConstructionError::MissingParameter => "Expecting parameter".to_owned(),
        }
    }
}

/// What a header-set transition fails with, at the call itself: a name or a
/// value that the header grammar refuses. Unlike a construction error this is
/// never deferred; the state it was raised on is consumed unchanged.
#[derive(Clone, Copy, Debug, PartialEq, Eq, Structural)]
pub enum HeaderError {
    /// The header name is not a valid HTTP header name.
    InvalidName,
    /// The header value is not a valid HTTP header value.
    InvalidValue,
}

impl HeaderError {
    /// The diagnostic text carried by this error.
    pub open spec fn spec_message(self) -> Seq<char> {
        match self {
            HeaderError::InvalidName => "Invalid header name"@,
            HeaderError::InvalidValue => "Invalid header value"@,
        }
    }

    pub fn message(&self) -> (r: String)
        ensures
            r@ == self.spec_message(),
    {
        match self {
            HeaderError::InvalidName => "Invalid header name".to_owned(),
            HeaderError::InvalidValue => "Invalid header value".to_owned(),
        }
    }
}

/// What the terminal execute step can fail with: a construction error captured
/// earlier in the chain, or a transport failure reported by the HTTP client.
#[derive(Debug)]
pub enum ApiError {
    Construction(ConstructionError),
    Transport(String),
}

impl ApiError {
    /// The diagnostic text carried by this error.
    pub open spec fn spec_message(self) -> Seq<char> {
        match self {
            ApiError::Construction(e) => e.spec_message(),
            ApiError::Transport(m) => m@,
        }
    }

    pub fn message(&self) -> (r: String)
        ensures
            r@ == self.spec_message(),
    {
        match self {
            ApiError::Construction(e) => e.message(),
            ApiError::Transport(m) => m.clone(),
        }
    }
}

} // verus!

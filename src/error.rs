use vstd::prelude::*;

verus! {

/// Failure of a request to the remote service.
#[derive(Clone, Debug, PartialEq, Eq)]
pub enum ApiError {
    /// The transport failed (no connection, timeout).
    Network(String),
    /// Logging in was refused.
    Auth(String),
    /// The response body could not be read.
    Parse(String),
    /// The service answered with a status other than success.
    Server(String),
}

impl ApiError {
    pub open spec fn detail_spec(&self) -> Seq<char> {
        match self {
            ApiError::Network(m) => m@,
            ApiError::Auth(m) => m@,
            ApiError::Parse(m) => m@,
            ApiError::Server(m) => m@,
        }
    }

    pub open spec fn heading_spec(&self) -> Seq<char> {
        match self {
            ApiError::Network(_) => "Network error: "@,
            ApiError::Auth(_) => "Authentication error: "@,
            ApiError::Parse(_) => "Parse error: "@,
            ApiError::Server(_) => "Server error: "@,
        }
    }

    /// The message the error carries.
    pub fn detail(&self) -> (r: &String)
        ensures
            r@ == self.detail_spec(),
    {
        match self {
            ApiError::Network(m) => m,
            ApiError::Auth(m) => m,
            ApiError::Parse(m) => m,
            ApiError::Server(m) => m,
        }
    }

    /// Human-readable text: the kind's heading, then the message.
    pub fn describe(&self) -> (r: String)
        ensures
            r@ == self.heading_spec() + self.detail_spec(),
    {
        let heading = match self {
            ApiError::Network(_) => "Network error: ",
            ApiError::Auth(_) => "Authentication error: ",
            ApiError::Parse(_) => "Parse error: ",
            ApiError::Server(_) => "Server error: ",
        };
        let mut text = String::from_str(heading);
        text.append(self.detail().as_str());
        text
    }
}

} // verus!

use vstd::prelude::*;
use vstd::string::*;

verus! {

/// Why a task did not produce a response text.
#[derive(Debug, Clone, Copy, PartialEq, Eq, Structural)]
pub enum ClientError {
    /// The body of an add request could not be encoded as JSON.
    SerializationError,
    /// The request could not be sent, or its response could not be read.
    RequestError,
}

impl ClientError {
    /// The text shown to a user for this error.
    pub open spec fn spec_message(self) -> Seq<char> {
        match self {
            ClientError::SerializationError => "Json request serialization error"@,
            ClientError::RequestError => "Request communication error"@,
        }
    }

    /// Returns the text shown to a user for this error.
    pub fn message(&self) -> (text: String)
        ensures
            text@ == self.spec_message(),
    {
        match self {
            ClientError::SerializationError => String::from_str("Json request serialization error"),
            ClientError::RequestError => String::from_str("Request communication error"),
        }
    }
}

} // verus!

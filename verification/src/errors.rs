use vstd::prelude::*;
use vstd::string::*;

verus! {

/// The failure taxonomy of the bridge. Handlers return a typed failure; the
/// router converts it into a response carrying only the human-readable
/// message, so no machine-readable kind crosses the wire.
#[derive(Debug)]
pub enum RpcError {
    /// The requested path does not exist or could not be resolved.
    NotFound,
    /// The envelope text violates the alphabet, or the declared size does
    /// not equal the decoded length.
    DecodeError,
    /// A read, write or copy on the filesystem failed; carries the text the
    /// host reported.
    IoError(String),
    /// No table entry matches the requested method name.
    UnknownMethod(String),
    /// A required parameter is absent or malformed.
    ArgumentError,
    /// A dialog, updater, link-opener or inspector failure; carries the text
    /// the host reported.
    ExternalServiceError(String),
}

impl RpcError {
    /// The message that crosses the wire for this failure.
    pub open spec fn message_spec(self) -> Seq<char> {
        match self {
            RpcError::NotFound => "file not found"@,
            RpcError::DecodeError => "could not decode file payload"@,
            RpcError::IoError(m) => m@,
            RpcError::UnknownMethod(m) => "Wrong RPC method, got: "@ + m@,
            RpcError::ArgumentError => "argument required"@,
            RpcError::ExternalServiceError(m) => m@,
        }
    }

    pub fn message(&self) -> (r: String)
        ensures
            r@ == self.message_spec(),
    {
        match self {
            RpcError::NotFound => String::from_str("file not found"),
            RpcError::DecodeError => String::from_str("could not decode file payload"),
            RpcError::IoError(m) => m.clone(),
            RpcError::UnknownMethod(m) => String::from_str("Wrong RPC method, got: ").concat(m.as_str()),
            RpcError::ArgumentError => String::from_str("argument required"),
            RpcError::ExternalServiceError(m) => m.clone(),
        }
    }
}

} // verus!

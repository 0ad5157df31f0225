use vstd::prelude::*;
use vstd::string::*;

verus! {

/// Why a sync failed. Each variant carries a diagnostic text.
#[derive(Debug, Clone)]
pub enum SyncError {
    /// The request got no response; worth retrying.
    Network(String),
    /// The credential was refused; never retried.
    Auth(String),
    /// The server answered 5xx; worth retrying.
    Server(String),
    /// The batch could not be encrypted.
    Encryption(String),
    /// The local store failed.
    Database(String),
    /// Anything else.
    Unknown(String),
}

/// `prefix` followed by `rest`.
pub fn prefixed(prefix: &str, rest: &str) -> (r: String)
    ensures
        r@ == prefix@ + rest@,
{
    let mut s = String::from_str(prefix);
    s.append(rest);
    s
}

impl SyncError {
    /// The diagnostic text carried by the error.
    pub open spec fn detail(&self) -> Seq<char> {
        match self {
            SyncError::Network(m) => m@,
            SyncError::Auth(m) => m@,
            SyncError::Server(m) => m@,
            SyncError::Encryption(m) => m@,
            SyncError::Database(m) => m@,
            SyncError::Unknown(m) => m@,
        }
    }

    /// The human-readable form: a label for the kind, then the detail.
    pub open spec fn text(&self) -> Seq<char> {
        match self {
            SyncError::Network(m) => "Network error: "@ + m@,
            SyncError::Auth(m) => "Authentication failed: "@ + m@,
            SyncError::Server(m) => "Server error: "@ + m@,
            SyncError::Encryption(m) => "Encryption error: "@ + m@,
            SyncError::Database(m) => "Database error: "@ + m@,
            SyncError::Unknown(m) => "Unknown error: "@ + m@,
        }
    }

    /// Whether another attempt may succeed where this one failed.
    pub open spec fn is_transient(&self) -> bool {
        self is Network || self is Server
    }

    pub fn to_string(&self) -> (r: String)
        ensures
            r@ == self.text(),
    {
        match self {
            SyncError::Network(m) => prefixed("Network error: ", m.as_str()),
            SyncError::Auth(m) => prefixed("Authentication failed: ", m.as_str()),
            SyncError::Server(m) => prefixed("Server error: ", m.as_str()),
            SyncError::Encryption(m) => prefixed("Encryption error: ", m.as_str()),
            SyncError::Database(m) => prefixed("Database error: ", m.as_str()),
            SyncError::Unknown(m) => prefixed("Unknown error: ", m.as_str()),
        }
    }
}

/// Outcome of one sync or one upload attempt.
pub type SyncResult = Result<(), SyncError>;

} // verus!

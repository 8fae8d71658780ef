//! The send-path error taxonomy. Every variant collapses to the same
//! treatment at the chunk boundary — wait the retry delay, retry the same
//! chunk — and none is surfaced to producers.

use vstd::prelude::*;

verus! {

/// Why one send attempt failed. The payload is the diagnostic text the
/// transport layer reported.
pub enum Error {
    /// The payload could not be encoded as JSON.
    SerdeJson(String),
    /// The URL, header, or body could not be composed into a request.
    Http(String),
    /// DNS, TCP, TLS, or HTTP-level transport failure.
    Hyper(String),
}

impl Error {
    /// The diagnostic text of this error.
    pub open spec fn spec_message(&self) -> Seq<char> {
        match self {
            Error::SerdeJson(d) => "serde_json error: "@ + d@,
            Error::Http(d) => "http error: "@ + d@,
            Error::Hyper(d) => "hyper error: "@ + d@,
        }
    }

    /// One diagnostic line naming the failed layer and its report.
    pub fn message(&self) -> (r: String)
        ensures
            r@ == self.spec_message(),
    {
        match self {
            Error::SerdeJson(d) => {
                let mut s = String::from_str("serde_json error: ");
                s.append(d.as_str());
                s
            },
            Error::Http(d) => {
                let mut s = String::from_str("http error: ");
                s.append(d.as_str());
                s
            },
            Error::Hyper(d) => {
                let mut s = String::from_str("hyper error: ");
                s.append(d.as_str());
                s
            },
        }
    }
}

} // verus!

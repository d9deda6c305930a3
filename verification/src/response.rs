//! What an endpoint hands back: a status, a body, and a line for the log
//! where the server is at fault.

use vstd::prelude::*;

verus! {

/// The status of a request that was served.
pub const OK: u16 = 200;

/// The status of a submission that is not a well-formed request.
pub const BAD_REQUEST: u16 = 400;

/// The status of a submission that the store failed to write.
pub const INTERNAL_SERVER_ERROR: u16 = 500;

/// A reply as contracts see it.
pub ghost struct ReplyView {
    pub status: u16,
    pub body: Seq<u8>,
    pub log: Option<Seq<char>>,
}

/// The reply to one request.
#[derive(Debug, PartialEq, Eq)]
pub struct Reply {
    /// The HTTP status code.
    pub status: u16,
    /// The response body.
    pub body: Vec<u8>,
    /// The diagnostic line that the server is to log, if any. Never sent.
    pub log: Option<String>,
}

impl View for Reply {
    type V = ReplyView;

    open spec fn view(&self) -> ReplyView {
        ReplyView {
            status: self.status,
            body: self.body@,
            log: match self.log {
                Some(line) => Some(line@),
                None => None,
            },
        }
    }
}

/// The reply that carries a status and nothing else.
pub open spec fn bare(status: u16) -> ReplyView {
    ReplyView { status, body: Seq::empty(), log: None }
}

impl Reply {
    /// A reply with an empty body and nothing to log.
    pub fn bare(status: u16) -> (r: Reply)
        ensures
            r@ == bare(status),
    {
        Reply { status, body: Vec::new(), log: None }
    }
}

} // verus!

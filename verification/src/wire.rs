//! The HTTP exchange with the storage zone, as plain values: the request that
//! a caller has to send, and the reply that the caller hands back.

use vstd::prelude::*;
use crate::error::StorageError;
use crate::error::StorageErrorView;
use crate::error::result_view;

verus! {

/// The three request methods of the wire protocol.
#[derive(Debug, Clone, Copy, PartialEq, Eq)]
pub enum Method {
    Put,
    Delete,
    Get,
}

/// One request header.
#[derive(Clone, PartialEq, Eq)]
pub struct Header {
    pub name: String,
    pub value: String,
}

/// A request header as a mathematical value.
pub struct HeaderView {
    pub name: Seq<char>,
    pub value: Seq<char>,
}

impl View for Header {
    type V = HeaderView;

    open spec fn view(&self) -> HeaderView {
        HeaderView { name: self.name@, value: self.value@ }
    }
}

/// The header that authorises a request that changes the zone.
pub open spec fn access_key_header(access_key: Seq<char>) -> HeaderView {
    HeaderView { name: "AccessKey"@, value: access_key }
}

/// An HTTP request, to be sent as it stands: the URL is complete, the
/// headers are all that the request carries, and it has a body only where
/// one is given.
#[derive(Clone, PartialEq, Eq)]
pub struct Request {
    pub method: Method,
    pub url: String,
    pub headers: Vec<Header>,
    pub body: Option<Vec<u8>>,
}

/// A request as a mathematical value.
pub struct RequestView {
    pub method: Method,
    pub url: Seq<char>,
    pub headers: Seq<HeaderView>,
    pub body: Option<Seq<u8>>,
}

impl View for Request {
    type V = RequestView;

    open spec fn view(&self) -> RequestView {
        RequestView {
            method: self.method,
            url: self.url@,
            headers: self.headers@.map_values(|h: Header| h@),
            body: match self.body {
                Some(bytes) => Some(bytes@),
                None => None,
            },
        }
    }
}

/// What came back for a request that was sent.
#[derive(Debug, Clone, PartialEq, Eq)]
pub enum Reply {
    /// No response arrived. Holds what the transport reported.
    NoResponse(String),
    /// A response arrived, with this status code.
    Status(u16),
}

/// A reply as a mathematical value.
pub enum ReplyView {
    NoResponse(Seq<char>),
    Status(u16),
}

impl View for Reply {
    type V = ReplyView;

    open spec fn view(&self) -> ReplyView {
        match self {
            Reply::NoResponse(cause) => ReplyView::NoResponse(cause@),
            Reply::Status(status) => ReplyView::Status(*status),
        }
    }
}

/// Whether a status code is in the 2xx class.
pub open spec fn is_success(status: u16) -> bool {
    200 <= status <= 299
}

impl ReplyView {
    /// What a reply means for the operation that waits for it: it goes on
    /// after a status of the 2xx class, and fails after anything else.
    pub open spec fn accepted(self) -> Result<(), StorageErrorView> {
        match self {
            ReplyView::NoResponse(cause) => Err(StorageErrorView::Transport(cause)),
            ReplyView::Status(status) => if is_success(status) {
                Ok(())
            } else {
                Err(StorageErrorView::Rejected(status))
            },
        }
    }
}

impl Reply {
    /// Tells whether the operation that waits for this reply goes on. It
    /// fails with a transport error where no response arrived, and with a
    /// rejection where the status is not in the 2xx class.
    pub fn accept(self) -> (r: Result<(), StorageError>)
        ensures
            result_view(r) == self@.accepted(),
    {
        match self {
            Reply::NoResponse(cause) => Err(StorageError::Transport(cause)),
            Reply::Status(status) => if 200 <= status && status <= 299 {
                Ok(())
            } else {
                Err(StorageError::Rejected(status))
            },
        }
    }
}

} // verus!

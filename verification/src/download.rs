//! What a download hands to the caller.

use vstd::prelude::*;
use crate::wire::Request;
use crate::wire::RequestView;

verus! {

/// A file as the caller receives it: its bytes, or an address from which the
/// caller's own client can fetch it.
#[derive(Debug, Clone, PartialEq, Eq)]
pub enum Download {
    /// An address to redirect to.
    Url(String),
    /// The content of the file.
    Bytes(Vec<u8>),
}

/// A download as a mathematical value.
pub enum DownloadView {
    Url(Seq<char>),
    Bytes(Seq<u8>),
}

impl View for Download {
    type V = DownloadView;

    open spec fn view(&self) -> DownloadView {
        match self {
            Download::Url(url) => DownloadView::Url(url@),
            Download::Bytes(bytes) => DownloadView::Bytes(bytes@),
        }
    }
}

/// How a download goes on: it is done without any request, or a request has
/// to be sent first.
#[derive(Clone, PartialEq, Eq)]
pub enum DownloadStep {
    /// Nothing is sent; this is the download.
    Done(Download),
    /// This request is sent, and its reply and body decide the download.
    Fetch(Request),
}

/// A step of a download as a mathematical value.
pub enum DownloadStepView {
    Done(DownloadView),
    Fetch(RequestView),
}

impl View for DownloadStep {
    type V = DownloadStepView;

    open spec fn view(&self) -> DownloadStepView {
        match self {
            DownloadStep::Done(download) => DownloadStepView::Done(download@),
            DownloadStep::Fetch(request) => DownloadStepView::Fetch(request@),
        }
    }
}

} // verus!

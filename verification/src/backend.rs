//! The backend: the six storage operations, each as the request it sends and
//! the result that the reply gives.

use vstd::prelude::*;
use crate::config::BunnyStorageConfig;
use crate::config::ConfigView;
use crate::download::Download;
use crate::download::DownloadStep;
use crate::download::DownloadStepView;
use crate::download::DownloadView;
use crate::error::StorageError;
use crate::error::StorageErrorView;
use crate::error::read_view;
use crate::error::result_view;
use crate::remote_file::BunnyRemoteFile;
use crate::remote_file::RemoteFile;
use crate::remote_file::RemoteFileView;
use crate::wire::Method;
use crate::wire::Reply;
use crate::wire::ReplyView;
use crate::wire::Request;
use crate::wire::RequestView;

verus! {

/// The Bunny storage backend. It holds its configuration and nothing else:
/// no operation leaves a trace in it.
pub struct BunnyBackend {
    config: BunnyStorageConfig,
}

impl View for BunnyBackend {
    type V = ConfigView;

    closed spec fn view(&self) -> ConfigView {
        self.config@
    }
}

/// How an upload begins: with the PUT of the bytes, or, where the source
/// could not be read, with a failure and no request.
pub open spec fn upload_plan(
    config: ConfigView,
    name: Seq<char>,
    source: Result<Seq<u8>, Seq<char>>,
) -> Result<RequestView, StorageErrorView> {
    match source {
        Ok(body) => Ok(config.put_request(name, body)),
        Err(cause) => Err(StorageErrorView::BodyRead(cause)),
    }
}

/// How an upload ends: with the reference to the file, whose key is the name,
/// where the reply is accepted.
pub open spec fn upload_outcome(name: Seq<char>, reply: ReplyView) -> Result<
    RemoteFileView,
    StorageErrorView,
> {
    match reply.accepted() {
        Ok(_) => Ok(RemoteFileView::Bunny { key: name }),
        Err(error) => Err(error),
    }
}

/// How the deletion of a referenced file begins: with the DELETE of its key,
/// where the reference is this backend's own.
pub open spec fn delete_db_plan(config: ConfigView, file: RemoteFileView) -> Result<
    RequestView,
    StorageErrorView,
> {
    match file {
        RemoteFileView::Bunny { key } => Ok(config.delete_request(key)),
        _ => Err(StorageErrorView::UnknownReference),
    }
}

/// How a download begins: with the GET from the CDN where the caller wants
/// the bytes, and else with the CDN address and no request.
pub open spec fn download_plan(config: ConfigView, name: Seq<char>, prefer_stream: bool) -> DownloadStepView {
    if prefer_stream {
        DownloadStepView::Fetch(config.fetch_request(name))
    } else {
        DownloadStepView::Done(DownloadView::Url(config.cdn_url(name)))
    }
}

/// How the download of a referenced file begins, where the reference is this
/// backend's own.
pub open spec fn download_db_plan(
    config: ConfigView,
    file: RemoteFileView,
    prefer_stream: bool,
) -> Result<DownloadStepView, StorageErrorView> {
    match file {
        RemoteFileView::Bunny { key } => Ok(download_plan(config, key, prefer_stream)),
        _ => Err(StorageErrorView::UnknownReference),
    }
}

/// How a download ends once its reply was accepted: with the bytes of the
/// response body, where they could be read.
pub open spec fn download_outcome(body: Result<Seq<u8>, Seq<char>>) -> Result<
    DownloadView,
    StorageErrorView,
> {
    match body {
        Ok(bytes) => Ok(DownloadView::Bytes(bytes)),
        Err(cause) => Err(StorageErrorView::BodyRead(cause)),
    }
}

/// The reference that an upload under a name returns, and that is made for
/// a name, addresses the file of that name: the operations that take the
/// reference begin as those that take the name do.
pub proof fn law_reference_addresses_the_name(
    config: ConfigView,
    name: Seq<char>,
    reply: ReplyView,
    prefer_stream: bool,
)
    ensures
        reply.accepted() is Ok ==> upload_outcome(name, reply) == Ok::<RemoteFileView, StorageErrorView>(
            RemoteFileView::Bunny { key: name },
        ),
        delete_db_plan(config, RemoteFileView::Bunny { key: name }) == Ok::<RequestView, StorageErrorView>(
            config.delete_request(name),
        ),
        download_db_plan(config, RemoteFileView::Bunny { key: name }, prefer_stream) == Ok::<
            DownloadStepView,
            StorageErrorView,
        >(download_plan(config, name, prefer_stream)),
{
}

impl BunnyBackend {
    /// A backend for the zone that the configuration describes. This never
    /// fails.
    pub fn new(config: BunnyStorageConfig) -> (r: Result<Self, StorageError>)
        ensures
            r matches Ok(backend) && backend@ == config@,
    {
        Ok(BunnyBackend { config })
    }

    /// The configuration that the backend was made with.
    pub fn config(&self) -> (config: &BunnyStorageConfig)
        ensures
            config@ == self@,
    {
        &self.config
    }

    /// Begins an upload under `name`. `source` is what draining the byte
    /// source gave: all its bytes, or what it reported when it failed.
    pub fn upload_file(&self, name: &str, source: Result<Vec<u8>, String>) -> (r: Result<Request, StorageError>)
        ensures
            result_view(r) == upload_plan(self@, name@, read_view(source)),
    {
        match source {
            Ok(body) => {
                let url = self.config.storage_url(name);
                let headers = vec![self.config.access_key_header()];
                let request = Request { method: Method::Put, url, headers, body: Some(body) };
                assert(request@.headers =~= self@.put_request(name@, body@).headers);
                Ok(request)
            },
            Err(cause) => Err(StorageError::BodyRead(cause)),
        }
    }

    /// Ends an upload under `name` with the reply to its request.
    pub fn upload_file_reply(&self, name: String, reply: Reply) -> (r: Result<RemoteFile, StorageError>)
        ensures
            result_view(r) == upload_outcome(name@, reply@),
    {
        match reply.accept() {
            Ok(_) => Ok(RemoteFile::Bunny(BunnyRemoteFile { key: name })),
            Err(error) => Err(error),
        }
    }

    /// Begins the deletion of the file under `name`.
    pub fn delete_file(&self, name: &str) -> (request: Request)
        ensures
            request@ == self@.delete_request(name@),
    {
        let url = self.config.storage_url(name);
        let headers = vec![self.config.access_key_header()];
        let request = Request { method: Method::Delete, url, headers, body: None };
        assert(request@.headers =~= self@.delete_request(name@).headers);
        request
    }

    /// Ends a deletion with the reply to its request: the file is deleted
    /// where the reply is accepted, and the deletion has failed where it is
    /// not.
    pub fn delete_file_reply(&self, reply: Reply) -> (r: Result<(), StorageError>)
        ensures
            result_view(r) == reply@.accepted(),
    {
        reply.accept()
    }

    /// Begins the deletion of a referenced file, and fails at once where the
    /// reference belongs to another backend. The deletion ends as that of a
    /// named file does.
    pub fn delete_file_db(&self, file: &RemoteFile) -> (r: Result<Request, StorageError>)
        ensures
            result_view(r) == delete_db_plan(self@, file@),
    {
        match file {
            RemoteFile::Bunny(file) => Ok(self.delete_file(file.key.as_str())),
            _ => Err(StorageError::UnknownReference),
        }
    }

    /// Begins a download of the file under `name`. Where the caller prefers
    /// the bytes, a request is to be sent; else the download is the CDN
    /// address of the file, and nothing is sent.
    pub fn download_file(&self, name: &str, prefer_stream: bool) -> (step: DownloadStep)
        ensures
            step@ == download_plan(self@, name@, prefer_stream),
    {
        let url = self.config.cdn_url(name);
        if prefer_stream {
            let request = Request { method: Method::Get, url, headers: Vec::new(), body: None };
            assert(request@.headers =~= self@.fetch_request(name@).headers);
            DownloadStep::Fetch(request)
        } else {
            DownloadStep::Done(Download::Url(url))
        }
    }

    /// Begins the download of a referenced file, and fails at once where the
    /// reference belongs to another backend. The download goes on as that of
    /// a named file does.
    pub fn download_file_db(&self, file: &RemoteFile, prefer_stream: bool) -> (r: Result<DownloadStep, StorageError>)
        ensures
            result_view(r) == download_db_plan(self@, file@, prefer_stream),
    {
        match file {
            RemoteFile::Bunny(file) => Ok(self.download_file(file.key.as_str(), prefer_stream)),
            _ => Err(StorageError::UnknownReference),
        }
    }

    /// Goes on with a download after the reply to its request: the response
    /// body is to be read where the reply is accepted, and the download has
    /// failed where it is not.
    pub fn download_file_reply(&self, reply: Reply) -> (r: Result<(), StorageError>)
        ensures
            result_view(r) == reply@.accepted(),
    {
        reply.accept()
    }

    /// Ends a download whose reply was accepted. `body` is what reading the
    /// response body gave: all its bytes, or what the read reported when it
    /// failed.
    pub fn download_file_body(&self, body: Result<Vec<u8>, String>) -> (r: Result<Download, StorageError>)
        ensures
            result_view(r) == download_outcome(read_view(body)),
    {
        match body {
            Ok(bytes) => Ok(Download::Bytes(bytes)),
            Err(cause) => Err(StorageError::BodyRead(cause)),
        }
    }

    /// The reference under which the server keeps a file of this name. The
    /// key is the name, unchanged. This never fails.
    pub fn make_db_reference(&self, name: String) -> (r: Result<RemoteFile, StorageError>)
        ensures
            result_view(r) == Ok::<RemoteFileView, StorageErrorView>(RemoteFileView::Bunny { key: name@ }),
    {
        Ok(RemoteFile::Bunny(BunnyRemoteFile { key: name }))
    }
}

} // verus!

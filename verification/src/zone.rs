//! A model of the storage zone behind the backend, and what the operations
//! achieve against it.
//!
//! The zone is modelled as the wire protocol describes it: it keeps objects
//! by name, changes them only on authorised requests to their storage
//! address, and serves them at their CDN address. The model answers every
//! request; a transport that loses requests is outside it.

use vstd::prelude::*;
use crate::backend::delete_db_plan;
use crate::backend::download_db_plan;
use crate::backend::download_outcome;
use crate::backend::download_plan;
use crate::backend::upload_outcome;
use crate::backend::upload_plan;
use crate::config::ConfigView;
use crate::download::DownloadStepView;
use crate::download::DownloadView;
use crate::error::StorageErrorView;
use crate::remote_file::RemoteFileView;
use crate::wire::Method;
use crate::wire::ReplyView;
use crate::wire::RequestView;
use crate::wire::access_key_header;

verus! {

/// The objects that a zone holds, each under its name.
pub struct Zone {
    pub objects: Map<Seq<char>, Seq<u8>>,
}

/// What a zone answers to one request, and the zone after it.
pub struct Answer {
    pub zone: Zone,
    pub status: u16,
    pub body: Seq<u8>,
}

/// The name that an address gives to an object, where the address lies under
/// the prefix: what follows the prefix, as it is.
pub open spec fn object_named(prefix: Seq<char>, url: Seq<char>) -> Option<Seq<char>> {
    if prefix.is_prefix_of(url) {
        Some(url.skip(prefix.len() as int))
    } else {
        None
    }
}

impl ConfigView {
    /// What every storage address of the zone begins with.
    pub open spec fn storage_prefix(self) -> Seq<char> {
        self.api_endpoint + seq!['/'] + self.bucket + seq!['/']
    }

    /// What every CDN address of the zone begins with.
    pub open spec fn cdn_prefix(self) -> Seq<char> {
        self.cdn_endpoint + seq!['/']
    }

    /// Whether a request carries the access key of the zone.
    pub open spec fn authorises(self, request: RequestView) -> bool {
        request.headers.contains(access_key_header(self.access_key))
    }
}

/// The bytes that a request carries: those of its body, and none where it
/// has no body.
pub open spec fn content(request: RequestView) -> Seq<u8> {
    match request.body {
        Some(bytes) => bytes,
        None => Seq::empty(),
    }
}

/// The answer of the zone to a request.
///
/// A PUT or DELETE counts only with the access key and at a storage address:
/// the PUT then stores the body under the name, and the DELETE removes the
/// object of that name, if there is one. A GET at a CDN address is answered
/// with the object of that name, if there is one. Every other request is
/// turned down and changes nothing.
pub open spec fn serve(config: ConfigView, zone: Zone, request: RequestView) -> Answer {
    let refused = |status: u16| Answer { zone, status, body: Seq::empty() };
    match request.method {
        Method::Put => match object_named(config.storage_prefix(), request.url) {
            Some(name) if config.authorises(request) => Answer {
                zone: Zone { objects: zone.objects.insert(name, content(request)) },
                status: 201,
                body: Seq::empty(),
            },
            Some(_) => refused(401),
            None => refused(404),
        },
        Method::Delete => match object_named(config.storage_prefix(), request.url) {
            Some(name) if config.authorises(request) => if zone.objects.contains_key(name) {
                Answer {
                    zone: Zone { objects: zone.objects.remove(name) },
                    status: 200,
                    body: Seq::empty(),
                }
            } else {
                refused(404)
            },
            Some(_) => refused(401),
            None => refused(404),
        },
        Method::Get => match object_named(config.cdn_prefix(), request.url) {
            Some(name) if zone.objects.contains_key(name) => Answer {
                zone,
                status: 200,
                body: zone.objects[name],
            },
            _ => refused(404),
        },
    }
}

/// An upload against the zone: the request of the backend is served, and the
/// answer's status ends the upload.
pub open spec fn upload(
    config: ConfigView,
    zone: Zone,
    name: Seq<char>,
    source: Result<Seq<u8>, Seq<char>>,
) -> (Zone, Result<RemoteFileView, StorageErrorView>) {
    match upload_plan(config, name, source) {
        Ok(request) => {
            let answer = serve(config, zone, request);
            (answer.zone, upload_outcome(name, ReplyView::Status(answer.status)))
        },
        Err(error) => (zone, Err(error)),
    }
}

/// The deletion of a referenced file against the zone.
pub open spec fn delete_db(config: ConfigView, zone: Zone, file: RemoteFileView) -> (
    Zone,
    Result<(), StorageErrorView>,
) {
    match delete_db_plan(config, file) {
        Ok(request) => {
            let answer = serve(config, zone, request);
            (answer.zone, ReplyView::Status(answer.status).accepted())
        },
        Err(error) => (zone, Err(error)),
    }
}

/// The deletion of the file under a name against the zone.
pub open spec fn delete(config: ConfigView, zone: Zone, name: Seq<char>) -> (
    Zone,
    Result<(), StorageErrorView>,
) {
    delete_db(config, zone, RemoteFileView::Bunny { key: name })
}

/// What a step of a download leads to against the zone: where a request is
/// to be sent it is served, and the body is read where the status is
/// accepted.
pub open spec fn follow(config: ConfigView, zone: Zone, step: DownloadStepView) -> (
    Zone,
    Result<DownloadView, StorageErrorView>,
) {
    match step {
        DownloadStepView::Done(download) => (zone, Ok(download)),
        DownloadStepView::Fetch(request) => {
            let answer = serve(config, zone, request);
            match ReplyView::Status(answer.status).accepted() {
                Ok(_) => (answer.zone, download_outcome(Ok(answer.body))),
                Err(error) => (answer.zone, Err(error)),
            }
        },
    }
}

/// The download of the file under a name against the zone.
pub open spec fn download(config: ConfigView, zone: Zone, name: Seq<char>, prefer_stream: bool) -> (
    Zone,
    Result<DownloadView, StorageErrorView>,
) {
    follow(config, zone, download_plan(config, name, prefer_stream))
}

/// The download of a referenced file against the zone.
pub open spec fn download_db(
    config: ConfigView,
    zone: Zone,
    file: RemoteFileView,
    prefer_stream: bool,
) -> (Zone, Result<DownloadView, StorageErrorView>) {
    match download_db_plan(config, file, prefer_stream) {
        Ok(step) => follow(config, zone, step),
        Err(error) => (zone, Err(error)),
    }
}

/// An address under a prefix names what follows the prefix.
pub proof fn lemma_object_named(prefix: Seq<char>, name: Seq<char>)
    ensures
        object_named(prefix, prefix + name) == Some(name),
{
    let url = prefix + name;
    assert(url.subrange(0, prefix.len() as int) =~= prefix);
    assert(url.skip(prefix.len() as int) =~= name);
}

/// The storage address and the CDN address of a name both name the object
/// of that name, whatever the name holds.
pub proof fn lemma_addresses_name_the_object(config: ConfigView, name: Seq<char>)
    ensures
        object_named(config.storage_prefix(), config.storage_url(name)) == Some(name),
        object_named(config.cdn_prefix(), config.cdn_url(name)) == Some(name),
{
    lemma_object_named(config.storage_prefix(), name);
    lemma_object_named(config.cdn_prefix(), name);
    assert(config.storage_url(name) =~= config.storage_prefix() + name);
    assert(config.cdn_url(name) =~= config.cdn_prefix() + name);
}

/// Every request of the backend that changes the zone carries its access key.
pub proof fn lemma_changes_are_authorised(config: ConfigView, name: Seq<char>, body: Seq<u8>)
    ensures
        config.authorises(config.put_request(name, body)),
        config.authorises(config.delete_request(name)),
        !config.authorises(config.fetch_request(name)),
{
    let header = access_key_header(config.access_key);
    assert(config.put_request(name, body).headers[0] == header);
    assert(config.delete_request(name).headers[0] == header);
}

/// An upload of bytes that could be read succeeds, returns the reference
/// whose key is the name, and leaves the bytes in the zone under the name.
pub proof fn law_upload_stores_the_bytes(config: ConfigView, zone: Zone, name: Seq<char>, bytes: Seq<u8>)
    ensures
        upload(config, zone, name, Ok(bytes)).1 == Ok::<RemoteFileView, StorageErrorView>(
            RemoteFileView::Bunny { key: name },
        ),
        upload(config, zone, name, Ok(bytes)).0.objects == zone.objects.insert(name, bytes),
{
    lemma_addresses_name_the_object(config, name);
    lemma_changes_are_authorised(config, name, bytes);
}

/// A deletion removes the object of the name and nothing else. It succeeds
/// where the zone holds the object, and is turned down where it does not.
pub proof fn law_delete_removes_the_object(config: ConfigView, zone: Zone, name: Seq<char>)
    ensures
        delete(config, zone, name).0.objects == zone.objects.remove(name),
        delete(config, zone, name).1 == if zone.objects.contains_key(name) {
            Ok::<(), StorageErrorView>(())
        } else {
            Err::<(), StorageErrorView>(StorageErrorView::Rejected(404))
        },
{
    lemma_addresses_name_the_object(config, name);
    lemma_changes_are_authorised(config, name, Seq::empty());
    assert(zone.objects.remove(name) =~= delete(config, zone, name).0.objects);
}

/// A download that prefers the bytes changes nothing in the zone. It yields
/// the bytes that the zone holds under the name, and is turned down where
/// the zone holds none.
pub proof fn law_download_reads_the_object(config: ConfigView, zone: Zone, name: Seq<char>)
    ensures
        download(config, zone, name, true).0 == zone,
        download(config, zone, name, true).1 == if zone.objects.contains_key(name) {
            Ok::<DownloadView, StorageErrorView>(DownloadView::Bytes(zone.objects[name]))
        } else {
            Err::<DownloadView, StorageErrorView>(StorageErrorView::Rejected(404))
        },
{
    lemma_addresses_name_the_object(config, name);
}

/// A file stays where it is while files of other names are uploaded and
/// deleted: it can be read until it is deleted itself.
pub proof fn law_other_names_leave_the_object(
    config: ConfigView,
    zone: Zone,
    name: Seq<char>,
    other: Seq<char>,
    bytes: Seq<u8>,
)
    requires
        name != other,
    ensures
        ({
            let uploaded = upload(config, zone, other, Ok(bytes)).0;
            let deleted = delete(config, zone, other).0;
            &&& download(config, uploaded, name, true).1 == download(config, zone, name, true).1
            &&& download(config, deleted, name, true).1 == download(config, zone, name, true).1
        }),
{
    law_upload_stores_the_bytes(config, zone, other, bytes);
    law_delete_removes_the_object(config, zone, other);
    law_download_reads_the_object(config, zone, name);
    law_download_reads_the_object(config, upload(config, zone, other, Ok(bytes)).0, name);
    law_download_reads_the_object(config, delete(config, zone, other).0, name);
}

/// For any bytes and any name: after an upload of the bytes under the name,
/// a download of the name that prefers the bytes yields exactly these bytes.
pub proof fn law_upload_then_download(config: ConfigView, zone: Zone, name: Seq<char>, bytes: Seq<u8>)
    ensures
        ({
            let uploaded = upload(config, zone, name, Ok(bytes)).0;
            download(config, uploaded, name, true).1 == Ok::<DownloadView, StorageErrorView>(
                DownloadView::Bytes(bytes),
            )
        }),
{
    law_upload_stores_the_bytes(config, zone, name, bytes);
    lemma_addresses_name_the_object(config, name);
}

/// For any name: after an upload under the name and a deletion of the name,
/// the deletion has succeeded and a download of the name that prefers the
/// bytes fails, with the zone's refusal as its cause.
pub proof fn law_upload_delete_then_download(config: ConfigView, zone: Zone, name: Seq<char>, bytes: Seq<u8>)
    ensures
        ({
            let uploaded = upload(config, zone, name, Ok(bytes)).0;
            let deleted = delete(config, uploaded, name);
            &&& deleted.1 is Ok
            &&& download(config, deleted.0, name, true).1 matches Err(error)
            &&& error is Rejected
        }),
{
    law_upload_stores_the_bytes(config, zone, name, bytes);
    lemma_addresses_name_the_object(config, name);
    lemma_changes_are_authorised(config, name, bytes);
}

/// A download that does not prefer the bytes sends nothing: it leaves the
/// zone as it is and yields the CDN address of the name.
pub proof fn law_download_url_sends_nothing(config: ConfigView, zone: Zone, name: Seq<char>)
    ensures
        download(config, zone, name, false) == (
            zone,
            Ok::<DownloadView, StorageErrorView>(DownloadView::Url(config.cdn_url(name))),
        ),
{
}

/// A reference of another backend is turned down by both operations that
/// take a reference, before anything is sent.
pub proof fn law_other_references_are_refused(
    config: ConfigView,
    zone: Zone,
    file: RemoteFileView,
    prefer_stream: bool,
)
    requires
        !(file is Bunny),
    ensures
        delete_db_plan(config, file) == Err::<RequestView, StorageErrorView>(
            StorageErrorView::UnknownReference,
        ),
        download_db_plan(config, file, prefer_stream) == Err::<DownloadStepView, StorageErrorView>(
            StorageErrorView::UnknownReference,
        ),
        delete_db(config, zone, file) == (zone, Err::<(), StorageErrorView>(StorageErrorView::UnknownReference)),
        download_db(config, zone, file, prefer_stream) == (
            zone,
            Err::<DownloadView, StorageErrorView>(StorageErrorView::UnknownReference),
        ),
{
}

} // verus!

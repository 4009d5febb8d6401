//! The configuration of a storage zone, and the addresses that follow from it.

use vstd::prelude::*;
use vstd::string::*;
use crate::wire::Header;
use crate::wire::Method;
use crate::wire::RequestView;
use crate::wire::access_key_header;

verus! {

/// Where a storage zone is reached and what authorises changes to it. A
/// configuration never changes once it is made.
#[derive(Clone)]
pub struct BunnyStorageConfig {
    /// The name of the bucket.
    bucket: String,
    /// Storage API endpoint, without a trailing slash.
    api_endpoint: String,
    /// Pull zone connected to the storage, without a trailing slash.
    cdn_endpoint: String,
    /// Credentials of the storage zone.
    access_key: String,
}

/// A configuration as a mathematical value.
pub struct ConfigView {
    pub bucket: Seq<char>,
    pub api_endpoint: Seq<char>,
    pub cdn_endpoint: Seq<char>,
    pub access_key: Seq<char>,
}

impl ConfigView {
    /// The address at which an object is written and deleted:
    /// the API endpoint, the bucket and the name, joined by slashes. The name
    /// stands in it as it is.
    pub open spec fn storage_url(self, name: Seq<char>) -> Seq<char> {
        self.api_endpoint + seq!['/'] + self.bucket + seq!['/'] + name
    }

    /// The address at which an object is read: the CDN endpoint, a slash and
    /// the name as it is.
    pub open spec fn cdn_url(self, name: Seq<char>) -> Seq<char> {
        self.cdn_endpoint + seq!['/'] + name
    }

    /// The request that uploads a body under a name: a PUT to the storage
    /// address, with the access key and the body.
    pub open spec fn put_request(self, name: Seq<char>, body: Seq<u8>) -> RequestView {
        RequestView {
            method: Method::Put,
            url: self.storage_url(name),
            headers: seq![access_key_header(self.access_key)],
            body: Some(body),
        }
    }

    /// The request that deletes the object of a name: a DELETE to the
    /// storage address, with the access key and without a body.
    pub open spec fn delete_request(self, name: Seq<char>) -> RequestView {
        RequestView {
            method: Method::Delete,
            url: self.storage_url(name),
            headers: seq![access_key_header(self.access_key)],
            body: None,
        }
    }

    /// The request that reads the object of a name: a GET to the CDN
    /// address, without a header and without a body. The access key is not
    /// sent.
    pub open spec fn fetch_request(self, name: Seq<char>) -> RequestView {
        RequestView {
            method: Method::Get,
            url: self.cdn_url(name),
            headers: Seq::empty(),
            body: None,
        }
    }
}

impl View for BunnyStorageConfig {
    type V = ConfigView;

    closed spec fn view(&self) -> ConfigView {
        ConfigView {
            bucket: self.bucket@,
            api_endpoint: self.api_endpoint@,
            cdn_endpoint: self.cdn_endpoint@,
            access_key: self.access_key@,
        }
    }
}

impl BunnyStorageConfig {
    /// A configuration of the four values, each kept as it is given.
    pub fn new(bucket: String, api_endpoint: String, cdn_endpoint: String, access_key: String) -> (config: Self)
        ensures
            config@ == (ConfigView {
                bucket: bucket@,
                api_endpoint: api_endpoint@,
                cdn_endpoint: cdn_endpoint@,
                access_key: access_key@,
            }),
    {
        BunnyStorageConfig { bucket, api_endpoint, cdn_endpoint, access_key }
    }

    /// The name of the bucket.
    pub fn bucket(&self) -> (bucket: &str)
        ensures
            bucket@ == self@.bucket,
    {
        self.bucket.as_str()
    }

    /// The storage API endpoint.
    pub fn api_endpoint(&self) -> (endpoint: &str)
        ensures
            endpoint@ == self@.api_endpoint,
    {
        self.api_endpoint.as_str()
    }

    /// The endpoint of the pull zone.
    pub fn cdn_endpoint(&self) -> (endpoint: &str)
        ensures
            endpoint@ == self@.cdn_endpoint,
    {
        self.cdn_endpoint.as_str()
    }

    /// The access key. It is a secret: it belongs in the header of a request
    /// that changes the zone, and nowhere else.
    pub fn access_key(&self) -> (key: &str)
        ensures
            key@ == self@.access_key,
    {
        self.access_key.as_str()
    }

    /// The address at which the object of this name is written and deleted.
    pub fn storage_url(&self, name: &str) -> (url: String)
        ensures
            url@ == self@.storage_url(name@),
    {
        proof {
            reveal_strlit("/");
            assert("/"@ =~= seq!['/']);
        }
        let mut url = self.api_endpoint.clone();
        url.append("/");
        url.append(self.bucket.as_str());
        url.append("/");
        url.append(name);
        url
    }

    /// The address at which the object of this name is read.
    pub fn cdn_url(&self, name: &str) -> (url: String)
        ensures
            url@ == self@.cdn_url(name@),
    {
        proof {
            reveal_strlit("/");
            assert("/"@ =~= seq!['/']);
        }
        let mut url = self.cdn_endpoint.clone();
        url.append("/");
        url.append(name);
        url
    }

    /// The header that carries the access key.
    pub fn access_key_header(&self) -> (header: Header)
        ensures
            header@ == access_key_header(self@.access_key),
    {
        Header { name: "AccessKey".to_owned(), value: self.access_key.clone() }
    }
}

} // verus!

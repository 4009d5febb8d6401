//! References to stored files, as the server keeps them in its database.

use std::cmp::Ordering;
use vstd::prelude::*;
use vstd::std_specs::cmp::PartialEqSpecImpl;
use vstd::std_specs::cmp::PartialOrdSpecImpl;
use vstd::utf8::encode_utf8;
use vstd::utf8::encode_utf8_decode_utf8;
use crate::key_order::KeyOrder;
use crate::key_order::key_order;
use crate::key_order::law_key_order_is_total;
use crate::key_order::order_of_bytes;

verus! {

/// Reference to a file in a Bunny storage zone. The key is the name under
/// which the file was uploaded, unchanged. References are equal when their
/// keys are, and ordered as their keys are.
#[derive(Debug, Clone, Ord)]
pub struct BunnyRemoteFile {
    /// Key of the file.
    pub key: String,
}

impl View for BunnyRemoteFile {
    type V = Seq<char>;

    open spec fn view(&self) -> Seq<char> {
        self.key@
    }
}

impl PartialEq for BunnyRemoteFile {
    /// Two references are equal when their keys are.
    fn eq(&self, other: &Self) -> (r: bool) {
        self.key == other.key
    }
}

impl Eq for BunnyRemoteFile {}

impl PartialEqSpecImpl for BunnyRemoteFile {
    open spec fn obeys_eq_spec() -> bool {
        true
    }

    open spec fn eq_spec(&self, other: &Self) -> bool {
        self.key@ == other.key@
    }
}

/// How two keys stand to each other: as their UTF-8 encodings do, byte by
/// byte.
pub open spec fn order_of_keys(a: Seq<char>, b: Seq<char>) -> Ordering {
    match key_order(encode_utf8(a), encode_utf8(b)) {
        KeyOrder::Before => Ordering::Less,
        KeyOrder::Same => Ordering::Equal,
        KeyOrder::After => Ordering::Greater,
    }
}

impl PartialOrd for BunnyRemoteFile {
    /// References are ordered as their keys are.
    fn partial_cmp(&self, other: &Self) -> (r: Option<Ordering>) {
        match order_of_bytes(self.key.as_str().as_bytes(), other.key.as_str().as_bytes()) {
            KeyOrder::Before => Some(Ordering::Less),
            KeyOrder::Same => Some(Ordering::Equal),
            KeyOrder::After => Some(Ordering::Greater),
        }
    }
}

impl PartialOrdSpecImpl for BunnyRemoteFile {
    open spec fn obeys_partial_cmp_spec() -> bool {
        true
    }

    open spec fn partial_cmp_spec(&self, other: &Self) -> Option<Ordering> {
        Some(order_of_keys(self.key@, other.key@))
    }
}

/// The order agrees with equality: two keys are ranked equal exactly when
/// they are the same key, and one is ranked less than the other exactly when
/// the other is ranked greater than it.
pub proof fn law_order_agrees_with_equality(a: Seq<char>, b: Seq<char>)
    ensures
        order_of_keys(a, b) == Ordering::Equal <==> a == b,
        order_of_keys(a, b) == Ordering::Less <==> order_of_keys(b, a) == Ordering::Greater,
{
    encode_utf8_decode_utf8(a);
    encode_utf8_decode_utf8(b);
    law_key_order_is_total(encode_utf8(a), encode_utf8(b));
    law_key_order_is_total(encode_utf8(b), encode_utf8(a));
}

/// A reference to a stored file, tagged with the backend that holds it.
#[derive(Debug, Clone, PartialEq, Eq)]
pub enum RemoteFile {
    /// A file in a Bunny storage zone.
    Bunny(BunnyRemoteFile),
    /// A file that another backend holds, with what that backend needs to
    /// find it again.
    Other { backend: String, reference: String },
}

/// A tagged reference as a mathematical value.
pub enum RemoteFileView {
    Bunny { key: Seq<char> },
    Other { backend: Seq<char>, reference: Seq<char> },
}

impl View for RemoteFile {
    type V = RemoteFileView;

    open spec fn view(&self) -> RemoteFileView {
        match self {
            RemoteFile::Bunny(file) => RemoteFileView::Bunny { key: file@ },
            RemoteFile::Other { backend, reference } => RemoteFileView::Other {
                backend: backend@,
                reference: reference@,
            },
        }
    }
}

} // verus!

//! What the server answers when it has carried out a request.

use crate::cbor::{encodable, Cbor};
use crate::crypto::{KeyType, PublicKey, Signature};
use crate::rpc::wire::{
    bytes_of, handle_of, into_bytes, into_handle, items_of, public_key_from_cbor,
    public_key_item_of, public_key_to_cbor, signature_from_cbor, signature_item_of,
    signature_to_cbor, Malformed,
};
use vstd::prelude::*;

verus! {

/// The payload of a successful response.
#[derive(Debug)]
pub enum Reply {
    /// `Initialize` was carried out.
    Done,
    /// A key was imported: its public key and its handle.
    Imported(PublicKey, usize),
    /// A key was encrypted and imported: the ciphertext, the public key and
    /// the handle.
    Stored(Vec<u8>, PublicKey, usize),
    /// A key was generated and encrypted: the ciphertext and the public key.
    Generated(Vec<u8>, PublicKey),
    /// A message was signed.
    Signed(Signature),
    /// A public key was looked up or derived.
    Public(PublicKey),
}

/// A reply as a mathematical value.
pub ghost enum ReplyModel {
    Done,
    Imported((KeyType, Seq<u8>), usize),
    Stored(Seq<u8>, (KeyType, Seq<u8>), usize),
    Generated(Seq<u8>, (KeyType, Seq<u8>)),
    Signed((KeyType, Seq<u8>)),
    Public((KeyType, Seq<u8>)),
}

/// The shape of a reply. A client knows it from the request it sent.
#[derive(Clone, Copy, Debug, PartialEq, Eq, Structural)]
pub enum ReplyKind {
    Done,
    Imported,
    Stored,
    Generated,
    Signed,
    Public,
}

impl View for Reply {
    type V = ReplyModel;

    open spec fn view(&self) -> ReplyModel {
        match *self {
            Reply::Done => ReplyModel::Done,
            Reply::Imported(public, handle) => ReplyModel::Imported(public@, handle),
            Reply::Stored(encrypted, public, handle) => ReplyModel::Stored(
                encrypted@,
                public@,
                handle,
            ),
            Reply::Generated(encrypted, public) => ReplyModel::Generated(encrypted@, public@),
            Reply::Signed(sig) => ReplyModel::Signed(sig@),
            Reply::Public(public) => ReplyModel::Public(public@),
        }
    }
}

/// The shape of a reply.
pub open spec fn kind_of(reply: ReplyModel) -> ReplyKind {
    match reply {
        ReplyModel::Done => ReplyKind::Done,
        ReplyModel::Imported(..) => ReplyKind::Imported,
        ReplyModel::Stored(..) => ReplyKind::Stored,
        ReplyModel::Generated(..) => ReplyKind::Generated,
        ReplyModel::Signed(..) => ReplyKind::Signed,
        ReplyModel::Public(..) => ReplyKind::Public,
    }
}

/// The reply of shape `kind` that an item stands for: null for `Done`, an
/// array for the tuples, a key or signature alone for the other two. Bytes
/// that are no key or signature of their algorithm are refused.
pub open spec fn reply_of(item: Cbor, kind: ReplyKind) -> Result<ReplyModel, Malformed> {
    match kind {
        ReplyKind::Done => match item {
            Cbor::Null => Ok(ReplyModel::Done),
            _ => Err(Malformed::BadPayload),
        },
        ReplyKind::Imported => match items_of(item) {
            Some(items) => if items.len() == 2 {
                match (public_key_item_of(items[0]), handle_of(items[1])) {
                    (Ok(public), Some(handle)) => Ok(ReplyModel::Imported(public, handle)),
                    _ => Err(Malformed::BadPayload),
                }
            } else {
                Err(Malformed::BadPayload)
            },
            None => Err(Malformed::BadPayload),
        },
        ReplyKind::Stored => match items_of(item) {
            Some(items) => if items.len() == 3 {
                match (bytes_of(items[0]), public_key_item_of(items[1]), handle_of(items[2])) {
                    (Some(encrypted), Ok(public), Some(handle)) => Ok(
                        ReplyModel::Stored(encrypted, public, handle),
                    ),
                    _ => Err(Malformed::BadPayload),
                }
            } else {
                Err(Malformed::BadPayload)
            },
            None => Err(Malformed::BadPayload),
        },
        ReplyKind::Generated => match items_of(item) {
            Some(items) => if items.len() == 2 {
                match (bytes_of(items[0]), public_key_item_of(items[1])) {
                    (Some(encrypted), Ok(public)) => Ok(ReplyModel::Generated(encrypted, public)),
                    _ => Err(Malformed::BadPayload),
                }
            } else {
                Err(Malformed::BadPayload)
            },
            None => Err(Malformed::BadPayload),
        },
        ReplyKind::Signed => match signature_item_of(item) {
            Ok(sig) => Ok(ReplyModel::Signed(sig)),
            Err(_) => Err(Malformed::BadPayload),
        },
        ReplyKind::Public => match public_key_item_of(item) {
            Ok(public) => Ok(ReplyModel::Public(public)),
            Err(_) => Err(Malformed::BadPayload),
        },
    }
}

/// Takes the items out of an array.
pub fn into_items(item: Cbor) -> (r: Option<Vec<Cbor>>)
    ensures
        match r {
            Some(items) => items_of(item) == Some(items@),
            None => items_of(item) is None,
        },
{
    match item {
        Cbor::Array(items) => Some(items),
        _ => None,
    }
}

/// Reads a public key from its item.
fn into_public(item: Cbor) -> (r: Option<PublicKey>)
    ensures
        match r {
            Some(public) => public_key_item_of(item) == Ok::<(KeyType, Seq<u8>), Malformed>(
                public@,
            ),
            None => public_key_item_of(item) is Err,
        },
{
    match public_key_from_cbor(item) {
        Ok(public) => Some(public),
        Err(_) => None,
    }
}

impl Reply {
    /// The shape of the reply.
    pub fn kind(&self) -> (kind: ReplyKind)
        ensures
            kind == kind_of(self@),
    {
        match self {
            Reply::Done => ReplyKind::Done,
            Reply::Imported(..) => ReplyKind::Imported,
            Reply::Stored(..) => ReplyKind::Stored,
            Reply::Generated(..) => ReplyKind::Generated,
            Reply::Signed(..) => ReplyKind::Signed,
            Reply::Public(..) => ReplyKind::Public,
        }
    }

    /// Reads a reply of the given shape from an item.
    pub fn from_cbor(item: Cbor, kind: ReplyKind) -> (r: Result<Reply, Malformed>)
        ensures
            match r {
                Ok(reply) => reply_of(item, kind) == Ok::<ReplyModel, Malformed>(reply@),
                Err(e) => reply_of(item, kind) == Err::<ReplyModel, Malformed>(e),
            },
    {
        match kind {
            ReplyKind::Done => match item {
                Cbor::Null => Ok(Reply::Done),
                _ => Err(Malformed::BadPayload),
            },
            ReplyKind::Imported => {
                let mut items = match into_items(item) {
                    Some(items) => items,
                    None => return Err(Malformed::BadPayload),
                };
                if items.len() != 2 {
                    return Err(Malformed::BadPayload);
                }
                let last = items.pop();
                let head = items.pop();
                match (head, last) {
                    (Some(p), Some(h)) => match (into_public(p), into_handle(h)) {
                        (Some(public), Some(handle)) => Ok(Reply::Imported(public, handle)),
                        _ => Err(Malformed::BadPayload),
                    },
                    _ => Err(Malformed::BadPayload),
                }
            },
            ReplyKind::Stored => {
                let mut items = match into_items(item) {
                    Some(items) => items,
                    None => return Err(Malformed::BadPayload),
                };
                if items.len() != 3 {
                    return Err(Malformed::BadPayload);
                }
                let last = items.pop();
                let middle = items.pop();
                let head = items.pop();
                match (head, middle, last) {
                    (Some(c), Some(p), Some(h)) => match (
                        into_bytes(c),
                        into_public(p),
                        into_handle(h),
                    ) {
                        (Some(encrypted), Some(public), Some(handle)) => Ok(
                            Reply::Stored(encrypted, public, handle),
                        ),
                        _ => Err(Malformed::BadPayload),
                    },
                    _ => Err(Malformed::BadPayload),
                }
            },
            ReplyKind::Generated => {
                let mut items = match into_items(item) {
                    Some(items) => items,
                    None => return Err(Malformed::BadPayload),
                };
                if items.len() != 2 {
                    return Err(Malformed::BadPayload);
                }
                let last = items.pop();
                let head = items.pop();
                match (head, last) {
                    (Some(c), Some(p)) => match (into_bytes(c), into_public(p)) {
                        (Some(encrypted), Some(public)) => Ok(Reply::Generated(encrypted, public)),
                        _ => Err(Malformed::BadPayload),
                    },
                    _ => Err(Malformed::BadPayload),
                }
            },
            ReplyKind::Signed => match signature_from_cbor(item) {
                Ok(sig) => Ok(Reply::Signed(sig)),
                Err(_) => Err(Malformed::BadPayload),
            },
            ReplyKind::Public => match public_key_from_cbor(item) {
                Ok(public) => Ok(Reply::Public(public)),
                Err(_) => Err(Malformed::BadPayload),
            },
        }
    }

    /// Writes the reply as an item. Reading the item as a reply of the same
    /// shape gives the reply back.
    pub fn to_cbor(self) -> (item: Cbor)
        ensures
            reply_of(item, kind_of(self@)) == Ok::<ReplyModel, Malformed>(self@),
            encodable(item),
    {
        match self {
            Reply::Done => Cbor::Null,
            Reply::Imported(public, handle) => {
                let mut items: Vec<Cbor> = Vec::new();
                items.push(public_key_to_cbor(&public));
                items.push(Cbor::Integer(handle as i128));
                assert forall|k: int| 0 <= k < items@.len() implies encodable(
                    #[trigger] items@[k],
                ) by {
                    assert(k == 0 || k == 1);
                }
                Cbor::Array(items)
            },
            Reply::Stored(encrypted, public, handle) => {
                let mut items: Vec<Cbor> = Vec::new();
                items.push(Cbor::Bytes(encrypted));
                items.push(public_key_to_cbor(&public));
                items.push(Cbor::Integer(handle as i128));
                assert forall|k: int| 0 <= k < items@.len() implies encodable(
                    #[trigger] items@[k],
                ) by {
                    assert(k == 0 || k == 1 || k == 2);
                }
                Cbor::Array(items)
            },
            Reply::Generated(encrypted, public) => {
                let mut items: Vec<Cbor> = Vec::new();
                items.push(Cbor::Bytes(encrypted));
                items.push(public_key_to_cbor(&public));
                assert forall|k: int| 0 <= k < items@.len() implies encodable(
                    #[trigger] items@[k],
                ) by {
                    assert(k == 0 || k == 1);
                }
                Cbor::Array(items)
            },
            Reply::Signed(sig) => signature_to_cbor(&sig),
            Reply::Public(public) => public_key_to_cbor(&public),
        }
    }
}

} // verus!

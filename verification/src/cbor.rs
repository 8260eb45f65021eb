//! CBOR items as plain values. Reading and writing the byte encoding is done
//! by the `ciborium` crate; the protocol's own shapes are built from, and
//! recognised in, the items of this module.

use ciborium::value::Integer;
use ciborium::Value;
use vstd::prelude::*;

verus! {

#[verifier::external_type_specification]
#[verifier::external_body]
pub struct ExValue(Value);

/// One CBOR data item.
#[derive(Debug)]
pub enum Cbor {
    /// An integer, positive or negative.
    Integer(i128),
    /// A byte string.
    Bytes(Vec<u8>),
    /// A text string.
    Text(String),
    /// A boolean.
    Boolean(bool),
    /// The null item.
    Null,
    /// A tagged item.
    Tagged(u64, Box<Cbor>),
    /// An array of items.
    Array(Vec<Cbor>),
    /// A map, as its entries in the order they are written.
    Dict(Vec<(Cbor, Cbor)>),
    /// An item this library has no use for, such as a floating-point number.
    Other,
}

/// What `ciborium` reads from a byte string: the first item it holds, or the
/// text of the error.
pub uninterp spec fn cbor_parse(bytes: Seq<u8>) -> Result<Cbor, Seq<char>>;

/// What `ciborium` writes for an item: its byte encoding, or the text of
/// the error; no text where the item has no counterpart to write.
pub uninterp spec fn cbor_output(item: Cbor) -> Result<Seq<u8>, Option<Seq<char>>>;

/// Whether an item has a counterpart in CBOR: its integers lie in the range
/// that CBOR can hold, from -2^64 up to 2^64 - 1, and nothing in it is an
/// item this library has no use for.
pub open spec fn encodable(item: Cbor) -> bool
    decreases item,
{
    match item {
        Cbor::Integer(i) => -18446744073709551616 <= i <= 18446744073709551615,
        Cbor::Tagged(_, inner) => encodable(*inner),
        Cbor::Array(items) => forall|k: int|
            0 <= k < items@.len() ==> encodable(#[trigger] items@[k]),
        Cbor::Dict(entries) => forall|k: int|
            0 <= k < entries@.len() ==> encodable((#[trigger] entries@[k]).0) && encodable(
                entries@[k].1,
            ),
        Cbor::Other => false,
        _ => true,
    }
}

/// The text that stands for an item without a counterpart in CBOR.
pub open spec fn no_encoding() -> Seq<char> {
    "item has no CBOR encoding"@
}

/// What writing an item gives: its byte encoding, or the text of the error.
pub open spec fn cbor_bytes(item: Cbor) -> Result<Seq<u8>, Seq<char>> {
    match cbor_output(item) {
        Ok(bytes) => Ok(bytes),
        Err(Some(text)) => Err(text),
        Err(None) => Err(no_encoding()),
    }
}

/// The bytes or the error text that writing something gave.
pub open spec fn written(r: Result<Vec<u8>, String>) -> Result<Seq<u8>, Seq<char>> {
    match r {
        Ok(bytes) => Ok(bytes@),
        Err(text) => Err(text@),
    }
}

/// Moves a `ciborium::Value` into a [`Cbor`], variant by variant.
#[verifier::external_body]
fn from_value(value: Value) -> Cbor {
    match value {
        Value::Integer(i) => Cbor::Integer(i.into()),
        Value::Bytes(b) => Cbor::Bytes(b),
        Value::Text(t) => Cbor::Text(t),
        Value::Bool(b) => Cbor::Boolean(b),
        Value::Null => Cbor::Null,
        Value::Tag(t, v) => Cbor::Tagged(t, Box::new(from_value(*v))),
        Value::Array(a) => Cbor::Array(a.into_iter().map(from_value).collect()),
        Value::Map(m) => Cbor::Dict(
            m.into_iter().map(|(k, v)| (from_value(k), from_value(v))).collect(),
        ),
        _ => Cbor::Other,
    }
}

/// Moves a [`Cbor`] into a `ciborium::Value`, variant by variant; `None`
/// for an integer outside the CBOR range and for [`Cbor::Other`].
#[verifier::external_body]
fn to_value(item: Cbor) -> Option<Value> {
    Some(match item {
        Cbor::Integer(i) => Value::Integer(Integer::try_from(i).ok()?),
        Cbor::Bytes(b) => Value::Bytes(b),
        Cbor::Text(t) => Value::Text(t),
        Cbor::Boolean(b) => Value::Bool(b),
        Cbor::Null => Value::Null,
        Cbor::Tagged(t, v) => Value::Tag(t, Box::new(to_value(*v)?)),
        Cbor::Array(a) => Value::Array(a.into_iter().map(to_value).collect::<Option<_>>()?),
        Cbor::Dict(m) => Value::Map(m.into_iter().map(entry_to_value).collect::<Option<_>>()?),
        Cbor::Other => return None,
    })
}

/// Moves one entry of a map into a pair of `ciborium::Value`.
#[verifier::external_body]
fn entry_to_value(entry: (Cbor, Cbor)) -> Option<(Value, Value)> {
    Some((to_value(entry.0)?, to_value(entry.1)?))
}

/// `ciborium::de::from_reader` into a `ciborium::Value`: the first item of
/// `bytes`, or the text of the error. Bytes after the item are not looked at.
#[verifier::external_body]
pub(crate) fn decode(bytes: &[u8]) -> (r: Result<Cbor, String>)
    ensures
        cbor_parse(bytes@) == match r {
            Ok(item) => Ok::<Cbor, Seq<char>>(item),
            Err(e) => Err(e@),
        },
{
    match ciborium::de::from_reader::<Value, &[u8]>(bytes) {
        Ok(value) => Ok(from_value(value)),
        Err(e) => Err(e.to_string()),
    }
}

/// `ciborium::ser::into_writer` of the item as a `ciborium::Value`, into a
/// fresh buffer: the item's encoding, or the text of the error; no text
/// where the item has no counterpart to write, which is where an integer
/// in it is outside what `ciborium::value::Integer` holds or something in it
/// is [`Cbor::Other`]. An item that has a counterpart is written: writing a
/// value into a buffer in memory has no failing path.
#[verifier::external_body]
fn write_value(item: Cbor) -> (r: Result<Vec<u8>, Option<String>>)
    ensures
        cbor_output(item) == match r {
            Ok(bytes) => Ok::<Seq<u8>, Option<Seq<char>>>(bytes@),
            Err(Some(text)) => Err(Some(text@)),
            Err(None) => Err(None),
        },
        r matches Err(None) <==> !encodable(item),
        encodable(item) ==> r is Ok,
{
    let value = to_value(item).ok_or(None)?;
    let mut bytes = Vec::new();
    match ciborium::ser::into_writer(&value, &mut bytes) {
        Ok(()) => Ok(bytes),
        Err(e) => Err(Some(e.to_string())),
    }
}

/// `ciborium::Value::deserialized`: reads a value of type `C` out of an
/// item, or gives the text of the error; no text where the item has no
/// counterpart to read from, which is where an integer in it is outside
/// what `ciborium::value::Integer` holds or something in it is
/// [`Cbor::Other`]. What `C` makes of the item is its own affair.
#[verifier::external_body]
fn read_value<C: serde::de::DeserializeOwned>(item: Cbor) -> (r: Result<C, Option<String>>)
    ensures
        r matches Err(None) <==> !encodable(item),
{
    let value = to_value(item).ok_or(None)?;
    value.deserialized::<C>().map_err(|e| Some(e.to_string()))
}

/// Writes an item as bytes. An item without a counterpart in CBOR is
/// refused with the text that says so.
pub(crate) fn encode(item: Cbor) -> (r: Result<Vec<u8>, String>)
    ensures
        cbor_bytes(item) == written(r),
        !encodable(item) ==> written(r) == Err::<Seq<u8>, Seq<char>>(no_encoding()),
        encodable(item) ==> r is Ok,
{
    match write_value(item) {
        Ok(bytes) => Ok(bytes),
        Err(Some(text)) => Err(text),
        Err(None) => Err("item has no CBOR encoding".to_owned()),
    }
}

/// Reads the credentials of a backend out of an item; the error is the text
/// that says why the item holds none. An item without a counterpart in CBOR
/// holds none and is refused with the text that says so; of any other item
/// the type of the credentials decides.
pub(crate) fn credentials_from<C: serde::de::DeserializeOwned>(item: Cbor) -> (r: Result<
    C,
    String,
>)
    ensures
        !encodable(item) ==> (r matches Err(text) && text@ == no_encoding()),
{
    match read_value::<C>(item) {
        Ok(cred) => Ok(cred),
        Err(Some(text)) => Err(text),
        Err(None) => Err("item has no CBOR encoding".to_owned()),
    }
}

} // verus!

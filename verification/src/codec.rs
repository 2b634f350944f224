//! The wire schema: which CBOR data item stands for which message.
//!
//! A message is a map with text keys. Its `type` entry tells the four kinds
//! apart; a request carries its `method` beside it. A response value has no
//! tag: its shape decides, and the shapes are tried in a fixed order, so that
//! a map with the fields of an output is an output, one with the fields of a
//! leaf is a leaf, and any other map with text keys is a mapping. Unknown
//! entries of a map are passed over. Where a field is looked up, the first
//! entry with its key counts; a map that names a key twice is no mapping.
//!
//! Bytes come in through [`decode`], which has `serde_cbor` parse the frame
//! and reads the message off the parsed item. On the way out
//! [`Message::to_item`](crate::interface::Message::to_item) gives the item
//! of a message; turning an item into bytes is `serde_cbor`'s work alone and
//! is left to the caller.

pub mod decode;
pub mod encode;
pub mod laws;
pub mod schema;

use crate::cbor::{parsed, Item};
use crate::codec::schema::message_of;
use crate::interface::{Message, MessageView};
use vstd::prelude::*;

verus! {

/// Why a frame gave no message.
#[derive(Debug, PartialEq, Eq, Clone, Copy)]
pub enum DecodeError {
    /// The bytes are not one well-formed CBOR data item.
    Malformed,
    /// The bytes are a data item, but it stands for no message.
    NotAMessage,
}

/// What one frame decodes to: the message that its data item stands for.
pub open spec fn decoded(bytes: Seq<u8>) -> Result<MessageView, DecodeError> {
    match parsed(bytes) {
        None => Err(DecodeError::Malformed),
        Some(tree) => match message_of(tree) {
            Some(message) => Ok(message),
            None => Err(DecodeError::NotAMessage),
        },
    }
}

/// Decodes one frame, a datagram or a bulk transfer, as one message. Bytes
/// that are no message give an error and nothing worse. A message that is
/// returned names no key twice in any mapping.
pub fn decode(bytes: &[u8]) -> (r: Result<Message, DecodeError>)
    ensures
        match r {
            Ok(message) => decoded(bytes@) == Ok::<MessageView, DecodeError>(message@)
                && message@.wf(),
            Err(e) => decoded(bytes@) == Err::<MessageView, DecodeError>(e),
        },
{
    match Item::parse(bytes) {
        None => Err(DecodeError::Malformed),
        Some(item) => match Message::from_item(&item) {
            Some(message) => Ok(message),
            None => Err(DecodeError::NotAMessage),
        },
    }
}

} // verus!

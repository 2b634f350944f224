//! What is particular to the USB transport: where the unit is found, and the
//! ring of read transfers that is kept in flight on its inbound endpoint.

use crate::codec::decoded;
use crate::connection::{reader_step, ReaderAction, ReaderEvent};
use vstd::prelude::*;

verus! {

/// The vendor identifier of the unit.
pub const VENDOR_ID: u16 = 0x0483;

/// The product identifier of the unit.
pub const PRODUCT_ID: u16 = 0x5740;

/// The bulk endpoint that the unit sends on.
pub const ENDPOINT_IN: u8 = 0x82;

/// The bulk endpoint that the unit receives on.
pub const ENDPOINT_OUT: u8 = 0x01;

/// The interfaces from 0 up to this number, itself left out, are freed of
/// their kernel driver before use.
pub const INTERFACE_COUNT: u8 = 3;

/// The number of read transfers that are kept in flight.
pub const POOL_DEPTH: usize = 4;

/// How long a poll for a completed transfer, or a bulk write, may take, in
/// milliseconds.
pub const TRANSFER_TIMEOUT_MS: u64 = 1000;

/// The count of the read transfers that are in flight. Submitting fills the
/// ring up to [`POOL_DEPTH`]; every completed transfer is submitted again
/// with its own buffer, so that a primed ring is full whenever it is polled.
pub struct TransferRing {
    in_flight: usize,
}

impl TransferRing {
    /// The number of transfers in flight.
    pub closed spec fn in_flight(&self) -> nat {
        self.in_flight as nat
    }

    /// The ring never holds more than [`POOL_DEPTH`] transfers.
    #[verifier::type_invariant]
    pub closed spec fn wf(&self) -> bool {
        self.in_flight <= POOL_DEPTH
    }

    /// An empty ring.
    pub fn new() -> (ring: TransferRing)
        ensures
            ring.in_flight() == 0,
    {
        TransferRing { in_flight: 0 }
    }

    /// How many transfers are to be submitted to fill the ring.
    pub fn vacancies(&self) -> (n: usize)
        ensures
            n == POOL_DEPTH - self.in_flight(),
    {
        proof {
            use_type_invariant(self);
        }
        POOL_DEPTH - self.in_flight
    }

    /// Accounts for one submitted transfer. Returns `false`, and counts
    /// nothing, if the ring is full.
    pub fn submit(&mut self) -> (accepted: bool)
        ensures
            accepted == (old(self).in_flight() < POOL_DEPTH),
            final(self).in_flight() == old(self).in_flight() + (if accepted {
                1nat
            } else {
                0nat
            }),
    {
        proof {
            use_type_invariant(&*self);
        }
        if self.in_flight < POOL_DEPTH {
            self.in_flight = self.in_flight + 1;
            true
        } else {
            false
        }
    }

    /// Accounts for one completed transfer and says what to do with its
    /// bytes. Returns `None`, and counts nothing, if no transfer was in
    /// flight. Otherwise the transfer leaves the ring and the bytes are
    /// read as a frame: a message is forwarded, anything else is dropped.
    /// Either way the buffer is to be submitted again.
    pub fn complete(&mut self, bytes: &[u8]) -> (action: Option<ReaderAction>)
        ensures
            action is Some == (old(self).in_flight() > 0),
            final(self).in_flight() == old(self).in_flight() - (if action is Some {
                1int
            } else {
                0int
            }),
            action matches Some(a) ==> match decoded(bytes@) {
                Ok(message) => a matches ReaderAction::Forward(rx) && rx@.payload == message,
                Err(e) => a == ReaderAction::Discard(e),
            },
    {
        proof {
            use_type_invariant(&*self);
        }
        if self.in_flight > 0 {
            self.in_flight = self.in_flight - 1;
            Some(reader_step(ReaderEvent::Frame(bytes)))
        } else {
            None
        }
    }
}

} // verus!

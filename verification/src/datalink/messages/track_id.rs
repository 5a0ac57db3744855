use super::message::{put, take_u16, take_u32, DatalinkMessage, MessageKey};
use crate::datalink::u64_view::{field, with_field, U64View};
use vstd::prelude::*;

verus! {

/// Binds a contact to its track id on the network. With track id 0 it asks
/// the host for one.
#[derive(Clone, Copy, Debug, PartialEq, Eq)]
pub struct TrackId {
    /// The track id on the network, or 0 in a request.
    pub track_id: u16,
    /// The contact as its observers know it.
    pub contact_id: u32,
}

impl TrackId {
    /// The message with these fields.
    pub fn new(track_id: u16, contact_id: u32) -> (message: TrackId)
        ensures
            message == (TrackId { track_id, contact_id }),
    {
        TrackId { track_id, contact_id }
    }
}

impl DatalinkMessage for TrackId {
    open spec fn kind() -> MessageKey {
        MessageKey::TrackId
    }

    open spec fn payload_bits() -> nat {
        48
    }

    open spec fn frame(&self) -> u64 {
        3u64 | (self.track_id as u64) << 4 | (self.contact_id as u64) << 20
    }

    open spec fn fields_at(word: u64, at: u64) -> TrackId {
        TrackId {
            track_id: field(word, at, 16) as u16,
            contact_id: field(word, (at + 16) as u64, 32) as u32,
        }
    }

    open spec fn fits(&self) -> bool {
        true
    }

    fn serialize(&self) -> (view: U64View) {
        let mut view = U64View::zero();
        put(&mut view, self.message_type().to_u8() as u64, 4);
        put(&mut view, self.track_id as u64, 16);
        put(&mut view, self.contact_id as u64, 32);
        proof {
            let a = self.track_id as u64;
            let b = self.contact_id as u64;
            let v = view.value;
            assert(v == 3u64 | a << 4 | b << 20)
                by (bit_vector)
                requires
                    v == {
                        let written = with_field(0, 0, 4, 3);
                        let written = with_field(written, 4, 16, a);
                        with_field(written, 20, 32, b)
                    },
                    a < 0x1_0000,
                    b < 0x1_0000_0000,
            ;
        }
        view
    }

    fn parse(view: U64View) -> (message: TrackId) {
        let mut view = view;
        let track_id = take_u16(&mut view, 16);
        let contact_id = take_u32(&mut view, 32);
        TrackId::new(track_id, contact_id)
    }

    fn message_type(&self) -> (key: MessageKey) {
        MessageKey::TrackId
    }

    proof fn lemma_round_trip(&self) {
        let a = self.track_id as u64;
        let b = self.contact_id as u64;
        let w = 3u64 | a << 4 | b << 20;
        assert(field(w, 0, 4) == 3 && field(w, 4, 16) == a && field(w, 20, 32) == b)
            by (bit_vector)
            requires
                w == 3u64 | a << 4 | b << 20,
                a < 0x1_0000,
                b < 0x1_0000_0000,
        ;
    }
}

} // verus!

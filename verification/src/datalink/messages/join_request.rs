use super::message::{put, take_u8, DatalinkMessage, MessageKey};
use crate::datalink::u64_view::{field, with_field, U64View};
use vstd::prelude::*;

verus! {

/// A newcomer asks the host for a place in a block.
#[derive(Clone, Copy, Debug, PartialEq, Eq)]
pub struct JoinRequest {
    /// Drawn by the requester, so that it knows the approval for its own.
    pub request_id: u8,
    /// The block asked for; 4 bits on the frame.
    pub block: u8,
}

impl JoinRequest {
    /// The message with these fields.
    pub fn new(request_id: u8, block: u8) -> (message: JoinRequest)
        ensures
            message == (JoinRequest { request_id, block }),
    {
        JoinRequest { request_id, block }
    }
}

impl DatalinkMessage for JoinRequest {
    open spec fn kind() -> MessageKey {
        MessageKey::JoinRequest
    }

    open spec fn payload_bits() -> nat {
        12
    }

    open spec fn frame(&self) -> u64 {
        1u64 | (self.request_id as u64) << 4 | ((self.block as u64) & 0xf) << 12
    }

    open spec fn fields_at(word: u64, at: u64) -> JoinRequest {
        JoinRequest {
            request_id: field(word, at, 8) as u8,
            block: field(word, (at + 8) as u64, 4) as u8,
        }
    }

    open spec fn fits(&self) -> bool {
        self.block < 0x10
    }

    fn serialize(&self) -> (view: U64View) {
        let mut view = U64View::zero();
        put(&mut view, self.message_type().to_u8() as u64, 4);
        put(&mut view, self.request_id as u64, 8);
        put(&mut view, self.block as u64, 4);
        proof {
            let a = self.request_id as u64;
            let b = self.block as u64;
            let v = view.value;
            assert(v == 1u64 | a << 4 | (b & 0xf) << 12)
                by (bit_vector)
                requires
                    v == {
                        let written = with_field(0, 0, 4, 1);
                        let written = with_field(written, 4, 8, a);
                        with_field(written, 12, 4, b)
                    },
                    a < 0x100,
            ;
        }
        view
    }

    fn parse(view: U64View) -> (message: JoinRequest) {
        let mut view = view;
        let request_id = take_u8(&mut view, 8);
        let block = take_u8(&mut view, 4);
        JoinRequest::new(request_id, block)
    }

    fn message_type(&self) -> (key: MessageKey) {
        MessageKey::JoinRequest
    }

    proof fn lemma_round_trip(&self) {
        let a = self.request_id as u64;
        let b = self.block as u64;
        let w = 1u64 | a << 4 | (b & 0xf) << 12;
        assert(field(w, 0, 4) == 1 && field(w, 4, 8) == a && field(w, 12, 4) == b)
            by (bit_vector)
            requires
                w == 1u64 | a << 4 | (b & 0xf) << 12,
                a < 0x100,
                b < 0x10,
        ;
    }
}

} // verus!

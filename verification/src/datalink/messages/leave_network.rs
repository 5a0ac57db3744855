use super::message::{put, take_u8, DatalinkMessage, MessageKey};
use crate::datalink::u64_view::{field, with_field, U64View};
use vstd::prelude::*;

verus! {

/// A participant gives its place back.
#[derive(Clone, Copy, Debug, PartialEq, Eq)]
pub struct LeaveNetwork {
    /// The block that the participant sent in; 4 bits on the frame.
    pub block: u8,
    /// The id that the participant had.
    pub id: u8,
}

impl LeaveNetwork {
    /// The message with these fields.
    pub fn new(block: u8, id: u8) -> (message: LeaveNetwork)
        ensures
            message == (LeaveNetwork { block, id }),
    {
        LeaveNetwork { block, id }
    }
}

impl DatalinkMessage for LeaveNetwork {
    open spec fn kind() -> MessageKey {
        MessageKey::LeaveRequest
    }

    open spec fn payload_bits() -> nat {
        12
    }

    open spec fn frame(&self) -> u64 {
        2u64 | ((self.block as u64) & 0xf) << 4 | (self.id as u64) << 8
    }

    open spec fn fields_at(word: u64, at: u64) -> LeaveNetwork {
        LeaveNetwork {
            block: field(word, at, 4) as u8,
            id: field(word, (at + 4) as u64, 8) as u8,
        }
    }

    open spec fn fits(&self) -> bool {
        self.block < 0x10
    }

    fn serialize(&self) -> (view: U64View) {
        let mut view = U64View::zero();
        put(&mut view, self.message_type().to_u8() as u64, 4);
        put(&mut view, self.block as u64, 4);
        put(&mut view, self.id as u64, 8);
        proof {
            let a = self.block as u64;
            let b = self.id as u64;
            let v = view.value;
            assert(v == 2u64 | (a & 0xf) << 4 | b << 8)
                by (bit_vector)
                requires
                    v == {
                        let written = with_field(0, 0, 4, 2);
                        let written = with_field(written, 4, 4, a);
                        with_field(written, 8, 8, b)
                    },
                    b < 0x100,
            ;
        }
        view
    }

    fn parse(view: U64View) -> (message: LeaveNetwork) {
        let mut view = view;
        let block = take_u8(&mut view, 4);
        let id = take_u8(&mut view, 8);
        LeaveNetwork::new(block, id)
    }

    fn message_type(&self) -> (key: MessageKey) {
        MessageKey::LeaveRequest
    }

    proof fn lemma_round_trip(&self) {
        let a = self.block as u64;
        let b = self.id as u64;
        let w = 2u64 | (a & 0xf) << 4 | b << 8;
        assert(field(w, 0, 4) == 2 && field(w, 4, 4) == a && field(w, 8, 8) == b)
            by (bit_vector)
            requires
                w == 2u64 | (a & 0xf) << 4 | b << 8,
                a < 0x10,
                b < 0x100,
        ;
    }
}

} // verus!

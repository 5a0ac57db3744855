use super::message::{put, take_u32, take_u8, DatalinkMessage, MessageKey};
use crate::datalink::u64_view::{field, with_field, U64View};
use vstd::prelude::*;

verus! {

/// The host's periodic statement of the network's state.
#[derive(Clone, Copy, Debug, PartialEq, Eq)]
pub struct NetInfo {
    /// The id that the host gave out last, which an approved newcomer takes.
    pub next_id: u8,
    /// Length of the cycle in ticks; 4 bits on the frame.
    pub num_blocks: u8,
    /// First block with room for one more client; 4 bits on the frame.
    pub next_free_block: u8,
    /// The host's tick at the time of sending.
    pub current_tick: u32,
    /// The join request that the host approved last, or 255 for none.
    pub join_request_approve_id: u8,
}

impl NetInfo {
    /// The message with these fields.
    pub fn new(
        next_id: u8,
        num_blocks: u8,
        next_free_block: u8,
        current_tick: u32,
        join_request_approve_id: u8,
    ) -> (message: NetInfo)
        ensures
            message == (NetInfo {
                next_id,
                num_blocks,
                next_free_block,
                current_tick,
                join_request_approve_id,
            }),
    {
        NetInfo { next_id, num_blocks, next_free_block, current_tick, join_request_approve_id }
    }
}

impl DatalinkMessage for NetInfo {
    open spec fn kind() -> MessageKey {
        MessageKey::NetInfo
    }

    open spec fn payload_bits() -> nat {
        56
    }

    open spec fn frame(&self) -> u64 {
        0u64 | (self.next_id as u64) << 4 | ((self.num_blocks as u64) & 0xf) << 12
            | ((self.next_free_block as u64) & 0xf) << 16 | (self.current_tick as u64) << 20
            | (self.join_request_approve_id as u64) << 52
    }

    open spec fn fields_at(word: u64, at: u64) -> NetInfo {
        NetInfo {
            next_id: field(word, at, 8) as u8,
            num_blocks: field(word, (at + 8) as u64, 4) as u8,
            next_free_block: field(word, (at + 12) as u64, 4) as u8,
            current_tick: field(word, (at + 16) as u64, 32) as u32,
            join_request_approve_id: field(word, (at + 48) as u64, 8) as u8,
        }
    }

    open spec fn fits(&self) -> bool {
        self.num_blocks < 0x10 && self.next_free_block < 0x10
    }

    fn serialize(&self) -> (view: U64View) {
        let mut view = U64View::zero();
        put(&mut view, self.message_type().to_u8() as u64, 4);
        put(&mut view, self.next_id as u64, 8);
        put(&mut view, self.num_blocks as u64, 4);
        put(&mut view, self.next_free_block as u64, 4);
        put(&mut view, self.current_tick as u64, 32);
        put(&mut view, self.join_request_approve_id as u64, 8);
        proof {
            let a = self.next_id as u64;
            let b = self.num_blocks as u64;
            let c = self.next_free_block as u64;
            let d = self.current_tick as u64;
            let e = self.join_request_approve_id as u64;
            let v = view.value;
            assert(v == 0u64 | a << 4 | (b & 0xf) << 12 | (c & 0xf) << 16 | d << 20 | e << 52)
                by (bit_vector)
                requires
                    v == {
                        let written = with_field(0, 0, 4, 0);
                        let written = with_field(written, 4, 8, a);
                        let written = with_field(written, 12, 4, b);
                        let written = with_field(written, 16, 4, c);
                        let written = with_field(written, 20, 32, d);
                        with_field(written, 52, 8, e)
                    },
                    a < 0x100,
                    d < 0x1_0000_0000,
                    e < 0x100,
            ;
        }
        view
    }

    fn parse(view: U64View) -> (message: NetInfo) {
        let mut view = view;
        let next_id = take_u8(&mut view, 8);
        let num_blocks = take_u8(&mut view, 4);
        let next_free_block = take_u8(&mut view, 4);
        let current_tick = take_u32(&mut view, 32);
        let join_request_approve_id = take_u8(&mut view, 8);
        NetInfo::new(next_id, num_blocks, next_free_block, current_tick, join_request_approve_id)
    }

    fn message_type(&self) -> (key: MessageKey) {
        MessageKey::NetInfo
    }

    proof fn lemma_round_trip(&self) {
        let a = self.next_id as u64;
        let b = self.num_blocks as u64;
        let c = self.next_free_block as u64;
        let d = self.current_tick as u64;
        let e = self.join_request_approve_id as u64;
        let w = 0u64 | a << 4 | (b & 0xf) << 12 | (c & 0xf) << 16 | d << 20 | e << 52;
        assert(field(w, 0, 4) == 0 && field(w, 4, 8) == a && field(w, 12, 4) == b
            && field(w, 16, 4) == c && field(w, 20, 32) == d && field(w, 52, 8) == e)
            by (bit_vector)
            requires
                w == 0u64 | a << 4 | (b & 0xf) << 12 | (c & 0xf) << 16 | d << 20 | e << 52,
                a < 0x100,
                b < 0x10,
                c < 0x10,
                d < 0x1_0000_0000,
                e < 0x100,
        ;
    }
}

} // verus!

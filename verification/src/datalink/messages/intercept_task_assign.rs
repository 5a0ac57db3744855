use super::message::{put, take_u16, take_u32, take_u8, DatalinkMessage, MessageKey};
use crate::datalink::u64_view::{field, with_field, U64View};
use vstd::prelude::*;

verus! {

/// Sends an interceptor against a target. With target and contact 0 an
/// interceptor reports for duty.
#[derive(Clone, Copy, Debug, PartialEq, Eq)]
pub struct InterceptTaskAssign {
    /// The track id of the target.
    pub target_id: u16,
    /// The target as its observers know it.
    pub contact_id: u32,
    /// The interceptor's id on the network.
    pub interceptor_id: u8,
    /// The ring around the ship to hold; 4 bits on the frame.
    pub ring: u8,
}

impl InterceptTaskAssign {
    /// The message with these fields.
    pub fn new(
        target_id: u16,
        contact_id: u32,
        interceptor_id: u8,
        ring: u8,
    ) -> (message: InterceptTaskAssign)
        ensures
            message == (InterceptTaskAssign { target_id, contact_id, interceptor_id, ring }),
    {
        InterceptTaskAssign { target_id, contact_id, interceptor_id, ring }
    }
}

impl DatalinkMessage for InterceptTaskAssign {
    open spec fn kind() -> MessageKey {
        MessageKey::InterceptTaskAssign
    }

    open spec fn payload_bits() -> nat {
        60
    }

    open spec fn frame(&self) -> u64 {
        10u64 | (self.target_id as u64) << 4 | (self.contact_id as u64) << 20
            | (self.interceptor_id as u64) << 52 | ((self.ring as u64) & 0xf) << 60
    }

    open spec fn fields_at(word: u64, at: u64) -> InterceptTaskAssign {
        InterceptTaskAssign {
            target_id: field(word, at, 16) as u16,
            contact_id: field(word, (at + 16) as u64, 32) as u32,
            interceptor_id: field(word, (at + 48) as u64, 8) as u8,
            ring: field(word, (at + 56) as u64, 4) as u8,
        }
    }

    open spec fn fits(&self) -> bool {
        self.ring < 0x10
    }

    fn serialize(&self) -> (view: U64View) {
        let mut view = U64View::zero();
        put(&mut view, self.message_type().to_u8() as u64, 4);
        put(&mut view, self.target_id as u64, 16);
        put(&mut view, self.contact_id as u64, 32);
        put(&mut view, self.interceptor_id as u64, 8);
        put(&mut view, self.ring as u64, 4);
        proof {
            let a = self.target_id as u64;
            let b = self.contact_id as u64;
            let c = self.interceptor_id as u64;
            let d = self.ring as u64;
            let v = view.value;
            assert(v == 10u64 | a << 4 | b << 20 | c << 52 | (d & 0xf) << 60)
                by (bit_vector)
                requires
                    v == {
                        let written = with_field(0, 0, 4, 10);
                        let written = with_field(written, 4, 16, a);
                        let written = with_field(written, 20, 32, b);
                        let written = with_field(written, 52, 8, c);
                        with_field(written, 60, 4, d)
                    },
                    a < 0x1_0000,
                    b < 0x1_0000_0000,
                    c < 0x100,
            ;
        }
        view
    }

    fn parse(view: U64View) -> (message: InterceptTaskAssign) {
        let mut view = view;
        let target_id = take_u16(&mut view, 16);
        let contact_id = take_u32(&mut view, 32);
        let interceptor_id = take_u8(&mut view, 8);
        let ring = take_u8(&mut view, 4);
        InterceptTaskAssign::new(target_id, contact_id, interceptor_id, ring)
    }

    fn message_type(&self) -> (key: MessageKey) {
        MessageKey::InterceptTaskAssign
    }

    proof fn lemma_round_trip(&self) {
        let a = self.target_id as u64;
        let b = self.contact_id as u64;
        let c = self.interceptor_id as u64;
        let d = self.ring as u64;
        let w = 10u64 | a << 4 | b << 20 | c << 52 | (d & 0xf) << 60;
        assert(field(w, 0, 4) == 10 && field(w, 4, 16) == a && field(w, 20, 32) == b
            && field(w, 52, 8) == c && field(w, 60, 4) == d)
            by (bit_vector)
            requires
                w == 10u64 | a << 4 | b << 20 | c << 52 | (d & 0xf) << 60,
                a < 0x1_0000,
                b < 0x1_0000_0000,
                c < 0x100,
                d < 0x10,
        ;
    }
}

} // verus!

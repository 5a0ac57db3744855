use super::message::{put, take_u32, DatalinkMessage, MessageKey};
use crate::datalink::u64_view::{field, with_field, U64View};
use vstd::prelude::*;

verus! {

/// The tick from which the sender is ready to attack.
#[derive(Clone, Copy, Debug, PartialEq, Eq)]
pub struct ReadyAttackTime {
    /// A tick of the network.
    pub time: u32,
}

impl ReadyAttackTime {
    /// The message with these fields.
    pub fn new(time: u32) -> (message: ReadyAttackTime)
        ensures
            message == (ReadyAttackTime { time }),
    {
        ReadyAttackTime { time }
    }
}

impl DatalinkMessage for ReadyAttackTime {
    open spec fn kind() -> MessageKey {
        MessageKey::ReadyAttackTime
    }

    open spec fn payload_bits() -> nat {
        32
    }

    open spec fn frame(&self) -> u64 {
        6u64 | (self.time as u64) << 4
    }

    open spec fn fields_at(word: u64, at: u64) -> ReadyAttackTime {
        ReadyAttackTime {
            time: field(word, at, 32) as u32,
        }
    }

    open spec fn fits(&self) -> bool {
        true
    }

    fn serialize(&self) -> (view: U64View) {
        let mut view = U64View::zero();
        put(&mut view, self.message_type().to_u8() as u64, 4);
        put(&mut view, self.time as u64, 32);
        proof {
            let a = self.time as u64;
            let v = view.value;
            assert(v == 6u64 | a << 4)
                by (bit_vector)
                requires
                    v == {
                        let written = with_field(0, 0, 4, 6);
                        with_field(written, 4, 32, a)
                    },
                    a < 0x1_0000_0000,
            ;
        }
        view
    }

    fn parse(view: U64View) -> (message: ReadyAttackTime) {
        let mut view = view;
        let time = take_u32(&mut view, 32);
        ReadyAttackTime::new(time)
    }

    fn message_type(&self) -> (key: MessageKey) {
        MessageKey::ReadyAttackTime
    }

    proof fn lemma_round_trip(&self) {
        let a = self.time as u64;
        let w = 6u64 | a << 4;
        assert(field(w, 0, 4) == 6 && field(w, 4, 32) == a)
            by (bit_vector)
            requires
                w == 6u64 | a << 4,
                a < 0x1_0000_0000,
        ;
    }
}

} // verus!

use super::message::{put, take_u16, DatalinkMessage, MessageKey};
use crate::datalink::u64_view::{field, with_field, U64View};
use vstd::prelude::*;

verus! {

/// Names the track to attack.
#[derive(Clone, Copy, Debug, PartialEq, Eq)]
pub struct AssignAttackTarget {
    /// The track id of the target.
    pub target_id: u16,
}

impl AssignAttackTarget {
    /// The message with these fields.
    pub fn new(target_id: u16) -> (message: AssignAttackTarget)
        ensures
            message == (AssignAttackTarget { target_id }),
    {
        AssignAttackTarget { target_id }
    }
}

impl DatalinkMessage for AssignAttackTarget {
    open spec fn kind() -> MessageKey {
        MessageKey::AssignAttackTarget
    }

    open spec fn payload_bits() -> nat {
        16
    }

    open spec fn frame(&self) -> u64 {
        8u64 | (self.target_id as u64) << 4
    }

    open spec fn fields_at(word: u64, at: u64) -> AssignAttackTarget {
        AssignAttackTarget {
            target_id: field(word, at, 16) as u16,
        }
    }

    open spec fn fits(&self) -> bool {
        true
    }

    fn serialize(&self) -> (view: U64View) {
        let mut view = U64View::zero();
        put(&mut view, self.message_type().to_u8() as u64, 4);
        put(&mut view, self.target_id as u64, 16);
        proof {
            let a = self.target_id as u64;
            let v = view.value;
            assert(v == 8u64 | a << 4)
                by (bit_vector)
                requires
                    v == {
                        let written = with_field(0, 0, 4, 8);
                        with_field(written, 4, 16, a)
                    },
                    a < 0x1_0000,
            ;
        }
        view
    }

    fn parse(view: U64View) -> (message: AssignAttackTarget) {
        let mut view = view;
        let target_id = take_u16(&mut view, 16);
        AssignAttackTarget::new(target_id)
    }

    fn message_type(&self) -> (key: MessageKey) {
        MessageKey::AssignAttackTarget
    }

    proof fn lemma_round_trip(&self) {
        let a = self.target_id as u64;
        let w = 8u64 | a << 4;
        assert(field(w, 0, 4) == 8 && field(w, 4, 16) == a)
            by (bit_vector)
            requires
                w == 8u64 | a << 4,
                a < 0x1_0000,
        ;
    }
}

} // verus!

use super::message::{put, take_u16, take_u8, DatalinkMessage, MessageKey};
use crate::datalink::fixed_point::{
    lemma_squash_16, squash, squashed, unsquash, unsquashed, FixedVector3,
};
use crate::datalink::u64_view::{field, with_field, U64View};
use vstd::prelude::*;

verus! {

/// A participant says where it is, so that others do not take it for a foe.
#[derive(Clone, Copy, Debug, PartialEq, Eq)]
pub struct IFFPosition {
    /// Scaled by `POSITION_SCALE` after adding `POSITION_OFFSET`; 16 bits a component.
    pub position: FixedVector3,
    /// The sender's id on the network.
    pub dl_id: u8,
}

impl IFFPosition {
    /// The message with these fields.
    pub fn new(position: FixedVector3, dl_id: u8) -> (message: IFFPosition)
        ensures
            message == (IFFPosition { position, dl_id }),
    {
        IFFPosition { position, dl_id }
    }
}

impl DatalinkMessage for IFFPosition {
    open spec fn kind() -> MessageKey {
        MessageKey::IFFPosition
    }

    open spec fn payload_bits() -> nat {
        56
    }

    open spec fn frame(&self) -> u64 {
        9u64 | squashed(self.position.x, 16) << 4 | squashed(self.position.y, 16) << 20
            | squashed(self.position.z, 16) << 36 | (self.dl_id as u64) << 52
    }

    open spec fn fields_at(word: u64, at: u64) -> IFFPosition {
        IFFPosition {
            position: FixedVector3 {
                x: unsquashed(field(word, at, 16), 16),
                y: unsquashed(field(word, (at + 16) as u64, 16), 16),
                z: unsquashed(field(word, (at + 32) as u64, 16), 16),
            },
            dl_id: field(word, (at + 48) as u64, 8) as u8,
        }
    }

    open spec fn fits(&self) -> bool {
        self.position.fits()
    }

    fn serialize(&self) -> (view: U64View) {
        let mut view = U64View::zero();
        put(&mut view, self.message_type().to_u8() as u64, 4);
        put(&mut view, squash(self.position.x, 16), 16);
        put(&mut view, squash(self.position.y, 16), 16);
        put(&mut view, squash(self.position.z, 16), 16);
        put(&mut view, self.dl_id as u64, 8);
        proof {
            let a = squashed(self.position.x, 16);
            let b = squashed(self.position.y, 16);
            let c = squashed(self.position.z, 16);
            let d = self.dl_id as u64;
            lemma_squash_16(self.position.x);
            lemma_squash_16(self.position.y);
            lemma_squash_16(self.position.z);
            let v = view.value;
            assert(v == 9u64 | a << 4 | b << 20 | c << 36 | d << 52)
                by (bit_vector)
                requires
                    v == {
                        let written = with_field(0, 0, 4, 9);
                        let written = with_field(written, 4, 16, a);
                        let written = with_field(written, 20, 16, b);
                        let written = with_field(written, 36, 16, c);
                        with_field(written, 52, 8, d)
                    },
                    a < 0x1_0000,
                    b < 0x1_0000,
                    c < 0x1_0000,
                    d < 0x100,
            ;
        }
        view
    }

    fn parse(view: U64View) -> (message: IFFPosition) {
        let mut view = view;
        let x = unsquash(take_u16(&mut view, 16) as u64, 16);
        let y = unsquash(take_u16(&mut view, 16) as u64, 16);
        let z = unsquash(take_u16(&mut view, 16) as u64, 16);
        let position = FixedVector3::new(x, y, z);
        let dl_id = take_u8(&mut view, 8);
        IFFPosition::new(position, dl_id)
    }

    fn message_type(&self) -> (key: MessageKey) {
        MessageKey::IFFPosition
    }

    proof fn lemma_round_trip(&self) {
        let a = squashed(self.position.x, 16);
        let b = squashed(self.position.y, 16);
        let c = squashed(self.position.z, 16);
        let d = self.dl_id as u64;
        lemma_squash_16(self.position.x);
        lemma_squash_16(self.position.y);
        lemma_squash_16(self.position.z);
        let w = 9u64 | a << 4 | b << 20 | c << 36 | d << 52;
        assert(field(w, 0, 4) == 9 && field(w, 4, 16) == a && field(w, 20, 16) == b
            && field(w, 36, 16) == c && field(w, 52, 8) == d)
            by (bit_vector)
            requires
                w == 9u64 | a << 4 | b << 20 | c << 36 | d << 52,
                a < 0x1_0000,
                b < 0x1_0000,
                c < 0x1_0000,
                d < 0x100,
        ;
    }
}

} // verus!

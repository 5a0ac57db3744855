use super::message::{put, take_u16, DatalinkMessage, MessageKey};
use crate::datalink::fixed_point::{
    lemma_squash_16, squash, squashed, unsquash, unsquashed, FixedVector3,
};
use crate::datalink::u64_view::{field, with_field, U64View};
use vstd::prelude::*;

verus! {

/// How fast a track was moving.
#[derive(Clone, Copy, Debug, PartialEq, Eq)]
pub struct TrackVelocity {
    /// The track id on the network; 12 bits on the frame.
    pub track_id: u16,
    /// Scaled by `VELOCITY_SCALE` after adding `VELOCITY_OFFSET`; 16 bits a component.
    pub velocity: FixedVector3,
}

impl TrackVelocity {
    /// The message with these fields.
    pub fn new(track_id: u16, velocity: FixedVector3) -> (message: TrackVelocity)
        ensures
            message == (TrackVelocity { track_id, velocity }),
    {
        TrackVelocity { track_id, velocity }
    }
}

impl DatalinkMessage for TrackVelocity {
    open spec fn kind() -> MessageKey {
        MessageKey::TrackVelocity
    }

    open spec fn payload_bits() -> nat {
        60
    }

    open spec fn frame(&self) -> u64 {
        5u64 | ((self.track_id as u64) & 0xfff) << 4 | squashed(self.velocity.x, 16) << 16
            | squashed(self.velocity.y, 16) << 32 | squashed(self.velocity.z, 16) << 48
    }

    open spec fn fields_at(word: u64, at: u64) -> TrackVelocity {
        TrackVelocity {
            track_id: field(word, at, 12) as u16,
            velocity: FixedVector3 {
                x: unsquashed(field(word, (at + 12) as u64, 16), 16),
                y: unsquashed(field(word, (at + 28) as u64, 16), 16),
                z: unsquashed(field(word, (at + 44) as u64, 16), 16),
            },
        }
    }

    open spec fn fits(&self) -> bool {
        self.track_id < 0x1000 && self.velocity.fits()
    }

    fn serialize(&self) -> (view: U64View) {
        let mut view = U64View::zero();
        put(&mut view, self.message_type().to_u8() as u64, 4);
        put(&mut view, self.track_id as u64, 12);
        put(&mut view, squash(self.velocity.x, 16), 16);
        put(&mut view, squash(self.velocity.y, 16), 16);
        put(&mut view, squash(self.velocity.z, 16), 16);
        proof {
            let a = self.track_id as u64;
            let b = squashed(self.velocity.x, 16);
            let c = squashed(self.velocity.y, 16);
            let d = squashed(self.velocity.z, 16);
            lemma_squash_16(self.velocity.x);
            lemma_squash_16(self.velocity.y);
            lemma_squash_16(self.velocity.z);
            let v = view.value;
            assert(v == 5u64 | (a & 0xfff) << 4 | b << 16 | c << 32 | d << 48)
                by (bit_vector)
                requires
                    v == {
                        let written = with_field(0, 0, 4, 5);
                        let written = with_field(written, 4, 12, a);
                        let written = with_field(written, 16, 16, b);
                        let written = with_field(written, 32, 16, c);
                        with_field(written, 48, 16, d)
                    },
                    b < 0x1_0000,
                    c < 0x1_0000,
                    d < 0x1_0000,
            ;
        }
        view
    }

    fn parse(view: U64View) -> (message: TrackVelocity) {
        let mut view = view;
        let track_id = take_u16(&mut view, 12);
        let x = unsquash(take_u16(&mut view, 16) as u64, 16);
        let y = unsquash(take_u16(&mut view, 16) as u64, 16);
        let z = unsquash(take_u16(&mut view, 16) as u64, 16);
        let velocity = FixedVector3::new(x, y, z);
        TrackVelocity::new(track_id, velocity)
    }

    fn message_type(&self) -> (key: MessageKey) {
        MessageKey::TrackVelocity
    }

    proof fn lemma_round_trip(&self) {
        let a = self.track_id as u64;
        let b = squashed(self.velocity.x, 16);
        let c = squashed(self.velocity.y, 16);
        let d = squashed(self.velocity.z, 16);
        lemma_squash_16(self.velocity.x);
        lemma_squash_16(self.velocity.y);
        lemma_squash_16(self.velocity.z);
        let w = 5u64 | (a & 0xfff) << 4 | b << 16 | c << 32 | d << 48;
        assert(field(w, 0, 4) == 5 && field(w, 4, 12) == a && field(w, 16, 16) == b
            && field(w, 32, 16) == c && field(w, 48, 16) == d)
            by (bit_vector)
            requires
                w == 5u64 | (a & 0xfff) << 4 | b << 16 | c << 32 | d << 48,
                a < 0x1000,
                b < 0x1_0000,
                c < 0x1_0000,
                d < 0x1_0000,
        ;
    }
}

} // verus!

use super::message::{put, take_u16, take_u32, take_u8, DatalinkMessage, MessageKey};
use crate::datalink::u64_view::{field, with_field, U64View};
use vstd::prelude::*;

verus! {

/// What kind of thing a contact is.
#[derive(Clone, Copy, Debug, PartialEq, Eq, Structural)]
pub enum ContactType {
    /// Not a contact at all; also what every unassigned code reads as.
    Invalid,
    SpaceBattleShip,
    SpaceHulk,
    Missile,
    Asteroid,
    FlakShell,
    APShell,
}

impl ContactType {
    /// The number a contact type is known by; its lowest 4 bits go on the frame.
    pub open spec fn code(self) -> i32 {
        match self {
            ContactType::SpaceBattleShip => 0,
            ContactType::SpaceHulk => 1,
            ContactType::Missile => 2,
            ContactType::Asteroid => 5,
            ContactType::FlakShell => 7,
            ContactType::APShell => 8,
            ContactType::Invalid => -1i32,
        }
    }

    /// The contact type of a number; `Invalid` for a number that has none.
    pub open spec fn of_code(code: i32) -> ContactType {
        if code == 0 {
            ContactType::SpaceBattleShip
        } else if code == 1 {
            ContactType::SpaceHulk
        } else if code == 2 {
            ContactType::Missile
        } else if code == 5 {
            ContactType::Asteroid
        } else if code == 7 {
            ContactType::FlakShell
        } else if code == 8 {
            ContactType::APShell
        } else {
            ContactType::Invalid
        }
    }

    /// Every contact type is found again from the 4 bits it is sent as.
    pub proof fn lemma_code_round_trip(self)
        ensures
            ContactType::of_code(((self.code() as u64) & 0xf) as i32) == self,
    {
        assert(((0i32 as u64) & 0xf) == 0 && ((1i32 as u64) & 0xf) == 1 && ((2i32 as u64) & 0xf)
            == 2 && ((5i32 as u64) & 0xf) == 5 && ((7i32 as u64) & 0xf) == 7 && ((8i32 as u64)
            & 0xf) == 8 && (((-1i32) as u64) & 0xf) == 15) by (bit_vector);
    }
}

/// The number a contact type is known by.
pub fn radar_to_i32(r: ContactType) -> (code: i32)
    ensures
        code == r.code(),
{
    match r {
        ContactType::SpaceBattleShip => 0,
        ContactType::SpaceHulk => 1,
        ContactType::Missile => 2,
        ContactType::Asteroid => 5,
        ContactType::FlakShell => 7,
        ContactType::APShell => 8,
        ContactType::Invalid => -1,
    }
}

/// The contact type of a number; `Invalid` for a number that has none.
pub fn i32_to_radar(r: i32) -> (contact_type: ContactType)
    ensures
        contact_type == ContactType::of_code(r),
{
    match r {
        0 => ContactType::SpaceBattleShip,
        1 => ContactType::SpaceHulk,
        2 => ContactType::Missile,
        5 => ContactType::Asteroid,
        7 => ContactType::FlakShell,
        8 => ContactType::APShell,
        _ => ContactType::Invalid,
    }
}

/// What a track is.
#[derive(Clone, Copy, Debug, PartialEq, Eq)]
pub struct TrackInfo {
    /// The track id on the network; 12 bits on the frame.
    pub track_id: u16,
    /// The contact as its observers know it.
    pub contact_id: u32,
    /// What kind of thing was seen.
    pub contact_type: ContactType,
    /// Whether the observer takes it for a friend.
    pub is_allied: bool,
}

impl TrackInfo {
    /// The message with these fields.
    pub fn new(
        track_id: u16,
        contact_id: u32,
        contact_type: ContactType,
        is_allied: bool,
    ) -> (message: TrackInfo)
        ensures
            message == (TrackInfo { track_id, contact_id, contact_type, is_allied }),
    {
        TrackInfo { track_id, contact_id, contact_type, is_allied }
    }
}

impl DatalinkMessage for TrackInfo {
    open spec fn kind() -> MessageKey {
        MessageKey::TrackInfo
    }

    open spec fn payload_bits() -> nat {
        49
    }

    open spec fn frame(&self) -> u64 {
        7u64 | ((self.track_id as u64) & 0xfff) << 4 | (self.contact_id as u64) << 16
            | ((self.contact_type.code() as u64) & 0xf) << 48
            | (if self.is_allied { 1u64 } else { 0u64 }) << 52
    }

    open spec fn fields_at(word: u64, at: u64) -> TrackInfo {
        TrackInfo {
            track_id: field(word, at, 12) as u16,
            contact_id: field(word, (at + 12) as u64, 32) as u32,
            contact_type: ContactType::of_code(field(word, (at + 44) as u64, 4) as i32),
            is_allied: field(word, (at + 48) as u64, 1) == 1,
        }
    }

    open spec fn fits(&self) -> bool {
        self.track_id < 0x1000
    }

    fn serialize(&self) -> (view: U64View) {
        let mut view = U64View::zero();
        put(&mut view, self.message_type().to_u8() as u64, 4);
        put(&mut view, self.track_id as u64, 12);
        put(&mut view, self.contact_id as u64, 32);
        put(&mut view, radar_to_i32(self.contact_type) as u64, 4);
        put(&mut view, if self.is_allied { 1 } else { 0 }, 1);
        proof {
            let a = self.track_id as u64;
            let b = self.contact_id as u64;
            let c = self.contact_type.code() as u64;
            let d = if self.is_allied { 1u64 } else { 0u64 };
            let v = view.value;
            assert(v == 7u64 | (a & 0xfff) << 4 | b << 16 | (c & 0xf) << 48 | d << 52)
                by (bit_vector)
                requires
                    v == {
                        let written = with_field(0, 0, 4, 7);
                        let written = with_field(written, 4, 12, a);
                        let written = with_field(written, 16, 32, b);
                        let written = with_field(written, 48, 4, c);
                        with_field(written, 52, 1, d)
                    },
                    b < 0x1_0000_0000,
                    d < 0x2,
            ;
        }
        view
    }

    fn parse(view: U64View) -> (message: TrackInfo) {
        let mut view = view;
        let track_id = take_u16(&mut view, 12);
        let contact_id = take_u32(&mut view, 32);
        let contact_type = i32_to_radar(take_u8(&mut view, 4) as i32);
        let is_allied = take_u8(&mut view, 1) == 1;
        TrackInfo::new(track_id, contact_id, contact_type, is_allied)
    }

    fn message_type(&self) -> (key: MessageKey) {
        MessageKey::TrackInfo
    }

    proof fn lemma_round_trip(&self) {
        let a = self.track_id as u64;
        let b = self.contact_id as u64;
        let c = self.contact_type.code() as u64;
        let d = if self.is_allied { 1u64 } else { 0u64 };
        let w = 7u64 | (a & 0xfff) << 4 | b << 16 | (c & 0xf) << 48 | d << 52;
        assert(field(w, 0, 4) == 7 && field(w, 4, 12) == a && field(w, 16, 32) == b
            && field(w, 48, 4) == c & 0xf && field(w, 52, 1) == d)
            by (bit_vector)
            requires
                w == 7u64 | (a & 0xfff) << 4 | b << 16 | (c & 0xf) << 48 | d << 52,
                a < 0x1000,
                b < 0x1_0000_0000,
                d < 0x2,
        ;
        self.contact_type.lemma_code_round_trip();
    }
}

} // verus!

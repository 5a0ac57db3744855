//! The message catalogue: the kinds, what every kind has in common, and the
//! frame as a whole.

use super::assign_attack_target::AssignAttackTarget;
use super::iff_pos::IFFPosition;
use super::intercept_task_assign::InterceptTaskAssign;
use super::join_request::JoinRequest;
use super::leave_network::LeaveNetwork;
use super::net_info::NetInfo;
use super::ready_attack_time::ReadyAttackTime;
use super::track_id::TrackId;
use super::track_info::TrackInfo;
use super::track_position::TrackPosition;
use super::track_velocity::TrackVelocity;
use crate::datalink::u64_view::{field, with_field, U64View};
use vstd::prelude::*;

verus! {

/// Width in bits of the kind that opens every frame.
pub const KEY_BITS: usize = 4;

/// The kind of a message, sent as the first four bits of its frame.
#[derive(Clone, Copy, Debug, PartialEq, Eq, Structural)]
pub enum MessageKey {
    NetInfo,
    JoinRequest,
    LeaveRequest,
    TrackId,
    TrackPosition,
    TrackVelocity,
    ReadyAttackTime,
    TrackInfo,
    AssignAttackTarget,
    IFFPosition,
    InterceptTaskAssign,
}

/// A frame opened with four bits that name no kind.
#[derive(Clone, Copy, Debug, PartialEq, Eq)]
pub struct UnknownMessageKind {
    pub key: u8,
}

impl MessageKey {
    /// The number a kind is sent as.
    pub open spec fn code(self) -> u8 {
        match self {
            MessageKey::NetInfo => 0,
            MessageKey::JoinRequest => 1,
            MessageKey::LeaveRequest => 2,
            MessageKey::TrackId => 3,
            MessageKey::TrackPosition => 4,
            MessageKey::TrackVelocity => 5,
            MessageKey::ReadyAttackTime => 6,
            MessageKey::TrackInfo => 7,
            MessageKey::AssignAttackTarget => 8,
            MessageKey::IFFPosition => 9,
            MessageKey::InterceptTaskAssign => 10,
        }
    }

    /// The kind that is sent as `code`, if there is one.
    pub open spec fn of_code(code: u8) -> Option<MessageKey> {
        if code == 0 {
            Some(MessageKey::NetInfo)
        } else if code == 1 {
            Some(MessageKey::JoinRequest)
        } else if code == 2 {
            Some(MessageKey::LeaveRequest)
        } else if code == 3 {
            Some(MessageKey::TrackId)
        } else if code == 4 {
            Some(MessageKey::TrackPosition)
        } else if code == 5 {
            Some(MessageKey::TrackVelocity)
        } else if code == 6 {
            Some(MessageKey::ReadyAttackTime)
        } else if code == 7 {
            Some(MessageKey::TrackInfo)
        } else if code == 8 {
            Some(MessageKey::AssignAttackTarget)
        } else if code == 9 {
            Some(MessageKey::IFFPosition)
        } else if code == 10 {
            Some(MessageKey::InterceptTaskAssign)
        } else {
            None
        }
    }

    /// The number the kind is sent as.
    pub fn to_u8(self) -> (code: u8)
        ensures
            code == self.code(),
    {
        match self {
            MessageKey::NetInfo => 0,
            MessageKey::JoinRequest => 1,
            MessageKey::LeaveRequest => 2,
            MessageKey::TrackId => 3,
            MessageKey::TrackPosition => 4,
            MessageKey::TrackVelocity => 5,
            MessageKey::ReadyAttackTime => 6,
            MessageKey::TrackInfo => 7,
            MessageKey::AssignAttackTarget => 8,
            MessageKey::IFFPosition => 9,
            MessageKey::InterceptTaskAssign => 10,
        }
    }

    /// The kind that is sent as `key`; an error where there is none.
    pub fn from_u8(key: u8) -> (kind: Result<MessageKey, UnknownMessageKind>)
        ensures
            match MessageKey::of_code(key) {
                Some(k) => kind == Ok::<MessageKey, UnknownMessageKind>(k),
                None => kind == Err::<MessageKey, UnknownMessageKind>(UnknownMessageKind { key }),
            },
    {
        match key {
            0 => Ok(MessageKey::NetInfo),
            1 => Ok(MessageKey::JoinRequest),
            2 => Ok(MessageKey::LeaveRequest),
            3 => Ok(MessageKey::TrackId),
            4 => Ok(MessageKey::TrackPosition),
            5 => Ok(MessageKey::TrackVelocity),
            6 => Ok(MessageKey::ReadyAttackTime),
            7 => Ok(MessageKey::TrackInfo),
            8 => Ok(MessageKey::AssignAttackTarget),
            9 => Ok(MessageKey::IFFPosition),
            10 => Ok(MessageKey::InterceptTaskAssign),
            _ => Err(UnknownMessageKind { key }),
        }
    }

    /// Every kind is found again from its code, and no code above 10 names one.
    pub proof fn lemma_code_round_trip(self)
        ensures
            MessageKey::of_code(self.code()) == Some(self),
            self.code() <= 10,
    {
    }
}

/// What the message types have in common: a fixed layout after the kind.
pub trait DatalinkMessage: Sized {
    /// The kind under which every value of the type is sent.
    spec fn kind() -> MessageKey;

    /// How many bits the fields take after the kind.
    spec fn payload_bits() -> nat;

    /// The frame of a message: kind, then the fields, unused bits zero.
    /// A field wider than its place on the frame is cut to its lowest bits.
    spec fn frame(&self) -> u64;

    /// The message whose fields start at bit `at` of `word`.
    spec fn fields_at(word: u64, at: u64) -> Self;

    /// Every field fits its place on the frame.
    spec fn fits(&self) -> bool;

    /// Writes the kind and the fields into a fresh frame.
    fn serialize(&self) -> (view: U64View)
        ensures
            view.value == self.frame(),
            view.write_index == KEY_BITS + Self::payload_bits(),
            view.read_index == 0,
    ;

    /// Reads the fields at the read cursor of `view`, which has to leave
    /// room for them.
    fn parse(view: U64View) -> (message: Self)
        requires
            view.read_index + Self::payload_bits() <= 64,
        ensures
            message == Self::fields_at(view.value, view.read_index as u64),
    ;

    /// The kind of the message.
    fn message_type(&self) -> (key: MessageKey)
        ensures
            key == Self::kind(),
    ;

    /// A message that fits is read back from its own frame unchanged.
    proof fn lemma_round_trip(&self)
        requires
            self.fits(),
        ensures
            Self::fields_at(self.frame(), 4) == *self,
            field(self.frame(), 0, 4) == Self::kind().code(),
    ;
}

/// Any message of the catalogue.
#[derive(Clone, Copy, Debug, PartialEq, Eq)]
pub enum Message {
    NetInfo(NetInfo),
    JoinRequest(JoinRequest),
    LeaveRequest(LeaveNetwork),
    TrackId(TrackId),
    TrackPosition(TrackPosition),
    TrackVelocity(TrackVelocity),
    ReadyAttackTime(ReadyAttackTime),
    TrackInfo(TrackInfo),
    AssignAttackTarget(AssignAttackTarget),
    IFFPosition(IFFPosition),
    InterceptTaskAssign(InterceptTaskAssign),
}

impl Message {
    /// The kind a message is sent under.
    pub open spec fn key(self) -> MessageKey {
        match self {
            Message::NetInfo(_) => MessageKey::NetInfo,
            Message::JoinRequest(_) => MessageKey::JoinRequest,
            Message::LeaveRequest(_) => MessageKey::LeaveRequest,
            Message::TrackId(_) => MessageKey::TrackId,
            Message::TrackPosition(_) => MessageKey::TrackPosition,
            Message::TrackVelocity(_) => MessageKey::TrackVelocity,
            Message::ReadyAttackTime(_) => MessageKey::ReadyAttackTime,
            Message::TrackInfo(_) => MessageKey::TrackInfo,
            Message::AssignAttackTarget(_) => MessageKey::AssignAttackTarget,
            Message::IFFPosition(_) => MessageKey::IFFPosition,
            Message::InterceptTaskAssign(_) => MessageKey::InterceptTaskAssign,
        }
    }

    /// The frame a message is sent as.
    pub open spec fn frame(self) -> u64 {
        match self {
            Message::NetInfo(m) => m.frame(),
            Message::JoinRequest(m) => m.frame(),
            Message::LeaveRequest(m) => m.frame(),
            Message::TrackId(m) => m.frame(),
            Message::TrackPosition(m) => m.frame(),
            Message::TrackVelocity(m) => m.frame(),
            Message::ReadyAttackTime(m) => m.frame(),
            Message::TrackInfo(m) => m.frame(),
            Message::AssignAttackTarget(m) => m.frame(),
            Message::IFFPosition(m) => m.frame(),
            Message::InterceptTaskAssign(m) => m.frame(),
        }
    }

    /// Every field fits its place on the frame.
    pub open spec fn fits(self) -> bool {
        match self {
            Message::NetInfo(m) => m.fits(),
            Message::JoinRequest(m) => m.fits(),
            Message::LeaveRequest(m) => m.fits(),
            Message::TrackId(m) => m.fits(),
            Message::TrackPosition(m) => m.fits(),
            Message::TrackVelocity(m) => m.fits(),
            Message::ReadyAttackTime(m) => m.fits(),
            Message::TrackInfo(m) => m.fits(),
            Message::AssignAttackTarget(m) => m.fits(),
            Message::IFFPosition(m) => m.fits(),
            Message::InterceptTaskAssign(m) => m.fits(),
        }
    }

    /// What a frame says: its first four bits name the kind, the fields of
    /// that kind follow from bit 4.
    pub open spec fn decode(word: u64) -> Result<Message, UnknownMessageKind> {
        match MessageKey::of_code(field(word, 0, 4) as u8) {
            Some(MessageKey::NetInfo) => Ok(Message::NetInfo(NetInfo::fields_at(word, 4))),
            Some(MessageKey::JoinRequest) => Ok(
                Message::JoinRequest(JoinRequest::fields_at(word, 4)),
            ),
            Some(MessageKey::LeaveRequest) => Ok(
                Message::LeaveRequest(LeaveNetwork::fields_at(word, 4)),
            ),
            Some(MessageKey::TrackId) => Ok(Message::TrackId(TrackId::fields_at(word, 4))),
            Some(MessageKey::TrackPosition) => Ok(
                Message::TrackPosition(TrackPosition::fields_at(word, 4)),
            ),
            Some(MessageKey::TrackVelocity) => Ok(
                Message::TrackVelocity(TrackVelocity::fields_at(word, 4)),
            ),
            Some(MessageKey::ReadyAttackTime) => Ok(
                Message::ReadyAttackTime(ReadyAttackTime::fields_at(word, 4)),
            ),
            Some(MessageKey::TrackInfo) => Ok(Message::TrackInfo(TrackInfo::fields_at(word, 4))),
            Some(MessageKey::AssignAttackTarget) => Ok(
                Message::AssignAttackTarget(AssignAttackTarget::fields_at(word, 4)),
            ),
            Some(MessageKey::IFFPosition) => Ok(
                Message::IFFPosition(IFFPosition::fields_at(word, 4)),
            ),
            Some(MessageKey::InterceptTaskAssign) => Ok(
                Message::InterceptTaskAssign(InterceptTaskAssign::fields_at(word, 4)),
            ),
            None => Err(UnknownMessageKind { key: field(word, 0, 4) as u8 }),
        }
    }

    /// The kind of the message.
    pub fn message_type(&self) -> (key: MessageKey)
        ensures
            key == self.key(),
    {
        match self {
            Message::NetInfo(m) => m.message_type(),
            Message::JoinRequest(m) => m.message_type(),
            Message::LeaveRequest(m) => m.message_type(),
            Message::TrackId(m) => m.message_type(),
            Message::TrackPosition(m) => m.message_type(),
            Message::TrackVelocity(m) => m.message_type(),
            Message::ReadyAttackTime(m) => m.message_type(),
            Message::TrackInfo(m) => m.message_type(),
            Message::AssignAttackTarget(m) => m.message_type(),
            Message::IFFPosition(m) => m.message_type(),
            Message::InterceptTaskAssign(m) => m.message_type(),
        }
    }

    /// Decodes a frame. A frame of no known kind is an error, never a panic.
    pub fn parse(message: u64) -> (parsed: Result<Message, UnknownMessageKind>)
        ensures
            parsed == Message::decode(message),
    {
        let mut view = U64View::new(message);
        let key = take_u8(&mut view, KEY_BITS);
        match MessageKey::from_u8(key) {
            Err(unknown) => Err(unknown),
            Ok(MessageKey::NetInfo) => Ok(Message::NetInfo(NetInfo::parse(view))),
            Ok(MessageKey::JoinRequest) => Ok(Message::JoinRequest(JoinRequest::parse(view))),
            Ok(MessageKey::LeaveRequest) => Ok(Message::LeaveRequest(LeaveNetwork::parse(view))),
            Ok(MessageKey::TrackId) => Ok(Message::TrackId(TrackId::parse(view))),
            Ok(MessageKey::TrackPosition) => Ok(Message::TrackPosition(TrackPosition::parse(view))),
            Ok(MessageKey::TrackVelocity) => Ok(Message::TrackVelocity(TrackVelocity::parse(view))),
            Ok(MessageKey::ReadyAttackTime) => Ok(
                Message::ReadyAttackTime(ReadyAttackTime::parse(view)),
            ),
            Ok(MessageKey::TrackInfo) => Ok(Message::TrackInfo(TrackInfo::parse(view))),
            Ok(MessageKey::AssignAttackTarget) => Ok(
                Message::AssignAttackTarget(AssignAttackTarget::parse(view)),
            ),
            Ok(MessageKey::IFFPosition) => Ok(Message::IFFPosition(IFFPosition::parse(view))),
            Ok(MessageKey::InterceptTaskAssign) => Ok(
                Message::InterceptTaskAssign(InterceptTaskAssign::parse(view)),
            ),
        }
    }

    /// Writes the message into a fresh frame.
    pub fn serialize(&self) -> (view: U64View)
        ensures
            view.value == self.frame(),
            view.read_index == 0,
    {
        match self {
            Message::NetInfo(m) => m.serialize(),
            Message::JoinRequest(m) => m.serialize(),
            Message::LeaveRequest(m) => m.serialize(),
            Message::TrackId(m) => m.serialize(),
            Message::TrackPosition(m) => m.serialize(),
            Message::TrackVelocity(m) => m.serialize(),
            Message::ReadyAttackTime(m) => m.serialize(),
            Message::TrackInfo(m) => m.serialize(),
            Message::AssignAttackTarget(m) => m.serialize(),
            Message::IFFPosition(m) => m.serialize(),
            Message::InterceptTaskAssign(m) => m.serialize(),
        }
    }

    /// Decoding the frame of a message that fits gives the message back.
    pub proof fn lemma_decode_frame(self)
        requires
            self.fits(),
        ensures
            Message::decode(self.frame()) == Ok::<Message, UnknownMessageKind>(self),
    {
        match self {
            Message::NetInfo(m) => m.lemma_round_trip(),
            Message::JoinRequest(m) => m.lemma_round_trip(),
            Message::LeaveRequest(m) => m.lemma_round_trip(),
            Message::TrackId(m) => m.lemma_round_trip(),
            Message::TrackPosition(m) => m.lemma_round_trip(),
            Message::TrackVelocity(m) => m.lemma_round_trip(),
            Message::ReadyAttackTime(m) => m.lemma_round_trip(),
            Message::TrackInfo(m) => m.lemma_round_trip(),
            Message::AssignAttackTarget(m) => m.lemma_round_trip(),
            Message::IFFPosition(m) => m.lemma_round_trip(),
            Message::InterceptTaskAssign(m) => m.lemma_round_trip(),
        }
    }
}

/// Writes a field for which the frame has room.
pub(crate) fn put(view: &mut U64View, value: u64, len: usize)
    requires
        old(view).write_index + len <= 64,
    ensures
        final(view).value == with_field(
            old(view).value,
            old(view).write_index as u64,
            len as u64,
            value,
        ),
        final(view).write_index == old(view).write_index + len,
        final(view).read_index == old(view).read_index,
{
    view.write(value, len).unwrap();
}

/// Reads a field of at most 8 bits for which the frame has room.
pub(crate) fn take_u8(view: &mut U64View, len: usize) -> (bits: u8)
    requires
        len <= 8,
        old(view).read_index + len <= 64,
    ensures
        bits == field(old(view).value, old(view).read_index as u64, len as u64),
        final(view).read_index == old(view).read_index + len,
        final(view).value == old(view).value,
        final(view).write_index == old(view).write_index,
{
    let ghost word = view.value;
    let ghost at = view.read_index as u64;
    let ghost width = len as u64;
    let bits = view.read(len).unwrap();
    assert(bits <= 0xff) by (bit_vector)
        requires
            bits == field(word, at, width),
            width <= 8,
    ;
    bits as u8
}

/// Reads a field of at most 16 bits for which the frame has room.
pub(crate) fn take_u16(view: &mut U64View, len: usize) -> (bits: u16)
    requires
        len <= 16,
        old(view).read_index + len <= 64,
    ensures
        bits == field(old(view).value, old(view).read_index as u64, len as u64),
        final(view).read_index == old(view).read_index + len,
        final(view).value == old(view).value,
        final(view).write_index == old(view).write_index,
{
    let ghost word = view.value;
    let ghost at = view.read_index as u64;
    let ghost width = len as u64;
    let bits = view.read(len).unwrap();
    assert(bits <= 0xffff) by (bit_vector)
        requires
            bits == field(word, at, width),
            width <= 16,
    ;
    bits as u16
}

/// Reads a field of at most 32 bits for which the frame has room.
pub(crate) fn take_u32(view: &mut U64View, len: usize) -> (bits: u32)
    requires
        len <= 32,
        old(view).read_index + len <= 64,
    ensures
        bits == field(old(view).value, old(view).read_index as u64, len as u64),
        final(view).read_index == old(view).read_index + len,
        final(view).value == old(view).value,
        final(view).write_index == old(view).write_index,
{
    let ghost word = view.value;
    let ghost at = view.read_index as u64;
    let ghost width = len as u64;
    let bits = view.read(len).unwrap();
    assert(bits <= 0xffff_ffff) by (bit_vector)
        requires
            bits == field(word, at, width),
            width <= 32,
    ;
    bits as u32
}

} // verus!

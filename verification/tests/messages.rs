use fleet::datalink::fixed_point::FixedVector3;
use fleet::datalink::messages::assign_attack_target::AssignAttackTarget;
use fleet::datalink::messages::iff_pos::IFFPosition;
use fleet::datalink::messages::intercept_task_assign::InterceptTaskAssign;
use fleet::datalink::messages::join_request::JoinRequest;
use fleet::datalink::messages::leave_network::LeaveNetwork;
use fleet::datalink::messages::message::{
    DatalinkMessage, Message, MessageKey, UnknownMessageKind,
};
use fleet::datalink::messages::net_info::NetInfo;
use fleet::datalink::messages::ready_attack_time::ReadyAttackTime;
use fleet::datalink::messages::track_id::TrackId;
use fleet::datalink::messages::track_info::{i32_to_radar, radar_to_i32, ContactType, TrackInfo};
use fleet::datalink::messages::track_position::TrackPosition;
use fleet::datalink::messages::track_velocity::TrackVelocity;
use fleet::datalink::u64_view::U64View;

fn round_trip(message: Message) {
    let frame = message.serialize().value;
    assert_eq!(Message::parse(frame), Ok(message));
}

#[test]
fn net_info_round_trips_at_the_bounds() {
    round_trip(Message::NetInfo(NetInfo::new(0, 0, 0, 0, 0)));
    round_trip(Message::NetInfo(NetInfo::new(255, 15, 15, u32::MAX, 255)));
    round_trip(Message::NetInfo(NetInfo::new(17, 7, 9, 0x8000_0000, 128)));
}

#[test]
fn join_request_round_trips_at_the_bounds() {
    round_trip(Message::JoinRequest(JoinRequest::new(0, 0)));
    round_trip(Message::JoinRequest(JoinRequest::new(255, 15)));
    round_trip(Message::JoinRequest(JoinRequest::new(100, 8)));
}

#[test]
fn leave_network_round_trips_at_the_bounds() {
    round_trip(Message::LeaveRequest(LeaveNetwork::new(0, 0)));
    round_trip(Message::LeaveRequest(LeaveNetwork::new(15, 255)));
    round_trip(Message::LeaveRequest(LeaveNetwork::new(6, 99)));
}

#[test]
fn track_id_round_trips_at_the_bounds() {
    round_trip(Message::TrackId(TrackId::new(0, 0)));
    round_trip(Message::TrackId(TrackId::new(u16::MAX, u32::MAX)));
    round_trip(Message::TrackId(TrackId::new(0x1234, 0xdead_beef)));
}

#[test]
fn track_position_round_trips_at_the_bounds() {
    round_trip(Message::TrackPosition(TrackPosition::new(0, FixedVector3::new(0, 0, 0))));
    round_trip(Message::TrackPosition(TrackPosition::new(
        4095,
        FixedVector3::new(65535, 65535, 65535),
    )));
    round_trip(Message::TrackPosition(TrackPosition::new(
        2048,
        FixedVector3::new(30000, 1, 65534),
    )));
}

#[test]
fn track_velocity_round_trips_at_the_bounds() {
    round_trip(Message::TrackVelocity(TrackVelocity::new(0, FixedVector3::new(0, 0, 0))));
    round_trip(Message::TrackVelocity(TrackVelocity::new(
        4095,
        FixedVector3::new(65535, 65535, 65535),
    )));
    round_trip(Message::TrackVelocity(TrackVelocity::new(
        5,
        FixedVector3::new(33750, 0, 65535),
    )));
}

#[test]
fn ready_attack_time_round_trips_at_the_bounds() {
    round_trip(Message::ReadyAttackTime(ReadyAttackTime::new(0)));
    round_trip(Message::ReadyAttackTime(ReadyAttackTime::new(u32::MAX)));
    round_trip(Message::ReadyAttackTime(ReadyAttackTime::new(123_456)));
}

#[test]
fn track_info_round_trips_for_every_contact_type() {
    let types = [
        ContactType::Invalid,
        ContactType::SpaceBattleShip,
        ContactType::SpaceHulk,
        ContactType::Missile,
        ContactType::Asteroid,
        ContactType::FlakShell,
        ContactType::APShell,
    ];
    for contact_type in types {
        round_trip(Message::TrackInfo(TrackInfo::new(0, 0, contact_type, false)));
        round_trip(Message::TrackInfo(TrackInfo::new(4095, u32::MAX, contact_type, true)));
        round_trip(Message::TrackInfo(TrackInfo::new(77, 0x0102_0304, contact_type, true)));
    }
}

#[test]
fn assign_attack_target_round_trips_at_the_bounds() {
    round_trip(Message::AssignAttackTarget(AssignAttackTarget::new(0)));
    round_trip(Message::AssignAttackTarget(AssignAttackTarget::new(u16::MAX)));
    round_trip(Message::AssignAttackTarget(AssignAttackTarget::new(300)));
}

#[test]
fn iff_position_round_trips_at_the_bounds() {
    round_trip(Message::IFFPosition(IFFPosition::new(FixedVector3::new(0, 0, 0), 0)));
    round_trip(Message::IFFPosition(IFFPosition::new(
        FixedVector3::new(65535, 65535, 65535),
        255,
    )));
    round_trip(Message::IFFPosition(IFFPosition::new(FixedVector3::new(30000, 30001, 29999), 3)));
}

#[test]
fn intercept_task_assign_round_trips_at_the_bounds() {
    round_trip(Message::InterceptTaskAssign(InterceptTaskAssign::new(0, 0, 0, 0)));
    round_trip(Message::InterceptTaskAssign(InterceptTaskAssign::new(
        u16::MAX,
        u32::MAX,
        255,
        15,
    )));
    round_trip(Message::InterceptTaskAssign(InterceptTaskAssign::new(
        0x1234,
        0xcafe_f00d,
        9,
        7,
    )));
}

#[test]
fn frames_have_the_documented_layout() {
    assert_eq!(NetInfo::new(1, 2, 1, 100, 255).serialize().value, 0x0ff0_0000_0641_2010);
    assert_eq!(JoinRequest::new(0x5a, 1).serialize().value, 0x15a1);
    assert_eq!(LeaveNetwork::new(1, 7).serialize().value, 0x712);
    assert_eq!(TrackId::new(0x1234, 0xdead_beef).serialize().value, 0x000d_eadb_eef1_2343);
    assert_eq!(
        TrackPosition::new(0x123, FixedVector3::new(33704, 28499, 30000)).serialize().value,
        0x7530_6f53_83a8_1234
    );
    assert_eq!(
        TrackVelocity::new(5, FixedVector3::new(33750, 0, 65535)).serialize().value,
        0xffff_0000_83d6_0055
    );
    assert_eq!(ReadyAttackTime::new(0xdead_beef).serialize().value, 0xd_eadb_eef6);
    assert_eq!(
        TrackInfo::new(0xabc, 0xdead_beef, ContactType::Missile, true).serialize().value,
        0x0012_dead_beef_abc7
    );
    assert_eq!(AssignAttackTarget::new(0xffff).serialize().value, 0xf_fff8);
    assert_eq!(
        IFFPosition::new(FixedVector3::new(30000, 30001, 29999), 3).serialize().value,
        0x0037_52f7_5317_5309
    );
    assert_eq!(
        InterceptTaskAssign::new(0x1234, 0xcafe_f00d, 9, 15).serialize().value,
        0xf09c_afef_00d1_234a
    );
}

#[test]
fn serialize_leaves_the_cursors_after_the_last_field() {
    let view = NetInfo::new(1, 2, 1, 100, 255).serialize();
    assert_eq!(view.write_index, 60);
    assert_eq!(view.read_index, 0);
    assert_eq!(JoinRequest::new(1, 1).serialize().write_index, 16);
    assert_eq!(TrackInfo::new(1, 1, ContactType::Missile, true).serialize().write_index, 53);
    assert_eq!(TrackPosition::new(1, FixedVector3::new(1, 2, 3)).serialize().write_index, 64);
    assert_eq!(InterceptTaskAssign::new(1, 2, 3, 4).serialize().write_index, 64);
}

#[test]
fn invalid_contact_type_travels_as_fifteen() {
    let frame = TrackInfo::new(0xabc, 0xdead_beef, ContactType::Invalid, false).serialize().value;
    assert_eq!(frame, 0x000f_dead_beef_abc7);
    assert_eq!(radar_to_i32(ContactType::Invalid), -1);
    assert_eq!(i32_to_radar(15), ContactType::Invalid);
}

#[test]
fn contact_type_codes_are_the_radars() {
    assert_eq!(radar_to_i32(ContactType::SpaceBattleShip), 0);
    assert_eq!(radar_to_i32(ContactType::SpaceHulk), 1);
    assert_eq!(radar_to_i32(ContactType::Missile), 2);
    assert_eq!(radar_to_i32(ContactType::Asteroid), 5);
    assert_eq!(radar_to_i32(ContactType::FlakShell), 7);
    assert_eq!(radar_to_i32(ContactType::APShell), 8);
    for code in [3, 4, 6, 9, 10, 11, 12, 13, 14, 15, -1, 16, i32::MAX, i32::MIN] {
        assert_eq!(i32_to_radar(code), ContactType::Invalid);
    }
    assert_eq!(i32_to_radar(5), ContactType::Asteroid);
}

#[test]
fn field_wider_than_its_place_is_cut() {
    let frame = NetInfo::new(1, 0x12, 0x31, 5, 9).serialize().value;
    assert_eq!(Message::parse(frame), Ok(Message::NetInfo(NetInfo::new(1, 2, 1, 5, 9))));
    let frame = TrackInfo::new(0xfabc, 1, ContactType::Missile, true).serialize().value;
    assert_eq!(
        Message::parse(frame),
        Ok(Message::TrackInfo(TrackInfo::new(0xabc, 1, ContactType::Missile, true)))
    );
}

#[test]
fn unknown_kind_is_an_error_not_a_panic() {
    for key in 11u8..16 {
        let frame = 0xffff_ffff_ffff_fff0 | key as u64;
        assert_eq!(Message::parse(frame), Err(UnknownMessageKind { key }));
    }
    assert_eq!(MessageKey::from_u8(11), Err(UnknownMessageKind { key: 11 }));
    assert_eq!(MessageKey::from_u8(255), Err(UnknownMessageKind { key: 255 }));
}

#[test]
fn every_kind_has_its_code() {
    let kinds = [
        MessageKey::NetInfo,
        MessageKey::JoinRequest,
        MessageKey::LeaveRequest,
        MessageKey::TrackId,
        MessageKey::TrackPosition,
        MessageKey::TrackVelocity,
        MessageKey::ReadyAttackTime,
        MessageKey::TrackInfo,
        MessageKey::AssignAttackTarget,
        MessageKey::IFFPosition,
        MessageKey::InterceptTaskAssign,
    ];
    for (code, kind) in kinds.iter().enumerate() {
        assert_eq!(kind.to_u8() as usize, code);
        assert_eq!(MessageKey::from_u8(code as u8), Ok(*kind));
    }
}

#[test]
fn message_type_names_the_variant() {
    assert_eq!(NetInfo::new(0, 0, 0, 0, 0).message_type(), MessageKey::NetInfo);
    assert_eq!(LeaveNetwork::new(0, 0).message_type(), MessageKey::LeaveRequest);
    assert_eq!(
        Message::IFFPosition(IFFPosition::new(FixedVector3::new(0, 0, 0), 0)).message_type(),
        MessageKey::IFFPosition
    );
    assert_eq!(
        Message::ReadyAttackTime(ReadyAttackTime::new(1)).message_type(),
        MessageKey::ReadyAttackTime
    );
}

#[test]
fn parse_reads_the_fields_at_the_read_cursor() {
    let mut view = U64View::new(0x15a1);
    assert_eq!(view.read(4), Ok(1));
    assert_eq!(JoinRequest::parse(view), JoinRequest::new(0x5a, 1));
    let view = U64View::new(0x15a);
    assert_eq!(JoinRequest::parse(view), JoinRequest::new(0x5a, 1));
}

#[test]
fn unused_bits_of_a_frame_are_ignored_on_parse() {
    let frame = 0x15a1 | 0xffff_ffff_ffff_0000;
    assert_eq!(Message::parse(frame), Ok(Message::JoinRequest(JoinRequest::new(0x5a, 1))));
}

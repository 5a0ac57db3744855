use fleet::datalink::datalink::{
    dl_crunch_id, dl_declare_host, dl_net_id, get_dl_track, get_ship_pos_from_iff,
    get_ship_tracks, update_track_from_local_data, Datalink, DatalinkTrack, FriendlyPosition,
};
use fleet::datalink::fixed_point::{FixedVector3, POSITION_ZERO, VELOCITY_ZERO};
use fleet::datalink::messages::iff_pos::IFFPosition;
use fleet::datalink::messages::message::{DatalinkMessage, Message};
use fleet::datalink::messages::track_id::TrackId;
use fleet::datalink::messages::track_info::{ContactType, TrackInfo};
use fleet::datalink::messages::track_position::TrackPosition;
use fleet::datalink::messages::track_velocity::TrackVelocity;

fn host() -> Datalink {
    let mut datalink = Datalink::new();
    dl_declare_host(&mut datalink);
    datalink
}

fn hear(datalink: &mut Datalink, message: Message, now: u64) {
    assert_eq!(datalink.handle_packet(message.serialize().value, now, 0), Ok(()));
}

#[test]
fn a_fresh_track_is_at_rest_at_the_origin() {
    let track = DatalinkTrack::new(7);
    assert_eq!(track.track_id, 7);
    assert_eq!(track.contact_id, 0);
    assert_eq!(track.contact_type, ContactType::Invalid);
    assert_eq!(track.position, FixedVector3::new(POSITION_ZERO, POSITION_ZERO, POSITION_ZERO));
    assert_eq!(track.velocity, FixedVector3::new(VELOCITY_ZERO, VELOCITY_ZERO, VELOCITY_ZERO));
    assert_eq!(track.last_update_timestamp, None);
    assert!(track.is_allied);
}

#[test]
fn crunching_keeps_the_upper_half_of_the_contact_id() {
    assert_eq!(dl_crunch_id(0), 0);
    assert_eq!(dl_crunch_id(0x1234_5678_9abc_def0), 0x1234_5678);
    assert_eq!(dl_crunch_id(0xffff_ffff), 0);
    assert_eq!(dl_crunch_id(0x1_0000_0000), 1);
    assert_eq!(dl_crunch_id(-1), 0xffff_ffff);
    assert_eq!(dl_crunch_id(i64::MIN), 0x8000_0000);
    assert_eq!(dl_crunch_id(i64::MAX), 0x7fff_ffff);
}

#[test]
fn a_track_is_made_on_first_mention() {
    let mut datalink = Datalink::new();
    assert!(!datalink.does_track_exist(9));
    assert_eq!(datalink.get_track(9), None);
    let position = FixedVector3::new(1, 2, 3);
    hear(&mut datalink, Message::TrackPosition(TrackPosition::new(9, position)), 500);
    assert!(datalink.does_track_exist(9));
    let mut expected = DatalinkTrack::new(9);
    expected.position = position;
    expected.last_update_timestamp = Some(500);
    assert_eq!(datalink.get_track(9), Some(expected));
    assert_eq!(get_dl_track(&datalink, 9), Some(expected));
    assert_eq!(datalink.tracks.len(), 1);
}

#[test]
fn updates_of_a_track_meet_in_one_entry() {
    let mut datalink = Datalink::new();
    let position = FixedVector3::new(1, 2, 3);
    let velocity = FixedVector3::new(4, 5, 6);
    hear(&mut datalink, Message::TrackVelocity(TrackVelocity::new(9, velocity)), 100);
    hear(
        &mut datalink,
        Message::TrackInfo(TrackInfo::new(9, 0xabcd, ContactType::Missile, false)),
        200,
    );
    hear(&mut datalink, Message::TrackPosition(TrackPosition::new(9, position)), 300);
    hear(&mut datalink, Message::TrackPosition(TrackPosition::new(8, position)), 400);
    assert_eq!(
        datalink.tracks,
        vec![
            DatalinkTrack {
                track_id: 9,
                contact_id: 0xabcd,
                contact_type: ContactType::Missile,
                position,
                velocity,
                last_update_timestamp: Some(300),
                is_allied: false,
            },
            DatalinkTrack {
                track_id: 8,
                contact_id: 0,
                contact_type: ContactType::Invalid,
                position,
                velocity: FixedVector3::new(VELOCITY_ZERO, VELOCITY_ZERO, VELOCITY_ZERO),
                last_update_timestamp: Some(400),
                is_allied: true,
            },
        ]
    );
}

#[test]
fn track_info_does_not_touch_the_time_of_the_last_update() {
    let mut datalink = Datalink::new();
    hear(
        &mut datalink,
        Message::TrackInfo(TrackInfo::new(3, 1, ContactType::SpaceBattleShip, false)),
        200,
    );
    assert_eq!(datalink.tracks[0].last_update_timestamp, None);
    hear(&mut datalink, Message::TrackVelocity(TrackVelocity::new(3, FixedVector3::new(0, 0, 0))), 7);
    hear(
        &mut datalink,
        Message::TrackInfo(TrackInfo::new(3, 2, ContactType::SpaceBattleShip, true)),
        900,
    );
    assert_eq!(datalink.tracks[0].last_update_timestamp, Some(7));
    assert_eq!(datalink.tracks[0].contact_id, 2);
}

#[test]
fn get_track_mut_says_where_the_track_stands() {
    let mut datalink = Datalink::new();
    assert_eq!(datalink.get_track_mut(5), 0);
    assert_eq!(datalink.get_track_mut(6), 1);
    assert_eq!(datalink.get_track_mut(5), 0);
    assert_eq!(datalink.create_track(5), 2);
    assert_eq!(datalink.find_track(5), Some(0));
    assert_eq!(datalink.find_track(7), None);
    assert_eq!(datalink.tracks.len(), 3);
}

#[test]
fn ships_are_picked_from_the_tracks_in_order() {
    let mut datalink = Datalink::new();
    let types = [
        ContactType::Missile,
        ContactType::SpaceBattleShip,
        ContactType::Asteroid,
        ContactType::SpaceBattleShip,
        ContactType::SpaceHulk,
    ];
    for (id, contact_type) in types.iter().enumerate() {
        hear(
            &mut datalink,
            Message::TrackInfo(TrackInfo::new(id as u16, id as u32, *contact_type, false)),
            0,
        );
    }
    let ships = get_ship_tracks(&datalink);
    assert_eq!(ships.len(), 2);
    assert_eq!(ships[0].track_id, 1);
    assert_eq!(ships[1].track_id, 3);
    assert!(Datalink::new().get_ship_tracks().is_empty());
}

#[test]
fn host_gives_out_track_ids_at_once() {
    let mut datalink = host();
    assert_eq!(dl_net_id(&mut datalink, 0x0000_0007_0000_0000), Some(0));
    assert_eq!(dl_net_id(&mut datalink, 0x0000_0008_0000_0000), Some(1));
    assert_eq!(dl_net_id(&mut datalink, 0x0000_0007_ffff_ffff), Some(0));
    assert_eq!(datalink.next_track_id, 2);
    assert_eq!(datalink.id_map.get(&7), Some(&0));
    assert_eq!(datalink.id_map.get(&8), Some(&1));
    assert!(datalink.message_queue.is_empty());
}

#[test]
fn others_ask_the_host_for_a_track_id_once() {
    let mut datalink = Datalink::new();
    assert_eq!(dl_net_id(&mut datalink, 0x0000_0007_0000_0000), None);
    assert_eq!(datalink.message_queue, vec![Message::TrackId(TrackId::new(0, 7))]);
    assert_eq!(dl_net_id(&mut datalink, 0x0000_0007_0000_0000), None);
    assert_eq!(datalink.message_queue.len(), 1);
    assert_eq!(dl_net_id(&mut datalink, 0x0000_0008_0000_0000), None);
    assert_eq!(
        datalink.message_queue,
        vec![Message::TrackId(TrackId::new(0, 7)), Message::TrackId(TrackId::new(0, 8))]
    );
    assert!(datalink.id_map.is_empty());
}

#[test]
fn a_binding_heard_resolves_the_track_id() {
    let mut datalink = Datalink::new();
    assert_eq!(dl_net_id(&mut datalink, 0x0000_0007_0000_0000), None);
    hear(&mut datalink, Message::TrackId(TrackId::new(12, 7)), 0);
    assert_eq!(dl_net_id(&mut datalink, 0x0000_0007_0000_0000), Some(12));
    assert_eq!(datalink.message_queue.len(), 1);
}

#[test]
fn host_answers_a_request_for_a_track_id() {
    let mut datalink = host();
    assert_eq!(dl_net_id(&mut datalink, 0x0000_0001_0000_0000), Some(0));
    hear(&mut datalink, Message::TrackId(TrackId::new(0, 7)), 0);
    assert_eq!(datalink.message_queue, vec![Message::TrackId(TrackId::new(1, 7))]);
    assert_eq!(datalink.id_map.get(&7), Some(&1));
    assert_eq!(datalink.next_track_id, 2);
}

#[test]
fn a_request_means_nothing_to_the_others() {
    let mut datalink = Datalink::new();
    hear(&mut datalink, Message::TrackId(TrackId::new(0, 7)), 0);
    assert!(datalink.id_map.is_empty());
    assert!(datalink.message_queue.is_empty());
    assert_eq!(datalink.next_track_id, 0);
}

#[test]
fn the_track_id_after_the_last_is_the_first() {
    let mut datalink = host();
    datalink.next_track_id = u16::MAX;
    assert_eq!(dl_net_id(&mut datalink, 0x0000_0007_0000_0000), Some(u16::MAX));
    assert_eq!(datalink.next_track_id, 0);
}

#[test]
fn local_data_fills_the_track_of_a_known_contact() {
    let mut datalink = host();
    let position = FixedVector3::new(100, 200, 300);
    let velocity = FixedVector3::new(-5, 0, 70000);
    update_track_from_local_data(
        &mut datalink,
        0x0000_0042_1234_5678,
        ContactType::SpaceBattleShip,
        position,
        velocity,
        900,
    );
    assert_eq!(
        datalink.tracks,
        vec![DatalinkTrack {
            track_id: 0,
            contact_id: 0x42,
            contact_type: ContactType::SpaceBattleShip,
            position,
            velocity,
            last_update_timestamp: Some(900),
            is_allied: true,
        }]
    );
}

#[test]
fn local_data_of_an_unresolved_contact_only_leaves_the_request() {
    let mut datalink = Datalink::new();
    let position = FixedVector3::new(100, 200, 300);
    update_track_from_local_data(
        &mut datalink,
        0x0000_0042_1234_5678,
        ContactType::SpaceBattleShip,
        position,
        position,
        900,
    );
    assert!(datalink.tracks.is_empty());
    assert_eq!(datalink.message_queue, vec![Message::TrackId(TrackId::new(0, 0x42))]);
}

#[test]
fn one_position_is_kept_for_each_participant() {
    let mut datalink = Datalink::new();
    let first = FixedVector3::new(1, 1, 1);
    let second = FixedVector3::new(2, 2, 2);
    let third = FixedVector3::new(3, 3, 3);
    assert_eq!(get_ship_pos_from_iff(&datalink), None);
    hear(&mut datalink, Message::IFFPosition(IFFPosition::new(first, 4)), 0);
    assert_eq!(get_ship_pos_from_iff(&datalink), None);
    hear(&mut datalink, Message::IFFPosition(IFFPosition::new(second, 0)), 0);
    hear(&mut datalink, Message::IFFPosition(IFFPosition::new(third, 4)), 0);
    assert_eq!(
        datalink.friendly_positions,
        vec![
            FriendlyPosition { position: third, dl_id: 4 },
            FriendlyPosition { position: second, dl_id: 0 }
        ]
    );
    assert_eq!(get_ship_pos_from_iff(&datalink), Some(second));
}

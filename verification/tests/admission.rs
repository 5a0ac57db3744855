use fleet::datalink::datalink::{
    datalink_disconnect, dl_declare_host, own_dl_id, Datalink, DatalinkStatus, Heard, TimeBlock,
};
use fleet::datalink::messages::join_request::JoinRequest;
use fleet::datalink::messages::leave_network::LeaveNetwork;
use fleet::datalink::messages::message::{DatalinkMessage, Message};
use fleet::datalink::messages::net_info::NetInfo;
use fleet::datalink::model::{BLOCK_CAPACITY, INVALID};

fn block(index: u8, clients: &[u8]) -> TimeBlock {
    TimeBlock { index, clients: clients.to_vec() }
}

fn host() -> Datalink {
    let mut datalink = Datalink::new();
    dl_declare_host(&mut datalink);
    datalink
}

#[test]
fn a_new_participant_has_heard_nothing() {
    let datalink = Datalink::new();
    assert_eq!(datalink.status, DatalinkStatus::NotJoined);
    assert!(datalink.blocks.is_empty());
    assert_eq!(datalink.id, INVALID);
    assert_eq!(datalink.join_request_approve_id, INVALID);
    assert_eq!(datalink.our_join_request_id, INVALID);
    assert_eq!(datalink.our_request_block, INVALID);
    assert_eq!(datalink.next_free_block, INVALID);
    assert_eq!(datalink.total_blocks, 0);
    assert_eq!(datalink.tick, 0);
    assert!(!datalink.is_host);
    assert!(!datalink.is_our_turn());
    assert!(!datalink.is_host_transmit_turn());
}

#[test]
fn host_starts_as_participant_zero_with_two_blocks() {
    let datalink = host();
    assert_eq!(datalink.blocks, vec![block(0, &[0]), block(1, &[0, 0])]);
    assert_eq!(datalink.total_blocks, 2);
    assert_eq!(datalink.our_block, 1);
    assert_eq!(datalink.status, DatalinkStatus::Joined);
    assert_eq!(datalink.id, 0);
    assert_eq!(own_dl_id(&datalink), 0);
    assert!(datalink.is_host);
}

#[test]
fn newcomer_asks_to_join_on_the_first_net_info() {
    let mut datalink = Datalink::new();
    let frame = NetInfo::new(0, 2, 1, 100, 255).serialize().value;
    assert_eq!(datalink.handle_packet(frame, 0, 0x5a), Ok(()));
    assert_eq!(datalink.status, DatalinkStatus::WaitingForId);
    assert_eq!(datalink.outbox, vec![JoinRequest::new(0x5a, 1).serialize().value]);
    assert_eq!(datalink.outbox, vec![0x15a1]);
    assert_eq!(datalink.our_join_request_id, 0x5a);
    assert_eq!(datalink.our_request_block, 1);
    assert_eq!(datalink.total_blocks, 2);
    assert_eq!(datalink.next_free_block, 1);
    assert_eq!(datalink.tick, 101);
}

#[test]
fn host_puts_the_newcomer_into_a_block_with_room() {
    let mut datalink = host();
    datalink.process_join_request(JoinRequest::new(0x5a, 1));
    assert_eq!(datalink.blocks, vec![block(0, &[0]), block(1, &[0, 0, 1])]);
    assert_eq!(datalink.join_request_approve_id, 0x5a);
    assert_eq!(datalink.next_id, 1);
    assert_eq!(datalink.total_blocks, 2);
}

#[test]
fn newcomer_joins_when_its_request_is_approved() {
    let mut datalink = Datalink::new();
    datalink.handle_net_info(NetInfo::new(0, 2, 1, 100, 255), 0x5a);
    datalink.handle_net_info(NetInfo::new(1, 2, 1, 102, 0x5a), 0x77);
    assert_eq!(datalink.status, DatalinkStatus::Joined);
    assert_eq!(datalink.id, 1);
    assert_eq!(datalink.our_block, 1);
    assert_eq!(datalink.tick, 103);
    assert_eq!(datalink.outbox.len(), 1);
}

#[test]
fn newcomer_asks_again_when_another_request_is_approved() {
    let mut datalink = Datalink::new();
    datalink.handle_net_info(NetInfo::new(0, 2, 1, 100, 255), 0x5a);
    datalink.handle_net_info(NetInfo::new(1, 3, 2, 102, 0x11), 0x77);
    assert_eq!(datalink.status, DatalinkStatus::WaitingForId);
    assert_eq!(datalink.our_join_request_id, 0x77);
    assert_eq!(datalink.our_request_block, 2);
    assert_eq!(
        datalink.outbox,
        vec![
            JoinRequest::new(0x5a, 1).serialize().value,
            JoinRequest::new(0x77, 2).serialize().value
        ]
    );
}

#[test]
fn a_joined_participant_only_takes_the_clock_from_net_info() {
    let mut datalink = Datalink::new();
    datalink.handle_net_info(NetInfo::new(0, 2, 1, 100, 255), 0x5a);
    datalink.handle_net_info(NetInfo::new(1, 2, 1, 102, 0x5a), 0x77);
    datalink.handle_net_info(NetInfo::new(9, 5, 4, 1000, 0x5a), 0x78);
    assert_eq!(datalink.status, DatalinkStatus::Joined);
    assert_eq!(datalink.id, 1);
    assert_eq!(datalink.our_block, 1);
    assert_eq!(datalink.total_blocks, 5);
    assert_eq!(datalink.next_free_block, 4);
    assert_eq!(datalink.tick, 1001);
    assert_eq!(datalink.outbox.len(), 1);
}

#[test]
fn the_tick_after_the_last_is_the_first() {
    let mut datalink = Datalink::new();
    datalink.handle_net_info(NetInfo::new(0, 2, 1, u32::MAX, 255), 1);
    assert_eq!(datalink.tick, 0);
}

#[test]
fn fifth_request_for_a_full_block_opens_a_new_block() {
    let mut datalink = host();
    for request in 0..2u8 {
        datalink.process_join_request(JoinRequest::new(request, 1));
        datalink.send_net_info();
    }
    assert_eq!(datalink.blocks, vec![block(0, &[0]), block(1, &[0, 0, 1, 2])]);
    assert_eq!(datalink.blocks[1].clients.len(), BLOCK_CAPACITY);
    datalink.process_join_request(JoinRequest::new(9, 1));
    assert_eq!(
        datalink.blocks,
        vec![block(0, &[0]), block(1, &[0, 0, 1, 2]), block(1, &[3])]
    );
    assert_eq!(datalink.join_request_approve_id, 9);
    assert_eq!(datalink.next_id, 3);
}

#[test]
fn request_for_a_block_that_is_not_there_opens_it() {
    let mut datalink = host();
    datalink.process_join_request(JoinRequest::new(4, 7));
    assert_eq!(datalink.blocks, vec![block(0, &[0]), block(1, &[0, 0]), block(7, &[1])]);
    assert_eq!(datalink.join_request_approve_id, 4);
}

#[test]
fn no_block_ever_holds_more_than_four() {
    let mut datalink = host();
    for request in 0..40u8 {
        datalink.process_join_request(JoinRequest::new(request, request % 3));
        datalink.send_net_info();
        for block in &datalink.blocks {
            assert!(block.clients.len() <= BLOCK_CAPACITY);
        }
    }
    assert_eq!(datalink.next_id, 40);
}

#[test]
fn second_request_before_the_broadcast_is_dropped() {
    let mut datalink = host();
    datalink.process_join_request(JoinRequest::new(0x5a, 1));
    let blocks = vec![block(0, &[0]), block(1, &[0, 0, 1])];
    assert_eq!(datalink.blocks, blocks);
    datalink.process_join_request(JoinRequest::new(0x5b, 1));
    assert_eq!(datalink.blocks, blocks);
    assert_eq!(datalink.join_request_approve_id, 0x5a);
    assert_eq!(datalink.next_id, 1);
    assert!(datalink.outbox.is_empty());
    assert!(datalink.message_queue.is_empty());
}

#[test]
fn request_under_the_id_for_none_does_not_hold_the_next_one_off() {
    let mut datalink = host();
    datalink.process_join_request(JoinRequest::new(INVALID, 1));
    datalink.process_join_request(JoinRequest::new(0x5b, 1));
    assert_eq!(datalink.blocks, vec![block(0, &[0]), block(1, &[0, 0, 1, 2])]);
    assert_eq!(datalink.join_request_approve_id, 0x5b);
}

#[test]
fn the_approval_goes_out_with_the_next_net_info() {
    let mut datalink = host();
    datalink.process_join_request(JoinRequest::new(0x5a, 1));
    datalink.send_net_info();
    assert_eq!(datalink.outbox, vec![NetInfo::new(1, 2, 0, 0, 0x5a).serialize().value]);
    assert_eq!(datalink.join_request_approve_id, INVALID);
    datalink.process_join_request(JoinRequest::new(0x5b, 1));
    assert_eq!(datalink.join_request_approve_id, 0x5b);
}

#[test]
fn only_the_host_takes_join_requests() {
    let mut datalink = Datalink::new();
    datalink.process_join_request(JoinRequest::new(0x5a, 1));
    assert!(datalink.blocks.is_empty());
    assert_eq!(datalink.join_request_approve_id, INVALID);
    assert_eq!(datalink.next_id, 0);
}

#[test]
fn the_id_after_the_last_is_the_first() {
    let mut datalink = host();
    datalink.next_id = 255;
    datalink.process_join_request(JoinRequest::new(1, 9));
    assert_eq!(datalink.next_id, 0);
    assert_eq!(datalink.blocks[2], block(9, &[0]));
}

#[test]
fn host_advertises_the_first_block_with_room() {
    let mut datalink = host();
    datalink.send_net_info();
    assert_eq!(
        Message::parse(datalink.outbox[0]),
        Ok(Message::NetInfo(NetInfo::new(0, 2, 0, 0, INVALID)))
    );
    datalink.blocks[0].clients = vec![0, 1, 2, 3];
    datalink.send_net_info();
    assert_eq!(
        Message::parse(datalink.outbox[1]),
        Ok(Message::NetInfo(NetInfo::new(0, 2, 1, 0, INVALID)))
    );
    datalink.blocks[1].clients = vec![4, 5, 6, 7];
    datalink.send_net_info();
    assert_eq!(
        Message::parse(datalink.outbox[2]),
        Ok(Message::NetInfo(NetInfo::new(0, 2, 2, 0, INVALID)))
    );
    assert_eq!(datalink.first_block_with_room(), 2);
}

#[test]
fn the_cycle_grows_with_the_blocks_at_the_broadcast() {
    let mut datalink = host();
    datalink.process_join_request(JoinRequest::new(1, 5));
    assert_eq!(datalink.blocks.len(), 3);
    assert_eq!(datalink.total_blocks, 2);
    datalink.send_net_info();
    assert_eq!(datalink.total_blocks, 3);
}

#[test]
fn host_strikes_a_client_that_leaves() {
    let mut datalink = host();
    datalink.process_join_request(JoinRequest::new(1, 1));
    datalink.send_net_info();
    datalink.process_join_request(JoinRequest::new(2, 1));
    assert_eq!(datalink.blocks[1], block(1, &[0, 0, 1, 2]));
    datalink.process_leave_network(LeaveNetwork::new(1, 1));
    assert_eq!(datalink.blocks[1], block(1, &[0, 0, 2]));
    datalink.process_leave_network(LeaveNetwork::new(1, 0));
    assert_eq!(datalink.blocks[1], block(1, &[0, 2]));
    datalink.process_leave_network(LeaveNetwork::new(1, 9));
    assert_eq!(datalink.blocks[1], block(1, &[0, 2]));
    datalink.process_leave_network(LeaveNetwork::new(5, 2));
    assert_eq!(datalink.blocks, vec![block(0, &[0]), block(1, &[0, 2])]);
}

#[test]
fn only_the_host_strikes_clients() {
    let mut datalink = Datalink::new();
    datalink.blocks.push(block(1, &[1, 2]));
    datalink.process_leave_network(LeaveNetwork::new(1, 1));
    assert_eq!(datalink.blocks, vec![block(1, &[1, 2])]);
}

#[test]
fn get_block_finds_the_first_block_with_the_index() {
    let mut datalink = host();
    datalink.blocks.push(block(1, &[9]));
    assert_eq!(datalink.get_block(0), Some(0));
    assert_eq!(datalink.get_block(1), Some(1));
    assert_eq!(datalink.get_block(2), None);
}

#[test]
fn leaving_is_said_in_the_own_turn_and_is_final() {
    let mut datalink = Datalink::new();
    datalink.handle_net_info(NetInfo::new(0, 2, 1, 100, 255), 0x5a);
    datalink.handle_net_info(NetInfo::new(1, 2, 1, 101, 0x5a), 0x5b);
    assert_eq!(datalink.drain_outbox().len(), 1);
    assert_eq!(datalink.tick, 102);
    datalink_disconnect(&mut datalink);
    assert!(datalink.disconnect_on_next_send);
    // tick 102 is slot 0 of 2: not ours
    let report = datalink.update_with(&Vec::new(), 0);
    assert!(datalink.outbox.is_empty());
    assert_eq!(datalink.status, DatalinkStatus::Joined);
    assert_eq!(datalink.tick, 103);
    assert!(!report.joined);
    // tick 103 is slot 1 of 2: ours
    datalink.update_with(&Vec::new(), 0);
    assert_eq!(datalink.outbox, vec![LeaveNetwork::new(1, 1).serialize().value]);
    assert_eq!(datalink.status, DatalinkStatus::Disconnected);
    assert_eq!(datalink.tick, 103);
    // gone: hears nothing, sends nothing
    let net_info = Heard { frame: NetInfo::new(1, 2, 1, 500, 255).serialize().value, request_id: 3 };
    let report = datalink.update_with(&vec![net_info, Heard { frame: 0xf, request_id: 0 }], 0);
    assert_eq!(datalink.status, DatalinkStatus::Disconnected);
    assert_eq!(datalink.tick, 103);
    assert_eq!(datalink.outbox.len(), 1);
    assert!(report.dropped.is_empty());
}

#[test]
fn update_draws_an_id_for_the_join_request() {
    let mut datalink = Datalink::new();
    let frame = NetInfo::new(0, 2, 1, 100, 255).serialize().value;
    let report = datalink.update(&vec![frame], 0);
    assert_eq!(datalink.status, DatalinkStatus::WaitingForId);
    assert!(!report.joined);
    assert_eq!(datalink.our_request_block, 1);
    assert_eq!(
        datalink.outbox,
        vec![JoinRequest::new(datalink.our_join_request_id, 1).serialize().value]
    );
    let approval = NetInfo::new(1, 2, 1, 102, datalink.our_join_request_id).serialize().value;
    let report = datalink.update(&vec![approval], 0);
    assert!(report.joined);
    assert_eq!(datalink.status, DatalinkStatus::Joined);
    assert_eq!(datalink.id, 1);
    assert_eq!(datalink.our_block, 1);
}

#[test]
fn update_draws_ids_that_vary() {
    let frame = NetInfo::new(0, 2, 1, 100, 255).serialize().value;
    let mut seen = Vec::new();
    for _ in 0..64 {
        let mut datalink = Datalink::new();
        datalink.update(&vec![frame], 0);
        if !seen.contains(&datalink.our_join_request_id) {
            seen.push(datalink.our_join_request_id);
        }
    }
    assert!(seen.len() > 1);
}

#[test]
fn a_newcomer_joins_a_host_over_the_air() {
    let mut ship = host();
    let mut missile = Datalink::new();
    // tick 0: the host states the network's state
    ship.update_with(&Vec::new(), 0);
    let on_air = ship.drain_outbox();
    assert_eq!(on_air, vec![NetInfo::new(0, 2, 0, 0, INVALID).serialize().value]);
    // the newcomer hears it and asks for block 0
    let heard: Vec<Heard> = on_air.iter().map(|f| Heard { frame: *f, request_id: 42 }).collect();
    missile.update_with(&heard, 0);
    let on_air = missile.drain_outbox();
    assert_eq!(on_air, vec![JoinRequest::new(42, 0).serialize().value]);
    // tick 1: the host hears the request; it is the host's own slot
    let heard: Vec<Heard> = on_air.iter().map(|f| Heard { frame: *f, request_id: 0 }).collect();
    ship.update_with(&heard, 0);
    assert_eq!(ship.blocks[0], block(0, &[0, 1]));
    assert!(ship.drain_outbox().is_empty());
    // tick 2: slot 0 again, the approval goes out
    ship.update_with(&Vec::new(), 0);
    let on_air = ship.drain_outbox();
    assert_eq!(on_air, vec![NetInfo::new(1, 2, 0, 2, 42).serialize().value]);
    let heard: Vec<Heard> = on_air.iter().map(|f| Heard { frame: *f, request_id: 43 }).collect();
    let report = missile.update_with(&heard, 0);
    assert!(report.joined);
    assert_eq!(missile.status, DatalinkStatus::Joined);
    assert_eq!(missile.id, 1);
    assert_eq!(missile.our_block, 0);
    assert_eq!(missile.tick, 4);
    assert_eq!(ship.tick, 3);
}

#[test]
fn only_a_net_info_that_does_not_approve_makes_a_participant_ask() {
    let net_info = Message::NetInfo(NetInfo::new(1, 2, 1, 100, 0x5a));
    let other = Message::JoinRequest(JoinRequest::new(1, 1));
    let mut datalink = Datalink::new();
    assert!(datalink.asks_to_join_on(&net_info));
    assert!(!datalink.asks_to_join_on(&other));
    datalink.handle_message(net_info, 0, 0x11);
    assert_eq!(datalink.status, DatalinkStatus::WaitingForId);
    assert!(datalink.asks_to_join_on(&net_info));
    datalink.our_join_request_id = 0x5a;
    assert!(!datalink.asks_to_join_on(&net_info));
    datalink.handle_message(net_info, 0, 0x12);
    assert_eq!(datalink.status, DatalinkStatus::Joined);
    assert!(!datalink.asks_to_join_on(&net_info));
    assert!(!host().asks_to_join_on(&net_info));
}

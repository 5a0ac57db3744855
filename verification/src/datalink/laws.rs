//! What holds of the datalink whatever it hears.

use super::datalink::{DatalinkStatus, Heard};
use super::fixed_point::FixedVector3;
use super::messages::join_request::JoinRequest;
use super::messages::message::{DatalinkMessage, Message};
use super::messages::track_id::TrackId;
use super::messages::track_info::ContactType;
use super::model::{
    asks_for, block_keys, client_keys, crunched, friend_keys, next_client_id, next_tick,
    track_keys, DatalinkView, TimeBlockView, BLOCK_CAPACITY, INVALID,
};
use super::search::lemma_first_match;
use vstd::prelude::*;

verus! {

/// A participant is made in a state of which the invariant holds.
pub proof fn lemma_initial_inv()
    ensures
        DatalinkView::initial().inv(),
{
}

/// The host starts as participant 0, joined, alone in block 0, with block 1
/// holding two placeholders, a cycle of two ticks, and block 1 to send in.
pub proof fn lemma_host_identity()
    ensures
        DatalinkView::initial().as_host().is_host,
        DatalinkView::initial().as_host().id == 0,
        DatalinkView::initial().as_host().status == DatalinkStatus::Joined,
        DatalinkView::initial().as_host().blocks == seq![
            TimeBlockView { index: 0, clients: seq![0u8] },
            TimeBlockView { index: 1, clients: seq![0u8, 0u8] },
        ],
        DatalinkView::initial().as_host().total_blocks == 2,
        DatalinkView::initial().as_host().our_block == 1,
        DatalinkView::initial().as_host().inv(),
{
    let host = DatalinkView::initial().as_host();
    assert(host.blocks =~~= seq![
        TimeBlockView { index: 0, clients: seq![0u8] },
        TimeBlockView { index: 1, clients: seq![0u8, 0u8] },
    ]);
}

/// Declaring the host keeps the invariant, whatever was there before.
pub proof fn lemma_host_keeps_inv(view: DatalinkView)
    requires
        view.inv(),
    ensures
        view.as_host().inv(),
{
    let host = view.as_host();
    assert forall|i: int| 0 <= i < host.blocks.len() implies (
    #[trigger] host.blocks[i]).clients.len() <= BLOCK_CAPACITY by {
        if i < view.blocks.len() {
            assert(host.blocks[i] == view.blocks[i]);
        }
    }
}

/// A join request aimed at a block that is full opens a new block with the
/// same index for the newcomer and leaves the full block as it is.
pub proof fn lemma_join_to_full_block(view: DatalinkView, join_request: JoinRequest)
    requires
        view.admits(),
        view.block_slot(join_request.block) < view.blocks.len(),
        view.blocks[view.block_slot(join_request.block)].clients.len() >= BLOCK_CAPACITY,
    ensures
        view.after_join_request(join_request).blocks == view.blocks.push(
            TimeBlockView {
                index: join_request.block,
                clients: seq![next_client_id(view.next_id)],
            },
        ),
        view.after_join_request(join_request).join_request_approve_id == join_request.request_id,
{
}

/// A join request aimed at a block with room puts the newcomer there, and
/// the number of blocks stays.
pub proof fn lemma_join_to_block_with_room(view: DatalinkView, join_request: JoinRequest)
    requires
        view.admits(),
        view.block_slot(join_request.block) < view.blocks.len(),
        view.blocks[view.block_slot(join_request.block)].clients.len() < BLOCK_CAPACITY,
    ensures
        view.after_join_request(join_request).blocks.len() == view.blocks.len(),
        view.after_join_request(join_request).blocks[view.block_slot(
            join_request.block,
        )].clients == view.blocks[view.block_slot(join_request.block)].clients.push(
            next_client_id(view.next_id),
        ),
        view.after_join_request(join_request).join_request_approve_id == join_request.request_id,
{
    lemma_first_match(block_keys(view.blocks), join_request.block as int);
}

/// While an approval waits to be broadcast, a join request changes nothing.
pub proof fn lemma_pending_approval_blocks(view: DatalinkView, join_request: JoinRequest)
    requires
        view.join_request_approve_id != INVALID,
    ensures
        view.after_join_request(join_request) == view,
{
}

/// Of two join requests that the host hears in a row, the second is
/// dropped, provided the first was not sent under the id that stands for
/// "none".
pub proof fn lemma_second_join_request_dropped(
    view: DatalinkView,
    first: JoinRequest,
    second: JoinRequest,
)
    requires
        view.admits(),
        first.request_id != INVALID,
    ensures
        view.after_join_request(first).join_request_approve_id == first.request_id,
        view.after_join_request(first).after_join_request(second) == view.after_join_request(
            first,
        ),
{
}

/// Once the host has stated the network's state, no approval is pending,
/// and the host takes join requests again.
pub proof fn lemma_broadcast_clears_approval(view: DatalinkView)
    requires
        view.is_host,
    ensures
        view.after_net_info_sent().admits(),
        view.after_net_info_sent().outbox == view.outbox.push(view.net_info().frame()),
{
}

/// Whatever message is heard, the invariant stays.
pub proof fn lemma_message_keeps_inv(view: DatalinkView, message: Message, now: u64, request_id: u8)
    requires
        view.inv(),
    ensures
        view.after_message(message, now, request_id).inv(),
{
    let after = view.after_message(message, now, request_id);
    match message {
        Message::JoinRequest(join_request) => {
            lemma_first_match(block_keys(view.blocks), join_request.block as int);
            assert forall|i: int| 0 <= i < after.blocks.len() implies (
            #[trigger] after.blocks[i]).clients.len() <= BLOCK_CAPACITY by {
                if i < view.blocks.len() {
                    assert(view.blocks[i].clients.len() <= BLOCK_CAPACITY);
                }
            }
        },
        Message::LeaveRequest(leave_network) => {
            lemma_first_match(block_keys(view.blocks), leave_network.block as int);
            let at = view.block_slot(leave_network.block);
            if at < view.blocks.len() {
                lemma_first_match(client_keys(view.blocks[at].clients), leave_network.id as int);
            }
            assert forall|i: int| 0 <= i < after.blocks.len() implies (
            #[trigger] after.blocks[i]).clients.len() <= BLOCK_CAPACITY by {
                assert(view.blocks[i].clients.len() <= BLOCK_CAPACITY);
            }
        },
        Message::TrackInfo(info) => {
            lemma_first_match(track_keys(view.tracks), info.track_id as int);
            lemma_track_touched(view, info.track_id, after);
        },
        Message::TrackPosition(update) => {
            lemma_first_match(track_keys(view.tracks), update.track_id as int);
            lemma_track_touched(view, update.track_id, after);
        },
        Message::TrackVelocity(update) => {
            lemma_first_match(track_keys(view.tracks), update.track_id as int);
            lemma_track_touched(view, update.track_id, after);
        },
        Message::IFFPosition(iff_pos) => {
            lemma_first_match(friend_keys(view.friendly_positions), iff_pos.dl_id as int);
            assert forall|i: int, j: int|
                0 <= i < j < after.friendly_positions.len() implies (
            #[trigger] after.friendly_positions[i]).dl_id != (
            #[trigger] after.friendly_positions[j]).dl_id by {
                if j < view.friendly_positions.len() {
                    assert(view.friendly_positions[i].dl_id != view.friendly_positions[j].dl_id);
                } else {
                    assert(friend_keys(view.friendly_positions)[i] != iff_pos.dl_id as int);
                }
            }
        },
        _ => {},
    }
}

/// A state that differs from `view` only in that the track with id
/// `track_id` was made, if need be, and written to, its id kept, still has
/// distinct track ids.
proof fn lemma_track_touched(view: DatalinkView, track_id: u16, after: DatalinkView)
    requires
        view.tracks_distinct(),
        after.tracks.len() == view.with_track(track_id).tracks.len(),
        forall|i: int|
            0 <= i < after.tracks.len() ==> (#[trigger] after.tracks[i]).track_id
                == view.with_track(track_id).tracks[i].track_id,
    ensures
        after.tracks_distinct(),
{
    let keys = track_keys(view.tracks);
    lemma_first_match(keys, track_id as int);
    let made = view.with_track(track_id);
    assert forall|i: int, j: int| 0 <= i < j < after.tracks.len() implies (
    #[trigger] after.tracks[i]).track_id != (#[trigger] after.tracks[j]).track_id by {
        assert(after.tracks[i].track_id == made.tracks[i].track_id);
        assert(after.tracks[j].track_id == made.tracks[j].track_id);
        if j < view.tracks.len() {
            assert(view.tracks[i].track_id != view.tracks[j].track_id);
        } else {
            assert(keys[i] != track_id as int);
        }
    }
}

/// Whatever frame is heard, the invariant stays.
pub proof fn lemma_packet_keeps_inv(view: DatalinkView, frame: u64, now: u64, request_id: u8)
    requires
        view.inv(),
    ensures
        view.after_packet(frame, now, request_id).inv(),
{
    match Message::decode(frame) {
        Ok(message) => lemma_message_keeps_inv(view, message, now, request_id),
        Err(_) => {},
    }
}

/// Whatever frames are heard, the invariant stays.
pub proof fn lemma_frames_keep_inv(view: DatalinkView, heard: Seq<Heard>, now: u64)
    requires
        view.inv(),
    ensures
        view.after_frames(heard, now).inv(),
    decreases heard.len(),
{
    if heard.len() > 0 {
        lemma_frames_keep_inv(view, heard.drop_last(), now);
        lemma_packet_keeps_inv(
            view.after_frames(heard.drop_last(), now),
            heard.last().frame,
            now,
            heard.last().request_id,
        );
    }
}

/// Taking the slot keeps the invariant.
pub proof fn lemma_slot_keeps_inv(view: DatalinkView, now: u64)
    requires
        view.inv(),
    ensures
        view.after_slot(now).inv(),
{
}

/// Tick after tick, whatever is heard: no block is ever over its capacity,
/// and the rest of the invariant stays as well.
pub proof fn lemma_tick_keeps_inv(view: DatalinkView, heard: Seq<Heard>, now: u64)
    requires
        view.inv(),
    ensures
        view.after_tick(heard, now).inv(),
        view.after_tick(heard, now).blocks_within_capacity(),
{
    lemma_frames_keep_inv(view, heard, now);
    lemma_slot_keeps_inv(view.after_frames(heard, now), now);
}

/// What the application does between ticks keeps the invariant: queueing
/// a message, taking what was heard, asking for a track id, noting what
/// its own sensors saw, asking to leave, emptying the outbox.
pub proof fn lemma_calls_keep_inv(
    view: DatalinkView,
    message: Message,
    contact_id: i64,
    contact_type: ContactType,
    position: FixedVector3,
    velocity: FixedVector3,
    now: u64,
)
    requires
        view.inv(),
    ensures
        view.with_message_sent(message).inv(),
        (DatalinkView { core_message_queue: Seq::empty(), ..view }).inv(),
        (DatalinkView { outbox: Seq::empty(), ..view }).inv(),
        (DatalinkView { disconnect_on_next_send: true, ..view }).inv(),
        view.after_net_id(contact_id).inv(),
        view.after_local_data(contact_id, contact_type, position, velocity, now).inv(),
{
    let asked = view.after_net_id(contact_id);
    match view.net_id(contact_id) {
        Some(track_id) => {
            lemma_first_match(track_keys(asked.tracks), track_id as int);
            lemma_track_touched(
                asked,
                track_id,
                view.after_local_data(contact_id, contact_type, position, velocity, now),
            );
        },
        None => {},
    }
}

/// In one tick a participant that is not the host hands the radio at
/// most one frame in its slot, the host at most two; and a frame only goes
/// out of the queue in the participant's own turn.
pub proof fn lemma_slot_sends_little(view: DatalinkView, now: u64)
    ensures
        view.outbox.len() <= view.after_slot(now).outbox.len(),
        view.is_host ==> view.after_slot(now).outbox.len() <= view.outbox.len() + 2,
        !view.is_host ==> view.after_slot(now).outbox.len() <= view.outbox.len() + 1,
        !view.before_turn(now).is_our_turn() ==> view.after_slot(now).message_queue
            == view.message_queue,
        view.after_slot(now).message_queue.len() + 1 >= view.message_queue.len(),
{
}

/// The id at hand for a join request matters only where a message makes
/// the participant ask to join.
pub proof fn lemma_request_id_only_for_asking(
    view: DatalinkView,
    message: Message,
    now: u64,
    one: u8,
    other: u8,
)
    requires
        !view.asks_to_join_on(message),
    ensures
        view.after_message(message, now, one) == view.after_message(message, now, other),
{
}

/// A participant that a `NetInfo` makes ask to join then waits under the id
/// it was given, for the block that the `NetInfo` advertised, and its
/// request is the next frame for the radio.
pub proof fn lemma_asking_to_join(view: DatalinkView, message: Message, now: u64, request_id: u8)
    requires
        view.asks_to_join_on(message),
    ensures
        message is NetInfo,
        view.after_message(message, now, request_id).status == DatalinkStatus::WaitingForId,
        view.after_message(message, now, request_id).our_join_request_id == request_id,
        view.after_message(message, now, request_id).our_request_block
            == message->NetInfo_0.next_free_block,
        view.after_message(message, now, request_id).outbox == view.outbox.push(
            (JoinRequest { request_id, block: message->NetInfo_0.next_free_block }).frame(),
        ),
{
}

/// A participant that waits joins on the `NetInfo` that carries its
/// approval: it takes the id from it and the block it asked for, and sends
/// nothing.
pub proof fn lemma_joining(view: DatalinkView, message: Message, now: u64, request_id: u8)
    requires
        message is NetInfo,
        view.is_approved_by(message->NetInfo_0),
    ensures
        view.after_message(message, now, request_id).status == DatalinkStatus::Joined,
        view.after_message(message, now, request_id).id == message->NetInfo_0.next_id,
        view.after_message(message, now, request_id).our_block == view.our_request_block,
        view.after_message(message, now, request_id).outbox == view.outbox,
{
}

/// How far a participant has come: it has not asked, it waits, it has
/// joined, it is gone.
pub open spec fn progress(status: DatalinkStatus) -> nat {
    match status {
        DatalinkStatus::NotJoined => 0,
        DatalinkStatus::WaitingForId => 1,
        DatalinkStatus::Joined => 2,
        DatalinkStatus::Disconnected => 3,
    }
}

/// Whatever message is heard, a participant never falls back: it goes from
/// not having asked to waiting, from waiting to joined, and no other way.
pub proof fn lemma_message_never_sets_back(
    view: DatalinkView,
    message: Message,
    now: u64,
    request_id: u8,
)
    ensures
        progress(view.status) <= progress(view.after_message(message, now, request_id).status),
        view.status == DatalinkStatus::Joined || view.status == DatalinkStatus::Disconnected
            ==> view.after_message(message, now, request_id).status == view.status,
        view.after_message(message, now, request_id).status != DatalinkStatus::Disconnected
            || view.status == DatalinkStatus::Disconnected,
{
    match message {
        Message::TrackInfo(info) => {
            lemma_first_match(track_keys(view.tracks), info.track_id as int);
        },
        Message::TrackPosition(update) => {
            lemma_first_match(track_keys(view.tracks), update.track_id as int);
        },
        Message::TrackVelocity(update) => {
            lemma_first_match(track_keys(view.tracks), update.track_id as int);
        },
        _ => {},
    }
}

/// Whatever frames are heard, a participant never falls back.
pub proof fn lemma_frames_never_set_back(view: DatalinkView, heard: Seq<Heard>, now: u64)
    ensures
        progress(view.status) <= progress(view.after_frames(heard, now).status),
    decreases heard.len(),
{
    if heard.len() > 0 {
        lemma_frames_never_set_back(view, heard.drop_last(), now);
        let before = view.after_frames(heard.drop_last(), now);
        match Message::decode(heard.last().frame) {
            Ok(message) => lemma_message_never_sets_back(
                before,
                message,
                now,
                heard.last().request_id,
            ),
            Err(_) => {},
        }
    }
}

/// Tick after tick a participant never falls back, and one that is gone
/// stays gone and unchanged: it hears nothing and sends nothing.
pub proof fn lemma_tick_never_sets_back(view: DatalinkView, heard: Seq<Heard>, now: u64)
    ensures
        progress(view.status) <= progress(view.after_tick(heard, now).status),
        view.status == DatalinkStatus::Disconnected ==> view.after_tick(heard, now) == view,
{
    lemma_frames_never_set_back(view, heard, now);
}

/// The length of the cycle is taken from the host's `NetInfo` and from
/// nothing else that is heard.
pub proof fn lemma_cycle_length_from_net_info(
    view: DatalinkView,
    message: Message,
    now: u64,
    request_id: u8,
)
    ensures
        match message {
            Message::NetInfo(net_info) => view.after_message(message, now, request_id).total_blocks
                == net_info.num_blocks && view.after_message(message, now, request_id).tick
                == next_tick(net_info.current_tick),
            _ => view.after_message(message, now, request_id).total_blocks == view.total_blocks
                && view.after_message(message, now, request_id).tick == view.tick,
        },
{
    match message {
        Message::TrackInfo(info) => {
            lemma_first_match(track_keys(view.tracks), info.track_id as int);
        },
        Message::TrackPosition(update) => {
            lemma_first_match(track_keys(view.tracks), update.track_id as int);
        },
        Message::TrackVelocity(update) => {
            lemma_first_match(track_keys(view.tracks), update.track_id as int);
        },
        _ => {},
    }
}

/// Taking its slot never changes the length of the cycle for a participant
/// that is not the host; the host sets it to the number of its blocks when
/// it states the network's state.
pub proof fn lemma_cycle_length_in_slot(view: DatalinkView, now: u64)
    ensures
        !view.is_host ==> view.after_slot(now).total_blocks == view.total_blocks,
        view.is_host_transmit_turn() ==> view.after_slot(now).total_blocks
            == view.blocks.len() as u8,
{
}

/// A participant that is not the host asks for a contact's track id once:
/// asking again while the request is queued changes nothing.
pub proof fn lemma_track_id_asked_once(view: DatalinkView, contact_id: i64)
    requires
        !view.is_host,
    ensures
        view.after_net_id(contact_id).net_id(contact_id) == view.net_id(contact_id),
        view.after_net_id(contact_id).after_net_id(contact_id) == view.after_net_id(contact_id),
        view.after_net_id(contact_id).message_queue.len() <= view.message_queue.len() + 1,
{
    let asked = view.after_net_id(contact_id);
    let contact = crunched(contact_id);
    if !view.id_map.contains_key(contact) && !asks_for(view.message_queue, contact) {
        let request = Message::TrackId(TrackId { track_id: 0, contact_id: contact });
        assert(asked.message_queue[view.message_queue.len() as int] == request);
        assert(asks_for(asked.message_queue, contact));
    }
}

/// On the host every contact has a track id: one that was unbound is bound
/// to the next id at once, and is found bound from then on.
pub proof fn lemma_host_resolves_at_once(view: DatalinkView, contact_id: i64)
    requires
        view.is_host,
    ensures
        view.net_id(contact_id) is Some,
        view.after_net_id(contact_id).net_id(contact_id) == view.net_id(contact_id),
        view.after_net_id(contact_id).after_net_id(contact_id) == view.after_net_id(contact_id),
{
}

/// Whether a moment is not before another; "never" is before every moment.
pub open spec fn not_before(later: Option<u64>, earlier: Option<u64>) -> bool {
    match (earlier, later) {
        (None, _) => true,
        (Some(_), None) => false,
        (Some(e), Some(l)) => e <= l,
    }
}

/// No clock of `view` is ahead of `now`.
pub open spec fn clocks_behind(view: DatalinkView, now: u64) -> bool {
    forall|i: int|
        0 <= i < view.tracks.len() ==> not_before(
            Some(now),
            (#[trigger] view.tracks[i]).last_update_timestamp,
        )
}

/// Tracks are never dropped nor renamed, and, heard at a time that is not
/// before their last update, their time of last update only moves forward.
pub proof fn lemma_tracks_move_forward(
    view: DatalinkView,
    message: Message,
    now: u64,
    request_id: u8,
)
    requires
        clocks_behind(view, now),
    ensures
        view.after_message(message, now, request_id).tracks.len() >= view.tracks.len(),
        forall|i: int|
            0 <= i < view.tracks.len() ==> (#[trigger] view.after_message(
                message,
                now,
                request_id,
            ).tracks[i]).track_id == view.tracks[i].track_id && not_before(
                view.after_message(message, now, request_id).tracks[i].last_update_timestamp,
                view.tracks[i].last_update_timestamp,
            ),
        clocks_behind(view.after_message(message, now, request_id), now),
{
    let after = view.after_message(message, now, request_id);
    match message {
        Message::TrackInfo(info) => {
            lemma_first_match(track_keys(view.tracks), info.track_id as int);
        },
        Message::TrackPosition(update) => {
            lemma_first_match(track_keys(view.tracks), update.track_id as int);
        },
        Message::TrackVelocity(update) => {
            lemma_first_match(track_keys(view.tracks), update.track_id as int);
        },
        _ => {},
    }
    assert forall|i: int| 0 <= i < after.tracks.len() implies not_before(
        Some(now),
        (#[trigger] after.tracks[i]).last_update_timestamp,
    ) by {
        if i < view.tracks.len() {
            assert(not_before(Some(now), view.tracks[i].last_update_timestamp));
        }
    }
}

} // verus!

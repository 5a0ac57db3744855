//! The datalink as a state machine over mathematical values.
//!
//! `DatalinkView` is what a `Datalink` holds, with lists as sequences and the
//! id table as a map. Every operation of the datalink is stated here as a
//! function from one view to the next; the executable code in `datalink` is
//! proved to follow it.

use super::datalink::{DatalinkStatus, DatalinkTrack, FriendlyPosition, Heard};
use super::fixed_point::{FixedVector3, POSITION_ZERO, VELOCITY_ZERO};
use super::messages::join_request::JoinRequest;
use super::messages::leave_network::LeaveNetwork;
use super::messages::message::{DatalinkMessage, Message};
use super::messages::net_info::NetInfo;
use super::messages::iff_pos::IFFPosition;
use super::messages::track_id::TrackId;
use super::messages::track_info::{ContactType, TrackInfo};
use super::messages::track_position::TrackPosition;
use super::messages::track_velocity::TrackVelocity;
use super::search::first_match;
use vstd::prelude::*;

verus! {

/// Stands for "none" wherever an id or a block is an 8-bit number.
pub const INVALID: u8 = 255;

/// How many clients share one block at most.
pub const BLOCK_CAPACITY: usize = 4;

/// A queue longer than this after a transmission is reported.
pub const QUEUE_WATERMARK: usize = 100;

/// Length in milliseconds of the window over which pushed messages are counted.
pub const COUNT_WINDOW: u64 = 1000;

/// What a `TickReport` holds.
#[verifier::ext_equal]
pub struct TickReportView {
    pub dropped: Seq<u64>,
    pub joined: bool,
    pub queue_excess: bool,
}

/// A block of the cycle with the clients that send in it.
#[verifier::ext_equal]
pub struct TimeBlockView {
    pub index: u8,
    pub clients: Seq<u8>,
}

/// The tick after `tick`; the counter has 32 bits and starts over after the last.
pub open spec fn next_tick(tick: u32) -> u32 {
    if tick == 0xffff_ffff {
        0
    } else {
        (tick + 1) as u32
    }
}

/// The id after `id`; ids have 8 bits and start over after the last.
pub open spec fn next_client_id(id: u8) -> u8 {
    if id == 255 {
        0
    } else {
        (id + 1) as u8
    }
}

/// The track id after `id`; track ids have 16 bits and start over after the last.
pub open spec fn next_track_id(id: u16) -> u16 {
    if id == 0xffff {
        0
    } else {
        (id + 1) as u16
    }
}

/// A count one higher, stopping at the largest.
pub open spec fn counted_up(count: u32) -> u32 {
    if count == 0xffff_ffff {
        count
    } else {
        (count + 1) as u32
    }
}

/// The upper 32 bits of a contact's 64-bit id, by which the network knows it.
pub open spec fn crunched(contact_id: i64) -> u32 {
    (contact_id >> 32) as u32
}

/// In numbers, crunching takes the id as a 64-bit pattern, that is modulo
/// two to the 64th, and divides it by two to the 32nd.
pub proof fn lemma_crunched_is_upper_half(contact_id: i64)
    ensures
        crunched(contact_id) == ((contact_id as int) % 0x1_0000_0000_0000_0000)
            / 0x1_0000_0000,
{
    assert(crunched(contact_id) == ((contact_id as int) % 0x1_0000_0000_0000_0000)
        / 0x1_0000_0000) by (bit_vector);
}

/// The indices of the blocks, in order.
pub open spec fn block_keys(blocks: Seq<TimeBlockView>) -> Seq<int> {
    Seq::new(blocks.len(), |i: int| blocks[i].index as int)
}

/// For each block 1 where it has room for one more client, else 0.
pub open spec fn room_flags(blocks: Seq<TimeBlockView>) -> Seq<int> {
    Seq::new(
        blocks.len(),
        |i: int|
            if blocks[i].clients.len() < BLOCK_CAPACITY {
                1int
            } else {
                0int
            },
    )
}

/// The clients of a block as keys.
pub open spec fn client_keys(clients: Seq<u8>) -> Seq<int> {
    Seq::new(clients.len(), |i: int| clients[i] as int)
}

/// The track ids of the tracks, in order.
pub open spec fn track_keys(tracks: Seq<DatalinkTrack>) -> Seq<int> {
    Seq::new(tracks.len(), |i: int| tracks[i].track_id as int)
}

/// The ids of the participants whose position is known, in order.
pub open spec fn friend_keys(friends: Seq<FriendlyPosition>) -> Seq<int> {
    Seq::new(friends.len(), |i: int| friends[i].dl_id as int)
}

/// Whether some queued message is a `TrackId` for the contact.
pub open spec fn asks_for(queue: Seq<Message>, contact_id: u32) -> bool {
    exists|i: int|
        0 <= i < queue.len() && (#[trigger] queue[i] matches Message::TrackId(t) && t.contact_id
            == contact_id)
}

/// The tracks that are ships, in the order of the list.
pub open spec fn ship_tracks(tracks: Seq<DatalinkTrack>) -> Seq<DatalinkTrack>
    decreases tracks.len(),
{
    if tracks.len() == 0 {
        Seq::empty()
    } else if tracks.last().contact_type == ContactType::SpaceBattleShip {
        ship_tracks(tracks.drop_last()).push(tracks.last())
    } else {
        ship_tracks(tracks.drop_last())
    }
}

/// The frames of a batch that name no known kind, in the order of arrival.
pub open spec fn unknown_frames(heard: Seq<Heard>) -> Seq<u64>
    decreases heard.len(),
{
    if heard.len() == 0 {
        Seq::empty()
    } else if Message::decode(heard.last().frame) is Err {
        unknown_frames(heard.drop_last()).push(heard.last().frame)
    } else {
        unknown_frames(heard.drop_last())
    }
}

/// The frames of a batch, in the order of arrival.
pub open spec fn frames_of(heard: Seq<Heard>) -> Seq<u64> {
    Seq::new(heard.len(), |i: int| heard[i].frame)
}

/// A track of which nothing is known yet but its id: at the origin, at
/// rest, taken for a friend, never updated.
pub open spec fn fresh_track(track_id: u16) -> DatalinkTrack {
    DatalinkTrack {
        track_id,
        contact_id: 0,
        contact_type: ContactType::Invalid,
        position: FixedVector3 { x: POSITION_ZERO, y: POSITION_ZERO, z: POSITION_ZERO },
        velocity: FixedVector3 { x: VELOCITY_ZERO, y: VELOCITY_ZERO, z: VELOCITY_ZERO },
        last_update_timestamp: None,
        is_allied: true,
    }
}

/// What a `Datalink` holds.
#[verifier::ext_equal]
pub struct DatalinkView {
    pub status: DatalinkStatus,
    pub blocks: Seq<TimeBlockView>,
    pub join_request_approve_id: u8,
    pub our_join_request_id: u8,
    pub our_request_block: u8,
    pub id: u8,
    pub total_blocks: u8,
    pub our_block: u8,
    pub next_free_block: u8,
    pub message_queue: Seq<Message>,
    pub core_message_queue: Seq<Message>,
    pub disconnect_on_next_send: bool,
    pub id_map: Map<u32, u16>,
    pub next_track_id: u16,
    pub next_id: u8,
    pub tracks: Seq<DatalinkTrack>,
    pub friendly_positions: Seq<FriendlyPosition>,
    pub is_host: bool,
    pub tick: u32,
    pub messages_pushed_last_second: u32,
    pub prev_mpls: u32,
    pub last_count_reset_time: u64,
    pub outbox: Seq<u64>,
}

impl DatalinkView {
    /// A participant that has heard nothing yet.
    pub open spec fn initial() -> DatalinkView {
        DatalinkView {
            status: DatalinkStatus::NotJoined,
            blocks: Seq::empty(),
            join_request_approve_id: INVALID,
            our_join_request_id: INVALID,
            our_request_block: INVALID,
            id: INVALID,
            total_blocks: 0,
            our_block: 0,
            next_free_block: INVALID,
            message_queue: Seq::empty(),
            core_message_queue: Seq::empty(),
            disconnect_on_next_send: false,
            id_map: Map::empty(),
            next_track_id: 0,
            next_id: 0,
            tracks: Seq::empty(),
            friendly_positions: Seq::empty(),
            is_host: false,
            tick: 0,
            messages_pushed_last_second: 0,
            prev_mpls: 0,
            last_count_reset_time: 0,
            outbox: Seq::empty(),
        }
    }

    /// No block holds more clients than a block may.
    pub open spec fn blocks_within_capacity(self) -> bool {
        forall|i: int|
            0 <= i < self.blocks.len() ==> (#[trigger] self.blocks[i]).clients.len()
                <= BLOCK_CAPACITY
    }

    /// No two tracks have the same id.
    pub open spec fn tracks_distinct(self) -> bool {
        forall|i: int, j: int|
            0 <= i < j < self.tracks.len() ==> (#[trigger] self.tracks[i]).track_id != (
            #[trigger] self.tracks[j]).track_id
    }

    /// No participant's position is noted twice.
    pub open spec fn friends_distinct(self) -> bool {
        forall|i: int, j: int|
            0 <= i < j < self.friendly_positions.len() ==> (
            #[trigger] self.friendly_positions[i]).dl_id != (
            #[trigger] self.friendly_positions[j]).dl_id
    }

    /// What holds of a datalink from its making on, tick after tick: no
    /// block is over its capacity, a track id names one track, a participant
    /// has one known position, and the host is participant 0 and has joined.
    pub open spec fn inv(self) -> bool {
        &&& self.blocks_within_capacity()
        &&& self.tracks_distinct()
        &&& self.friends_distinct()
        &&& self.is_host ==> self.id == 0 && (self.status == DatalinkStatus::Joined || self.status
            == DatalinkStatus::Disconnected)
    }

    /// The host becomes participant 0 with block 0 to itself; block 1 waits
    /// for newcomers with two placeholders in it. The host sends in block 1.
    pub open spec fn as_host(self) -> DatalinkView {
        DatalinkView {
            id: 0,
            status: DatalinkStatus::Joined,
            blocks: self.blocks.push(TimeBlockView { index: 0, clients: seq![0u8] }).push(
                TimeBlockView { index: 1, clients: seq![0u8, 0u8] },
            ),
            total_blocks: 2,
            our_block: 1,
            is_host: true,
            ..self
        }
    }

    /// The participant's turn comes when the tick, modulo the length of the
    /// cycle, is its block. There is no turn while the cycle has no length.
    pub open spec fn is_our_turn(self) -> bool {
        self.total_blocks != 0 && self.our_block as int == self.tick as int
            % self.total_blocks as int
    }

    /// The host states the network's state on slot 0 of every cycle.
    pub open spec fn is_host_transmit_turn(self) -> bool {
        self.is_host && self.total_blocks != 0 && self.tick as int % self.total_blocks as int == 0
    }

    /// One more frame handed to the radio.
    pub open spec fn transmitted(self, frame: u64) -> DatalinkView {
        DatalinkView { outbox: self.outbox.push(frame), ..self }
    }

    /// One more message waits for the participant's turn.
    pub open spec fn with_message_sent(self, message: Message) -> DatalinkView {
        DatalinkView {
            message_queue: self.message_queue.push(message),
            messages_pushed_last_second: counted_up(self.messages_pushed_last_second),
            ..self
        }
    }

    /// The block that the host advertises to newcomers: the index of the
    /// first block with room, or, where every block is full or that index
    /// is 255, the number of blocks (its lowest 8 bits).
    pub open spec fn advertised_free_block(self) -> u8 {
        let at = first_match(room_flags(self.blocks), 1);
        if at < self.blocks.len() && self.blocks[at].index != INVALID {
            self.blocks[at].index
        } else {
            self.blocks.len() as u8
        }
    }

    /// The `NetInfo` that the host would send now.
    pub open spec fn net_info(self) -> NetInfo {
        NetInfo {
            next_id: self.next_id,
            num_blocks: self.total_blocks,
            next_free_block: self.advertised_free_block(),
            current_tick: self.tick,
            join_request_approve_id: self.join_request_approve_id,
        }
    }

    /// The host has stated the network's state: the approval it carried is
    /// no longer pending, and the cycle is as long as there are blocks.
    pub open spec fn after_net_info_sent(self) -> DatalinkView {
        DatalinkView {
            join_request_approve_id: INVALID,
            total_blocks: self.blocks.len() as u8,
            ..self.transmitted(self.net_info().frame())
        }
    }

    /// A join request under `request_id` has gone out for the block that the
    /// host advertised last.
    pub open spec fn after_join_request_sent(self, request_id: u8) -> DatalinkView {
        DatalinkView {
            our_join_request_id: request_id,
            our_request_block: self.next_free_block,
            status: DatalinkStatus::WaitingForId,
            ..self.transmitted(
                (JoinRequest { request_id, block: self.next_free_block }).frame(),
            )
        }
    }

    /// Whether a `NetInfo` carries the approval that a waiting participant
    /// is waiting for.
    pub open spec fn is_approved_by(self, net_info: NetInfo) -> bool {
        self.status == DatalinkStatus::WaitingForId && net_info.join_request_approve_id
            == self.our_join_request_id
    }

    /// Whether hearing `message` makes the participant ask to join: it is
    /// a `NetInfo`, and the participant has not asked yet or waits for
    /// another approval than the one it carries.
    pub open spec fn asks_to_join_on(self, message: Message) -> bool {
        message matches Message::NetInfo(net_info) && (self.status == DatalinkStatus::NotJoined
            || (self.status == DatalinkStatus::WaitingForId && !self.is_approved_by(net_info)))
    }

    /// A `NetInfo` was heard. Everyone takes the cycle's length, the tick
    /// after the host's and the advertised block from it. A participant that
    /// waits for the approval it carries has joined, under the id it
    /// carries and in the block it asked for. One that waits for another,
    /// or has not asked yet, asks under `request_id`.
    pub open spec fn after_net_info(self, net_info: NetInfo, request_id: u8) -> DatalinkView {
        let synced = DatalinkView {
            total_blocks: net_info.num_blocks,
            tick: next_tick(net_info.current_tick),
            next_free_block: net_info.next_free_block,
            ..self
        };
        match self.status {
            DatalinkStatus::WaitingForId => if self.is_approved_by(net_info) {
                DatalinkView {
                    status: DatalinkStatus::Joined,
                    id: net_info.next_id,
                    our_block: self.our_request_block,
                    ..synced
                }
            } else {
                synced.after_join_request_sent(request_id)
            },
            DatalinkStatus::NotJoined => synced.after_join_request_sent(request_id),
            _ => synced,
        }
    }

    /// The position among the blocks of the first with index `index`, or the
    /// number of blocks where there is none.
    pub open spec fn block_slot(self, index: u8) -> int {
        first_match(block_keys(self.blocks), index as int)
    }

    /// Whether the host takes a join request: it is the host, and no
    /// approval waits to be broadcast.
    pub open spec fn admits(self) -> bool {
        self.is_host && self.join_request_approve_id == INVALID
    }

    /// A join request was heard. Only a host that has no approval pending
    /// takes it; anyone else is left as it was. The newcomer gets the id
    /// after the last one given. It goes into the first block with the index
    /// asked for if that block has room; else a new block with that index
    /// is added for it. The approval is then pending.
    pub open spec fn after_join_request(self, join_request: JoinRequest) -> DatalinkView {
        if !self.admits() {
            self
        } else {
            let new_id = next_client_id(self.next_id);
            let at = self.block_slot(join_request.block);
            let blocks = if at < self.blocks.len() && self.blocks[at].clients.len()
                < BLOCK_CAPACITY {
                self.blocks.update(
                    at,
                    TimeBlockView {
                        index: self.blocks[at].index,
                        clients: self.blocks[at].clients.push(new_id),
                    },
                )
            } else {
                self.blocks.push(TimeBlockView { index: join_request.block, clients: seq![new_id] })
            };
            DatalinkView {
                blocks,
                join_request_approve_id: join_request.request_id,
                next_id: new_id,
                ..self
            }
        }
    }

    /// Client `id` has left the first block with index `block`: its first
    /// entry there is gone. Without such a block or entry nothing changes.
    pub open spec fn without_client(self, block: u8, id: u8) -> DatalinkView {
        let at = self.block_slot(block);
        if at < self.blocks.len() {
            let clients = self.blocks[at].clients;
            let entry = first_match(client_keys(clients), id as int);
            if entry < clients.len() {
                DatalinkView {
                    blocks: self.blocks.update(
                        at,
                        TimeBlockView {
                            index: self.blocks[at].index,
                            clients: clients.remove(entry),
                        },
                    ),
                    ..self
                }
            } else {
                self
            }
        } else {
            self
        }
    }

    /// A leave notice was heard: the host strikes the client from its block.
    pub open spec fn after_leave(self, leave_network: LeaveNetwork) -> DatalinkView {
        if self.is_host {
            self.without_client(leave_network.block, leave_network.id)
        } else {
            self
        }
    }

    /// A `TrackId` was heard. With a track id above 0 it is a binding, and
    /// everyone notes it. With track id 0 it is a request: the host binds the
    /// contact to its next track id and queues the binding as its answer.
    pub open spec fn after_track_id(self, packet: TrackId) -> DatalinkView {
        if packet.track_id > 0 {
            DatalinkView { id_map: self.id_map.insert(packet.contact_id, packet.track_id), ..self }
        } else if self.is_host {
            DatalinkView {
                id_map: self.id_map.insert(packet.contact_id, self.next_track_id),
                next_track_id: next_track_id(self.next_track_id),
                message_queue: self.message_queue.push(
                    Message::TrackId(
                        TrackId { track_id: self.next_track_id, contact_id: packet.contact_id },
                    ),
                ),
                ..self
            }
        } else {
            self
        }
    }

    /// The position among the tracks of the first with id `track_id`, or the
    /// number of tracks where there is none.
    pub open spec fn track_slot(self, track_id: u16) -> int {
        first_match(track_keys(self.tracks), track_id as int)
    }

    /// The first track with id `track_id`, if there is one.
    pub open spec fn track(self, track_id: u16) -> Option<DatalinkTrack> {
        if self.track_slot(track_id) < self.tracks.len() {
            Some(self.tracks[self.track_slot(track_id)])
        } else {
            None
        }
    }

    /// The same with a fresh track for `track_id` at the end of the list,
    /// unless the list has a track with that id already.
    pub open spec fn with_track(self, track_id: u16) -> DatalinkView {
        if self.track_slot(track_id) < self.tracks.len() {
            self
        } else {
            DatalinkView { tracks: self.tracks.push(fresh_track(track_id)), ..self }
        }
    }

    /// The same with the track at `slot` replaced.
    pub open spec fn with_track_at(self, slot: int, track: DatalinkTrack) -> DatalinkView {
        DatalinkView { tracks: self.tracks.update(slot, track), ..self }
    }

    /// A `TrackInfo` was heard: the track, made if need be, takes the
    /// contact, its type and its allegiance from it.
    pub open spec fn after_track_info(self, info: TrackInfo) -> DatalinkView {
        let made = self.with_track(info.track_id);
        let slot = self.track_slot(info.track_id);
        made.with_track_at(
            slot,
            DatalinkTrack {
                contact_id: info.contact_id,
                contact_type: info.contact_type,
                is_allied: info.is_allied,
                ..made.tracks[slot]
            },
        )
    }

    /// A `TrackPosition` was heard at `now`: the track, made if need be,
    /// takes the position and the time.
    pub open spec fn after_track_position(self, update: TrackPosition, now: u64) -> DatalinkView {
        let made = self.with_track(update.track_id);
        let slot = self.track_slot(update.track_id);
        made.with_track_at(
            slot,
            DatalinkTrack {
                position: update.position,
                last_update_timestamp: Some(now),
                ..made.tracks[slot]
            },
        )
    }

    /// A `TrackVelocity` was heard at `now`: the track, made if need be,
    /// takes the velocity and the time.
    pub open spec fn after_track_velocity(self, update: TrackVelocity, now: u64) -> DatalinkView {
        let made = self.with_track(update.track_id);
        let slot = self.track_slot(update.track_id);
        made.with_track_at(
            slot,
            DatalinkTrack {
                velocity: update.velocity,
                last_update_timestamp: Some(now),
                ..made.tracks[slot]
            },
        )
    }

    /// An `IFFPosition` was heard: the sender's known position is replaced,
    /// or noted at the end of the list where none was known.
    pub open spec fn after_iff_position(self, iff_pos: IFFPosition) -> DatalinkView {
        let at = first_match(friend_keys(self.friendly_positions), iff_pos.dl_id as int);
        if at < self.friendly_positions.len() {
            DatalinkView {
                friendly_positions: self.friendly_positions.update(
                    at,
                    FriendlyPosition { position: iff_pos.position, dl_id: iff_pos.dl_id },
                ),
                ..self
            }
        } else {
            DatalinkView {
                friendly_positions: self.friendly_positions.push(
                    FriendlyPosition { position: iff_pos.position, dl_id: iff_pos.dl_id },
                ),
                ..self
            }
        }
    }

    /// A message was heard at `now`. The network's own kinds are acted on;
    /// the others are kept for the application, in the order of arrival.
    pub open spec fn after_message(self, message: Message, now: u64, request_id: u8)
        -> DatalinkView {
        match message {
            Message::NetInfo(net_info) => self.after_net_info(net_info, request_id),
            Message::JoinRequest(join_request) => self.after_join_request(join_request),
            Message::TrackId(track_id) => self.after_track_id(track_id),
            Message::LeaveRequest(leave_network) => self.after_leave(leave_network),
            Message::TrackInfo(info) => self.after_track_info(info),
            Message::TrackPosition(update) => self.after_track_position(update, now),
            Message::TrackVelocity(update) => self.after_track_velocity(update, now),
            Message::IFFPosition(iff_pos) => self.after_iff_position(iff_pos),
            _ => DatalinkView {
                core_message_queue: self.core_message_queue.push(message),
                ..self
            },
        }
    }

    /// A frame was heard at `now`. A frame of no known kind changes nothing.
    pub open spec fn after_packet(self, frame: u64, now: u64, request_id: u8) -> DatalinkView {
        match Message::decode(frame) {
            Ok(message) => self.after_message(message, now, request_id),
            Err(_) => self,
        }
    }

    /// The frames of one tick were heard at `now`, in order.
    pub open spec fn after_frames(self, heard: Seq<Heard>, now: u64) -> DatalinkView
        decreases heard.len(),
    {
        if heard.len() == 0 {
            self
        } else {
            self.after_frames(heard.drop_last(), now).after_packet(
                heard.last().frame,
                now,
                heard.last().request_id,
            )
        }
    }

    /// The count of pushed messages starts over once its window has passed.
    pub open spec fn with_count_rolled(self, now: u64) -> DatalinkView {
        if now - self.last_count_reset_time > COUNT_WINDOW {
            DatalinkView {
                prev_mpls: self.messages_pushed_last_second,
                messages_pushed_last_second: 0,
                last_count_reset_time: now,
                ..self
            }
        } else {
            self
        }
    }

    /// The participant has said goodbye in its turn and is gone for good.
    pub open spec fn after_goodbye(self) -> DatalinkView {
        DatalinkView {
            status: DatalinkStatus::Disconnected,
            ..self.transmitted((LeaveNetwork { block: self.our_block, id: self.id }).frame())
        }
    }

    /// The oldest queued message, if there is one, has gone out.
    pub open spec fn after_queue_served(self) -> DatalinkView {
        if self.message_queue.len() > 0 {
            DatalinkView {
                message_queue: self.message_queue.skip(1),
                ..self.transmitted(self.message_queue[0].frame())
            }
        } else {
            self
        }
    }

    /// A joined participant before its own turn: the count of pushed
    /// messages is rolled, and the host has stated the network's state if
    /// this is the slot for it.
    pub open spec fn before_turn(self, now: u64) -> DatalinkView {
        let counted = self.with_count_rolled(now);
        if counted.is_host_transmit_turn() {
            counted.after_net_info_sent()
        } else {
            counted
        }
    }

    /// What a joined participant does once the tick's frames are heard: the
    /// host states the network's state on its slot; in the participant's
    /// own turn it says goodbye if it was told to leave, else it sends the
    /// oldest queued message; unless it said goodbye, the tick advances.
    pub open spec fn after_slot(self, now: u64) -> DatalinkView {
        let stated = self.before_turn(now);
        if stated.is_our_turn() {
            if stated.disconnect_on_next_send {
                stated.after_goodbye()
            } else {
                DatalinkView { tick: next_tick(stated.tick), ..stated.after_queue_served() }
            }
        } else {
            DatalinkView { tick: next_tick(stated.tick), ..stated }
        }
    }

    /// Whether a joined participant serves its queue in this tick and still
    /// has more than `QUEUE_WATERMARK` messages waiting after that.
    pub open spec fn queue_excess_in_slot(self, now: u64) -> bool {
        let stated = self.before_turn(now);
        stated.is_our_turn() && !stated.disconnect_on_next_send
            && stated.after_queue_served().message_queue.len() > QUEUE_WATERMARK
    }

    /// One tick at `now` with `heard` heard. A participant that is gone
    /// does nothing. Anyone else hears the frames; one that has joined, be
    /// it by those frames, then takes its slot.
    pub open spec fn after_tick(self, heard: Seq<Heard>, now: u64) -> DatalinkView {
        if self.status == DatalinkStatus::Disconnected {
            self
        } else {
            let informed = self.after_frames(heard, now);
            if informed.status == DatalinkStatus::Joined {
                informed.after_slot(now)
            } else {
                informed
            }
        }
    }

    /// Whether the participant joined the network in this tick.
    pub open spec fn joins_in_tick(self, heard: Seq<Heard>, now: u64) -> bool {
        self.status != DatalinkStatus::Disconnected && self.status != DatalinkStatus::Joined
            && self.after_frames(heard, now).status == DatalinkStatus::Joined
    }

    /// Whether the participant served its queue in this tick and still has
    /// more than `QUEUE_WATERMARK` messages waiting after that.
    pub open spec fn queue_excess_in_tick(self, heard: Seq<Heard>, now: u64) -> bool {
        let informed = self.after_frames(heard, now);
        self.status != DatalinkStatus::Disconnected && informed.status == DatalinkStatus::Joined
            && informed.queue_excess_in_slot(now)
    }

    /// The frames of this tick that were dropped for naming no known kind.
    pub open spec fn dropped_in_tick(self, heard: Seq<Heard>) -> Seq<u64> {
        if self.status == DatalinkStatus::Disconnected {
            Seq::empty()
        } else {
            unknown_frames(heard)
        }
    }

    /// What a tick leaves behind besides the state.
    pub open spec fn report_of_tick(self, heard: Seq<Heard>, now: u64) -> TickReportView {
        TickReportView {
            dropped: self.dropped_in_tick(heard),
            joined: self.joins_in_tick(heard, now),
            queue_excess: self.queue_excess_in_tick(heard, now),
        }
    }

    /// The track id of the network for a contact, as far as it is known:
    /// the one bound to it, or on the host the next one to give out.
    pub open spec fn net_id(self, contact_id: i64) -> Option<u16> {
        let contact = crunched(contact_id);
        if self.id_map.contains_key(contact) {
            Some(self.id_map[contact])
        } else if self.is_host {
            Some(self.next_track_id)
        } else {
            None
        }
    }

    /// Asking for a contact's track id leaves its mark: the host binds an
    /// unbound contact to its next track id; anyone else queues a request
    /// for it, unless a `TrackId` for the contact is queued already.
    pub open spec fn after_net_id(self, contact_id: i64) -> DatalinkView {
        let contact = crunched(contact_id);
        if self.id_map.contains_key(contact) {
            self
        } else if self.is_host {
            DatalinkView {
                id_map: self.id_map.insert(contact, self.next_track_id),
                next_track_id: next_track_id(self.next_track_id),
                ..self
            }
        } else if asks_for(self.message_queue, contact) {
            self
        } else {
            DatalinkView {
                message_queue: self.message_queue.push(
                    Message::TrackId(TrackId { track_id: 0, contact_id: contact }),
                ),
                ..self
            }
        }
    }

    /// The participant's own sensors saw a contact at `now`. Where its
    /// track id is known, the track, made if need be, takes all of it.
    /// Where it is not, only the request for the id is left behind.
    pub open spec fn after_local_data(
        self,
        contact_id: i64,
        contact_type: ContactType,
        position: FixedVector3,
        velocity: FixedVector3,
        now: u64,
    ) -> DatalinkView {
        let asked = self.after_net_id(contact_id);
        match self.net_id(contact_id) {
            None => asked,
            Some(track_id) => {
                let made = asked.with_track(track_id);
                let slot = asked.track_slot(track_id);
                made.with_track_at(
                    slot,
                    DatalinkTrack {
                        contact_id: crunched(contact_id),
                        contact_type,
                        position,
                        velocity,
                        last_update_timestamp: Some(now),
                        ..made.tracks[slot]
                    },
                )
            },
        }
    }

    /// Where participant 0, the host, last said it was.
    pub open spec fn ship_position(self) -> Option<FixedVector3> {
        let at = first_match(friend_keys(self.friendly_positions), 0);
        if at < self.friendly_positions.len() {
            Some(self.friendly_positions[at].position)
        } else {
            None
        }
    }
}

} // verus!

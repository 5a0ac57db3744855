//! The datalink of one participant: what it holds and what it does.

use super::fixed_point::{FixedVector3, POSITION_ZERO, VELOCITY_ZERO};
use super::messages::iff_pos::IFFPosition;
use super::messages::join_request::JoinRequest;
use super::messages::leave_network::LeaveNetwork;
use super::messages::message::{DatalinkMessage, Message, UnknownMessageKind};
use super::messages::net_info::NetInfo;
use super::messages::track_id::TrackId;
use super::messages::track_info::ContactType;
use super::model::{
    asks_for, block_keys, client_keys, crunched, fresh_track, friend_keys, next_client_id,
    frames_of, room_flags, ship_tracks, track_keys, unknown_frames, DatalinkView,
    TickReportView, TimeBlockView, BLOCK_CAPACITY, COUNT_WINDOW, INVALID, QUEUE_WATERMARK,
};
use super::search::{first_match, lemma_first_match, lemma_first_match_is};
use std::collections::HashMap;
use vstd::prelude::*;

verus! {

/// What the network knows of a contact.
#[derive(Clone, Copy, Debug, PartialEq, Eq)]
pub struct DatalinkTrack {
    pub track_id: u16,
    pub contact_id: u32,
    pub contact_type: ContactType,
    /// Scaled as the positions on the link are.
    pub position: FixedVector3,
    /// Scaled as the velocities on the link are.
    pub velocity: FixedVector3,
    /// When position or velocity was last heard, in milliseconds; `None`
    /// until then.
    pub last_update_timestamp: Option<u64>,
    pub is_allied: bool,
}

impl DatalinkTrack {
    /// A track of which nothing is known yet but its id.
    pub fn new(track_id: u16) -> (track: DatalinkTrack)
        ensures
            track == fresh_track(track_id),
    {
        DatalinkTrack {
            track_id,
            contact_id: 0,
            contact_type: ContactType::Invalid,
            position: FixedVector3::new(POSITION_ZERO, POSITION_ZERO, POSITION_ZERO),
            velocity: FixedVector3::new(VELOCITY_ZERO, VELOCITY_ZERO, VELOCITY_ZERO),
            last_update_timestamp: None,
            is_allied: true,
        }
    }

    /// Takes a position heard at `now`.
    pub fn update_position(&mut self, position: FixedVector3, now: u64)
        ensures
            *final(self) == (DatalinkTrack {
                position,
                last_update_timestamp: Some(now),
                ..*old(self)
            }),
    {
        self.position = position;
        self.last_update_timestamp = Some(now);
    }

    /// Takes a velocity heard at `now`.
    pub fn update_velocity(&mut self, velocity: FixedVector3, now: u64)
        ensures
            *final(self) == (DatalinkTrack {
                velocity,
                last_update_timestamp: Some(now),
                ..*old(self)
            }),
    {
        self.velocity = velocity;
        self.last_update_timestamp = Some(now);
    }
}

/// Where a participant stands with the network.
#[derive(Clone, Copy, Debug, PartialEq, Eq, Structural)]
pub enum DatalinkStatus {
    /// Has not asked to join yet.
    NotJoined,
    /// Has asked and waits for the host's approval.
    WaitingForId,
    Joined,
    /// Has left; nothing is heard or sent any more.
    Disconnected,
}

/// A block of the cycle with the clients that send in it.
#[derive(Debug, PartialEq, Eq)]
pub struct TimeBlock {
    pub index: u8,
    pub clients: Vec<u8>,
}

impl View for TimeBlock {
    type V = TimeBlockView;

    open spec fn view(&self) -> TimeBlockView {
        TimeBlockView { index: self.index, clients: self.clients@ }
    }
}

impl TimeBlock {
    /// An empty block.
    pub fn new(index: u8) -> (block: TimeBlock)
        ensures
            block@ == (TimeBlockView { index, clients: Seq::empty() }),
    {
        TimeBlock { index, clients: Vec::new() }
    }
}

/// Where a participant last said it was.
#[derive(Clone, Copy, Debug, PartialEq, Eq)]
pub struct FriendlyPosition {
    pub position: FixedVector3,
    pub dl_id: u8,
}

/// The blocks of a list seen as values.
pub open spec fn block_views(blocks: Seq<TimeBlock>) -> Seq<TimeBlockView> {
    Seq::new(blocks.len(), |i: int| blocks[i]@)
}

/// A frame as it was heard, with the id under which the participant asks
/// to join should the frame lead it to ask.
#[derive(Clone, Copy, Debug, PartialEq, Eq)]
pub struct Heard {
    pub frame: u64,
    pub request_id: u8,
}

/// What a tick brought besides the frames for the radio.
#[derive(Debug)]
pub struct TickReport {
    /// Frames that were dropped because their first four bits name no kind.
    pub dropped: Vec<u64>,
    /// The participant joined the network in this tick.
    pub joined: bool,
    /// The queue was served and is still longer than `QUEUE_WATERMARK`.
    pub queue_excess: bool,
}

impl View for TickReport {
    type V = TickReportView;

    open spec fn view(&self) -> TickReportView {
        TickReportView {
            dropped: self.dropped@,
            joined: self.joined,
            queue_excess: self.queue_excess,
        }
    }
}

/// This participant's end of the network.
pub struct Datalink {
    pub status: DatalinkStatus,
    pub blocks: Vec<TimeBlock>,
    /// The join request that waits to be announced, or `INVALID`.
    pub join_request_approve_id: u8,
    pub our_join_request_id: u8,
    pub our_request_block: u8,
    pub id: u8,
    pub total_blocks: u8,
    pub our_block: u8,
    pub next_free_block: u8,
    /// Messages that wait for the participant's turn, oldest first.
    pub message_queue: Vec<Message>,
    /// Messages heard that are for the application, oldest first.
    pub core_message_queue: Vec<Message>,
    pub disconnect_on_next_send: bool,
    /// From a contact's id to its track id on the network.
    pub id_map: HashMap<u32, u16>,
    pub next_track_id: u16,
    pub next_id: u8,
    pub tracks: Vec<DatalinkTrack>,
    pub friendly_positions: Vec<FriendlyPosition>,
    pub is_host: bool,
    pub tick: u32,
    pub messages_pushed_last_second: u32,
    pub prev_mpls: u32,
    /// In milliseconds.
    pub last_count_reset_time: u64,
    /// Frames for the radio, in the order in which they are to go out.
    pub outbox: Vec<u64>,
}

impl View for Datalink {
    type V = DatalinkView;

    open spec fn view(&self) -> DatalinkView {
        DatalinkView {
            status: self.status,
            blocks: block_views(self.blocks@),
            join_request_approve_id: self.join_request_approve_id,
            our_join_request_id: self.our_join_request_id,
            our_request_block: self.our_request_block,
            id: self.id,
            total_blocks: self.total_blocks,
            our_block: self.our_block,
            next_free_block: self.next_free_block,
            message_queue: self.message_queue@,
            core_message_queue: self.core_message_queue@,
            disconnect_on_next_send: self.disconnect_on_next_send,
            id_map: self.id_map@,
            next_track_id: self.next_track_id,
            next_id: self.next_id,
            tracks: self.tracks@,
            friendly_positions: self.friendly_positions@,
            is_host: self.is_host,
            tick: self.tick,
            messages_pushed_last_second: self.messages_pushed_last_second,
            prev_mpls: self.prev_mpls,
            last_count_reset_time: self.last_count_reset_time,
            outbox: self.outbox@,
        }
    }
}

impl Datalink {
    /// A participant that has heard nothing yet.
    pub fn new() -> (datalink: Datalink)
        ensures
            datalink@ == DatalinkView::initial(),
    {
        let datalink = Datalink {
            status: DatalinkStatus::NotJoined,
            blocks: Vec::new(),
            join_request_approve_id: INVALID,
            our_join_request_id: INVALID,
            our_request_block: INVALID,
            id: INVALID,
            total_blocks: 0,
            our_block: 0,
            next_free_block: INVALID,
            message_queue: Vec::new(),
            core_message_queue: Vec::new(),
            disconnect_on_next_send: false,
            id_map: HashMap::new(),
            next_track_id: 0,
            next_id: 0,
            tracks: Vec::new(),
            friendly_positions: Vec::new(),
            is_host: false,
            tick: 0,
            messages_pushed_last_second: 0,
            prev_mpls: 0,
            last_count_reset_time: 0,
            outbox: Vec::new(),
        };
        assert(datalink@ =~~= DatalinkView::initial());
        datalink
    }

    /// Makes this participant the host of the network.
    pub fn setup_as_host(&mut self)
        ensures
            final(self)@ == old(self)@.as_host(),
    {
        self.id = 0;
        self.status = DatalinkStatus::Joined;
        let mut block0 = TimeBlock::new(0);
        block0.clients.push(0);
        self.blocks.push(block0);
        let mut block1 = TimeBlock::new(1);
        block1.clients.push(0);
        block1.clients.push(0);
        self.blocks.push(block1);
        self.total_blocks = 2;
        self.our_block = 1;
        self.is_host = true;
        assert(self@ =~~= old(self)@.as_host());
    }

    /// Whether the participant may send in this tick.
    pub fn is_our_turn(&self) -> (turn: bool)
        ensures
            turn == self@.is_our_turn(),
    {
        self.total_blocks != 0 && self.our_block as u32 == self.tick % (self.total_blocks as u32)
    }

    /// Whether the host states the network's state in this tick.
    pub fn is_host_transmit_turn(&self) -> (turn: bool)
        ensures
            turn == self@.is_host_transmit_turn(),
    {
        self.is_host && self.total_blocks != 0 && self.tick % (self.total_blocks as u32) == 0
    }

    /// Hands a frame to the radio: it goes out once the tick is done.
    pub fn transmit(&mut self, value: u64)
        ensures
            final(self)@ == old(self)@.transmitted(value),
    {
        self.outbox.push(value);
        assert(self@ =~~= old(self)@.transmitted(value));
    }

    /// Queues a message for the participant's turn.
    pub fn send_message(&mut self, message: Message)
        ensures
            final(self)@ == old(self)@.with_message_sent(message),
    {
        self.message_queue.push(message);
        if self.messages_pushed_last_second < u32::MAX {
            self.messages_pushed_last_second = self.messages_pushed_last_second + 1;
        }
        assert(self@ =~~= old(self)@.with_message_sent(message));
    }

    /// Asks to leave: the goodbye is said in the participant's next turn.
    pub fn disconnect(&mut self)
        ensures
            final(self)@ == (DatalinkView { disconnect_on_next_send: true, ..old(self)@ }),
    {
        self.disconnect_on_next_send = true;
        assert(self@ =~~= (DatalinkView { disconnect_on_next_send: true, ..old(self)@ }));
    }

    /// Asks the host for the block it advertised last, under `request_id`.
    pub fn send_join_request(&mut self, request_id: u8)
        ensures
            final(self)@ == old(self)@.after_join_request_sent(request_id),
    {
        let join_request_packet = JoinRequest::new(request_id, self.next_free_block);
        self.transmit(join_request_packet.serialize().value);
        self.our_join_request_id = request_id;
        self.our_request_block = self.next_free_block;
        self.status = DatalinkStatus::WaitingForId;
        assert(self@ =~~= old(self)@.after_join_request_sent(request_id));
    }

    /// Acts on the host's statement of the network's state.
    pub fn handle_net_info(&mut self, net_info: NetInfo, request_id: u8)
        ensures
            final(self)@ == old(self)@.after_net_info(net_info, request_id),
    {
        self.total_blocks = net_info.num_blocks;
        self.tick = net_info.current_tick.wrapping_add(1);
        self.next_free_block = net_info.next_free_block;
        match self.status {
            DatalinkStatus::WaitingForId => {
                if net_info.join_request_approve_id == self.our_join_request_id {
                    self.status = DatalinkStatus::Joined;
                    self.id = net_info.next_id;
                    self.our_block = self.our_request_block;
                } else {
                    self.send_join_request(request_id);
                }
            },
            DatalinkStatus::NotJoined => {
                self.send_join_request(request_id);
            },
            _ => {},
        }
        assert(self@ =~~= old(self)@.after_net_info(net_info, request_id));
    }

    /// Hands the application what was heard for it, and keeps none of it.
    pub fn get_core_message_queue(&mut self) -> (queue: Vec<Message>)
        ensures
            queue@ == old(self)@.core_message_queue,
            final(self)@ == (DatalinkView { core_message_queue: Seq::empty(), ..old(self)@ }),
    {
        let mut queue: Vec<Message> = Vec::new();
        std::mem::swap(&mut self.core_message_queue, &mut queue);
        assert(self@ =~~= (DatalinkView { core_message_queue: Seq::empty(), ..old(self)@ }));
        queue
    }

    /// The position of the first block with room for one more client, or
    /// the number of blocks where every block is full.
    pub fn first_block_with_room(&self) -> (at: usize)
        ensures
            at == first_match(room_flags(self@.blocks), 1),
            at <= self.blocks.len(),
    {
        let ghost flags = room_flags(self@.blocks);
        let mut i: usize = 0;
        while i < self.blocks.len()
            invariant
                i <= self.blocks.len(),
                flags == room_flags(self@.blocks),
                forall|j: int| 0 <= j < i ==> flags[j] != 1,
            decreases self.blocks.len() - i,
        {
            if self.blocks[i].clients.len() < BLOCK_CAPACITY {
                proof {
                    lemma_first_match_is(flags, 1, i as int);
                }
                return i;
            }
            i = i + 1;
        }
        proof {
            lemma_first_match_is(flags, 1, i as int);
        }
        i
    }

    /// The host states the network's state.
    pub fn send_net_info(&mut self)
        ensures
            final(self)@ == old(self)@.after_net_info_sent(),
    {
        let at = self.first_block_with_room();
        let next_free_block = if at < self.blocks.len() && self.blocks[at].index != INVALID {
            self.blocks[at].index
        } else {
            #[verifier::truncate]
            (self.blocks.len() as u8)
        };
        let net_info = NetInfo::new(
            self.next_id,
            self.total_blocks,
            next_free_block,
            self.tick,
            self.join_request_approve_id,
        );
        self.transmit(net_info.serialize().value);
        self.join_request_approve_id = INVALID;
        self.total_blocks = #[verifier::truncate]
        (self.blocks.len() as u8);
        assert(self@ =~~= old(self)@.after_net_info_sent());
    }

    /// The position of the first block with index `block_index`.
    pub fn get_block(&self, block_index: u8) -> (slot: Option<usize>)
        ensures
            match slot {
                Some(at) => at == self@.block_slot(block_index) && at < self.blocks.len(),
                None => self@.block_slot(block_index) == self.blocks.len(),
            },
    {
        let ghost keys = block_keys(self@.blocks);
        let mut i: usize = 0;
        while i < self.blocks.len()
            invariant
                i <= self.blocks.len(),
                keys == block_keys(self@.blocks),
                forall|j: int| 0 <= j < i ==> keys[j] != block_index as int,
            decreases self.blocks.len() - i,
        {
            if self.blocks[i].index == block_index {
                proof {
                    lemma_first_match_is(keys, block_index as int, i as int);
                }
                return Some(i);
            }
            i = i + 1;
        }
        proof {
            lemma_first_match_is(keys, block_index as int, i as int);
        }
        None
    }

    /// The host takes a join request, if no approval is pending.
    pub fn process_join_request(&mut self, join_request: JoinRequest)
        ensures
            final(self)@ == old(self)@.after_join_request(join_request),
    {
        if !self.is_host {
            return ;
        }
        if self.join_request_approve_id != INVALID {
            return ;
        }
        let next_id = self.next_id.wrapping_add(1);
        let slot = self.get_block(join_request.block);
        let mut placed = false;
        if let Some(at) = slot {
            if self.blocks[at].clients.len() < BLOCK_CAPACITY {
                self.blocks[at].clients.push(next_id);
                placed = true;
            }
        }
        if !placed {
            let mut new_block = TimeBlock::new(join_request.block);
            new_block.clients.push(next_id);
            self.blocks.push(new_block);
        }
        self.accept_join_request(join_request.request_id);
        assert(self@ =~~= old(self)@.after_join_request(join_request));
    }

    /// Notes the approval for the next `NetInfo` and counts the newcomer.
    pub fn accept_join_request(&mut self, request_id: u8)
        ensures
            final(self)@ == (DatalinkView {
                join_request_approve_id: request_id,
                next_id: next_client_id(old(self)@.next_id),
                ..old(self)@
            }),
    {
        self.join_request_approve_id = request_id;
        self.next_id = self.next_id.wrapping_add(1);
        assert(self@ =~~= (DatalinkView {
            join_request_approve_id: request_id,
            next_id: next_client_id(old(self)@.next_id),
            ..old(self)@
        }));
    }

    /// The host strikes a client that says goodbye.
    pub fn process_leave_network(&mut self, leave_network: LeaveNetwork)
        ensures
            final(self)@ == old(self)@.after_leave(leave_network),
    {
        if !self.is_host {
            return ;
        }
        self.remove_client_from_block(leave_network.block, leave_network.id);
    }

    /// Strikes the first entry of a client from the first block with the index.
    pub fn remove_client_from_block(&mut self, block: u8, id: u8)
        ensures
            final(self)@ == old(self)@.without_client(block, id),
    {
        let at = match self.get_block(block) {
            Some(at) => at,
            None => {
                return ;
            },
        };
        let ghost keys = client_keys(self.blocks[at as int].clients@);
        let mut i: usize = 0;
        while i < self.blocks[at].clients.len()
            invariant
                *self == *old(self),
                at < self.blocks.len(),
                at == self@.block_slot(block),
                i <= self.blocks[at as int].clients.len(),
                keys == client_keys(self.blocks[at as int].clients@),
                forall|j: int| 0 <= j < i ==> keys[j] != id as int,
            decreases self.blocks[at as int].clients.len() - i,
        {
            if self.blocks[at].clients[i] == id {
                proof {
                    lemma_first_match_is(keys, id as int, i as int);
                }
                self.blocks[at].clients.remove(i);
                proof {
                    let before = old(self)@;
                    let clients = before.blocks[at as int].clients;
                    assert(before.block_slot(block) == at);
                    assert(first_match(client_keys(clients), id as int) == i);
                    assert(self@.blocks[at as int].clients =~= clients.remove(i as int));
                    assert(self@.blocks =~~= before.blocks.update(
                        at as int,
                        TimeBlockView {
                            index: before.blocks[at as int].index,
                            clients: clients.remove(i as int),
                        },
                    ));
                    assert(self@ =~~= before.without_client(block, id));
                }
                return ;
            }
            i = i + 1;
        }
        proof {
            lemma_first_match_is(keys, id as int, i as int);
        }
    }

    /// Notes a binding, or, on the host, answers a request for one.
    pub fn process_track_id(&mut self, packet: TrackId)
        ensures
            final(self)@ == old(self)@.after_track_id(packet),
    {
        if packet.track_id > 0 {
            self.id_map.insert(packet.contact_id, packet.track_id);
        }
        if self.is_host && packet.track_id == 0 {
            let new_id = self.next_track_id;
            self.next_track_id = self.next_track_id.wrapping_add(1);
            self.id_map.insert(packet.contact_id, new_id);
            let reply = TrackId::new(new_id, packet.contact_id);
            self.message_queue.push(Message::TrackId(reply));
        }
        assert(self@ =~~= old(self)@.after_track_id(packet));
    }

    /// The position of the first track with id `track_id`.
    pub fn find_track(&self, track_id: u16) -> (slot: Option<usize>)
        ensures
            match slot {
                Some(at) => at == self@.track_slot(track_id) && at < self.tracks.len(),
                None => self@.track_slot(track_id) == self.tracks.len(),
            },
    {
        let ghost keys = track_keys(self@.tracks);
        let mut i: usize = 0;
        while i < self.tracks.len()
            invariant
                i <= self.tracks.len(),
                keys == track_keys(self@.tracks),
                forall|j: int| 0 <= j < i ==> keys[j] != track_id as int,
            decreases self.tracks.len() - i,
        {
            if self.tracks[i].track_id == track_id {
                proof {
                    lemma_first_match_is(keys, track_id as int, i as int);
                }
                return Some(i);
            }
            i = i + 1;
        }
        proof {
            lemma_first_match_is(keys, track_id as int, i as int);
        }
        None
    }

    /// Adds a fresh track at the end of the list and says where it stands.
    pub fn create_track(&mut self, track_id: u16) -> (slot: usize)
        ensures
            final(self)@ == (DatalinkView {
                tracks: old(self)@.tracks.push(fresh_track(track_id)),
                ..old(self)@
            }),
            slot == old(self)@.tracks.len(),
    {
        let track = DatalinkTrack::new(track_id);
        self.tracks.push(track);
        assert(self@ =~~= (DatalinkView {
            tracks: old(self)@.tracks.push(fresh_track(track_id)),
            ..old(self)@
        }));
        self.tracks.len() - 1
    }

    /// Where the track with id `track_id` stands; one is made if there is none.
    pub fn get_track_mut(&mut self, track_id: u16) -> (slot: usize)
        ensures
            final(self)@ == old(self)@.with_track(track_id),
            slot == old(self)@.track_slot(track_id),
            slot < final(self)@.tracks.len(),
            final(self)@.tracks[slot as int].track_id == track_id,
    {
        proof {
            lemma_first_match(track_keys(self@.tracks), track_id as int);
        }
        match self.find_track(track_id) {
            Some(slot) => slot,
            None => self.create_track(track_id),
        }
    }

    /// Whether a track has the id.
    pub fn does_track_exist(&self, track_id: u16) -> (exists: bool)
        ensures
            exists == (self@.track(track_id) is Some),
    {
        self.find_track(track_id).is_some()
    }

    /// The first track with the id.
    pub fn get_track(&self, track_id: u16) -> (track: Option<DatalinkTrack>)
        ensures
            track == self@.track(track_id),
    {
        match self.find_track(track_id) {
            Some(slot) => Some(self.tracks[slot]),
            None => None,
        }
    }

    /// Notes where a participant says it is.
    pub fn handle_iff_position(&mut self, iff_pos: IFFPosition)
        ensures
            final(self)@ == old(self)@.after_iff_position(iff_pos),
    {
        let ghost keys = friend_keys(self@.friendly_positions);
        let mut i: usize = 0;
        while i < self.friendly_positions.len()
            invariant
                *self == *old(self),
                i <= self.friendly_positions.len(),
                keys == friend_keys(self@.friendly_positions),
                forall|j: int| 0 <= j < i ==> keys[j] != iff_pos.dl_id as int,
            decreases self.friendly_positions.len() - i,
        {
            if self.friendly_positions[i].dl_id == iff_pos.dl_id {
                proof {
                    lemma_first_match_is(keys, iff_pos.dl_id as int, i as int);
                }
                self.friendly_positions[i].position = iff_pos.position;
                assert(self@ =~~= old(self)@.after_iff_position(iff_pos));
                return ;
            }
            i = i + 1;
        }
        proof {
            lemma_first_match_is(keys, iff_pos.dl_id as int, i as int);
        }
        self.friendly_positions.push(
            FriendlyPosition { position: iff_pos.position, dl_id: iff_pos.dl_id },
        );
        assert(self@ =~~= old(self)@.after_iff_position(iff_pos));
    }

    /// Acts on a message heard at `now`.
    pub fn handle_message(&mut self, message: Message, now: u64, request_id: u8)
        ensures
            final(self)@ == old(self)@.after_message(message, now, request_id),
    {
        match message {
            Message::NetInfo(net_info) => self.handle_net_info(net_info, request_id),
            Message::JoinRequest(join_request) => self.process_join_request(join_request),
            Message::TrackId(track_id) => self.process_track_id(track_id),
            Message::LeaveRequest(leave_network) => self.process_leave_network(leave_network),
            Message::TrackInfo(track_info) => {
                let slot = self.get_track_mut(track_info.track_id);
                self.tracks[slot].contact_id = track_info.contact_id;
                self.tracks[slot].contact_type = track_info.contact_type;
                self.tracks[slot].is_allied = track_info.is_allied;
                assert(self@ =~~= old(self)@.after_track_info(track_info));
            },
            Message::TrackPosition(track_position) => {
                let slot = self.get_track_mut(track_position.track_id);
                self.tracks[slot].update_position(track_position.position, now);
                assert(self@ =~~= old(self)@.after_track_position(track_position, now));
            },
            Message::TrackVelocity(track_velocity) => {
                let slot = self.get_track_mut(track_velocity.track_id);
                self.tracks[slot].update_velocity(track_velocity.velocity, now);
                assert(self@ =~~= old(self)@.after_track_velocity(track_velocity, now));
            },
            Message::IFFPosition(iff_pos) => self.handle_iff_position(iff_pos),
            _ => {
                self.core_message_queue.push(message);
                assert(self@ =~~= old(self)@.after_message(message, now, request_id));
            },
        }
    }

    /// Acts on a frame heard at `now`. A frame of no known kind is handed
    /// back as an error and changes nothing.
    pub fn handle_packet(&mut self, message: u64, now: u64, request_id: u8) -> (handled: Result<
        (),
        UnknownMessageKind,
    >)
        ensures
            final(self)@ == old(self)@.after_packet(message, now, request_id),
            match Message::decode(message) {
                Ok(_) => handled is Ok,
                Err(unknown) => handled == Err::<(), UnknownMessageKind>(unknown),
            },
    {
        match Message::parse(message) {
            Ok(packet) => {
                self.handle_message(packet, now, request_id);
                Ok(())
            },
            Err(unknown) => Err(unknown),
        }
    }

    /// Whether hearing `message` makes the participant ask to join.
    pub fn asks_to_join_on(&self, message: &Message) -> (asks: bool)
        ensures
            asks == self@.asks_to_join_on(*message),
    {
        match message {
            Message::NetInfo(net_info) => match self.status {
                DatalinkStatus::NotJoined => true,
                DatalinkStatus::WaitingForId => net_info.join_request_approve_id
                    != self.our_join_request_id,
                _ => false,
            },
            _ => false,
        }
    }

    /// One tick at `now`, in which `heard` was heard.
    pub fn update_with(&mut self, heard: &Vec<Heard>, now: u64) -> (report: TickReport)
        ensures
            final(self)@ == old(self)@.after_tick(heard@, now),
            report@ == old(self)@.report_of_tick(heard@, now),
    {
        let mut report = TickReport { dropped: Vec::new(), joined: false, queue_excess: false };
        if self.status == DatalinkStatus::Disconnected {
            return report;
        }
        let was_joined = self.status == DatalinkStatus::Joined;
        let mut i: usize = 0;
        while i < heard.len()
            invariant
                i <= heard.len(),
                self@ == old(self)@.after_frames(heard@.take(i as int), now),
                report.dropped@ == unknown_frames(heard@.take(i as int)),
                !report.joined,
                !report.queue_excess,
            decreases heard.len() - i,
        {
            let handled = self.handle_packet(heard[i].frame, now, heard[i].request_id);
            if handled.is_err() {
                report.dropped.push(heard[i].frame);
            }
            proof {
                let so_far = heard@.take(i + 1);
                assert(so_far.drop_last() =~= heard@.take(i as int));
                assert(so_far.last() == heard[i as int]);
            }
            i = i + 1;
        }
        assert(heard@.take(i as int) =~= heard@);
        if self.status == DatalinkStatus::Joined {
            report.joined = !was_joined;
            report.queue_excess = self.take_slot(now);
        }
        report
    }

    /// What a joined participant does once the tick's frames are heard.
    /// Says whether the queue was served and is still longer than
    /// `QUEUE_WATERMARK`.
    pub fn take_slot(&mut self, now: u64) -> (queue_excess: bool)
        ensures
            final(self)@ == old(self)@.after_slot(now),
            queue_excess == old(self)@.queue_excess_in_slot(now),
    {
        if now > self.last_count_reset_time && now - self.last_count_reset_time > COUNT_WINDOW {
            self.prev_mpls = self.messages_pushed_last_second;
            self.messages_pushed_last_second = 0;
            self.last_count_reset_time = now;
        }
        assert(self@ =~~= old(self)@.with_count_rolled(now));
        if self.is_host_transmit_turn() {
            self.send_net_info();
        }
        let mut queue_excess = false;
        if self.is_our_turn() {
            if self.disconnect_on_next_send {
                let leave_network = LeaveNetwork::new(self.our_block, self.id);
                self.transmit(leave_network.serialize().value);
                self.status = DatalinkStatus::Disconnected;
                assert(self@ =~~= old(self)@.after_slot(now));
                return false;
            }
            if self.message_queue.len() > 0 {
                let next_message = self.message_queue.remove(0);
                self.transmit(next_message.serialize().value);
            }
            if self.message_queue.len() > QUEUE_WATERMARK {
                queue_excess = true;
            }
        }
        self.tick = self.tick.wrapping_add(1);
        assert(self@ =~~= old(self)@.after_slot(now));
        queue_excess
    }

    /// One tick at `now`, in which `frames` were heard. Whenever a frame
    /// makes the participant ask to join, the id for the request is drawn at
    /// random: whatever is drawn, the tick is `after_tick` of the frames
    /// with some ids.
    pub fn update(&mut self, frames: &Vec<u64>, now: u64) -> (report: TickReport)
        ensures
            exists|heard: Seq<Heard>|
                frames_of(heard) == frames@ && #[trigger] old(self)@.after_tick(heard, now)
                    == final(self)@ && report@ == old(self)@.report_of_tick(heard, now),
    {
        let mut report = TickReport { dropped: Vec::new(), joined: false, queue_excess: false };
        let ghost mut heard: Seq<Heard> = Seq::empty();
        if self.status == DatalinkStatus::Disconnected {
            proof {
                heard = Seq::new(frames@.len(), |j: int| Heard { frame: frames@[j], request_id: 0 });
                assert(frames_of(heard) =~= frames@);
                assert(report@ =~= self@.report_of_tick(heard, now));
                assert(self@.after_tick(heard, now) == self@);
            }
            return report;
        }
        let was_joined = self.status == DatalinkStatus::Joined;
        let mut i: usize = 0;
        while i < frames.len()
            invariant
                i <= frames.len(),
                heard.len() == i,
                frames_of(heard) == frames@.take(i as int),
                self@ == old(self)@.after_frames(heard, now),
                report.dropped@ == unknown_frames(heard),
                !report.joined,
                !report.queue_excess,
            decreases frames.len() - i,
        {
            let frame = frames[i];
            let ghost before = heard;
            match Message::parse(frame) {
                Ok(message) => {
                    let request_id = if self.asks_to_join_on(&message) {
                        random_request_id()
                    } else {
                        0
                    };
                    self.handle_message(message, now, request_id);
                    proof {
                        heard = before.push(Heard { frame, request_id });
                    }
                },
                Err(_) => {
                    report.dropped.push(frame);
                    proof {
                        heard = before.push(Heard { frame, request_id: 0 });
                    }
                },
            }
            proof {
                assert(heard.drop_last() =~= before);
                assert forall|j: int| 0 <= j < i + 1 implies frames_of(heard)[j] == frames@[j] by {
                    if j < i {
                        assert(frames_of(before)[j] == frames@.take(i as int)[j]);
                    }
                }
                assert(frames_of(heard) =~= frames@.take(i + 1));
            }
            i = i + 1;
        }
        assert(frames@.take(i as int) =~= frames@);
        if self.status == DatalinkStatus::Joined {
            report.joined = !was_joined;
            report.queue_excess = self.take_slot(now);
        }
        assert(report@ =~= old(self)@.report_of_tick(heard, now));
        assert(old(self)@.after_tick(heard, now) == self@);
        report
    }

    /// Hands over the frames for the radio, oldest first, and keeps none.
    pub fn drain_outbox(&mut self) -> (frames: Vec<u64>)
        ensures
            frames@ == old(self)@.outbox,
            final(self)@ == (DatalinkView { outbox: Seq::empty(), ..old(self)@ }),
    {
        let mut frames: Vec<u64> = Vec::new();
        std::mem::swap(&mut self.outbox, &mut frames);
        assert(self@ =~~= (DatalinkView { outbox: Seq::empty(), ..old(self)@ }));
        frames
    }

    /// The ships among the tracks, in the order of the list.
    pub fn get_ship_tracks(&self) -> (ships: Vec<DatalinkTrack>)
        ensures
            ships@ == ship_tracks(self@.tracks),
    {
        let mut ships: Vec<DatalinkTrack> = Vec::new();
        let mut i: usize = 0;
        while i < self.tracks.len()
            invariant
                i <= self.tracks.len(),
                ships@ == ship_tracks(self.tracks@.take(i as int)),
            decreases self.tracks.len() - i,
        {
            proof {
                let seen = self.tracks@.take(i + 1);
                assert(seen.drop_last() =~= self.tracks@.take(i as int));
                assert(seen.last() == self.tracks[i as int]);
            }
            if self.tracks[i].contact_type == ContactType::SpaceBattleShip {
                ships.push(self.tracks[i]);
            }
            i = i + 1;
        }
        assert(self.tracks@.take(i as int) =~= self.tracks@);
        ships
    }

    /// The track id of the network for a contact. Where none is known, the
    /// host gives one out at once; anyone else asks the host for it, once,
    /// and has to come back later.
    pub fn net_id(&mut self, contact_id_64: i64) -> (id: Option<u16>)
        ensures
            id == old(self)@.net_id(contact_id_64),
            final(self)@ == old(self)@.after_net_id(contact_id_64),
    {
        let contact_id = dl_crunch_id(contact_id_64);
        if let Some(id) = self.id_map.get(&contact_id) {
            return Some(*id);
        }
        if self.is_host {
            let new_id = self.next_track_id;
            self.next_track_id = self.next_track_id.wrapping_add(1);
            self.id_map.insert(contact_id, new_id);
            assert(self@ =~~= old(self)@.after_net_id(contact_id_64));
            return Some(new_id);
        }
        let mut has_pending_request = false;
        let mut i: usize = 0;
        while i < self.message_queue.len()
            invariant_except_break
                !has_pending_request,
                forall|j: int|
                    0 <= j < i ==> !(#[trigger] self.message_queue@[j] matches Message::TrackId(t)
                        && t.contact_id == contact_id),
            invariant
                *self == *old(self),
                i <= self.message_queue.len(),
            ensures
                has_pending_request == asks_for(self.message_queue@, contact_id),
                *self == *old(self),
            decreases self.message_queue.len() - i,
        {
            if let Message::TrackId(track_id) = self.message_queue[i] {
                if track_id.contact_id == contact_id {
                    has_pending_request = true;
                    break ;
                }
            }
            i = i + 1;
        }
        if !has_pending_request {
            let track_id = TrackId::new(0, contact_id);
            self.message_queue.push(Message::TrackId(track_id));
        }
        assert(self@ =~~= old(self)@.after_net_id(contact_id_64));
        None
    }

    /// Notes what the participant's own sensors saw of a contact at `now`.
    pub fn update_track_from_local_data(
        &mut self,
        contact_id_64: i64,
        rc_type: ContactType,
        position: FixedVector3,
        velocity: FixedVector3,
        now: u64,
    )
        ensures
            final(self)@ == old(self)@.after_local_data(
                contact_id_64,
                rc_type,
                position,
                velocity,
                now,
            ),
    {
        let track_id = match self.net_id(contact_id_64) {
            Some(track_id) => track_id,
            None => {
                return ;
            },
        };
        let slot = self.get_track_mut(track_id);
        self.tracks[slot].contact_id = dl_crunch_id(contact_id_64);
        self.tracks[slot].contact_type = rc_type;
        self.tracks[slot].position = position;
        self.tracks[slot].velocity = velocity;
        self.tracks[slot].last_update_timestamp = Some(now);
        assert(self@ =~~= old(self)@.after_local_data(
            contact_id_64,
            rc_type,
            position,
            velocity,
            now,
        ));
    }

    /// Where the host last said it was.
    pub fn get_ship_pos_from_iff(&self) -> (position: Option<FixedVector3>)
        ensures
            position == self@.ship_position(),
    {
        let ghost keys = friend_keys(self@.friendly_positions);
        let mut i: usize = 0;
        while i < self.friendly_positions.len()
            invariant
                i <= self.friendly_positions.len(),
                keys == friend_keys(self@.friendly_positions),
                forall|j: int| 0 <= j < i ==> keys[j] != 0,
            decreases self.friendly_positions.len() - i,
        {
            if self.friendly_positions[i].dl_id == 0 {
                proof {
                    lemma_first_match_is(keys, 0, i as int);
                }
                return Some(self.friendly_positions[i].position);
            }
            i = i + 1;
        }
        proof {
            lemma_first_match_is(keys, 0, i as int);
        }
        None
    }
}

/// `rand::random::<u8>()`: a byte from the thread's random number generator.
/// Nothing is claimed of the byte. The generator is seeded from the
/// operating system when a thread first draws from it, and `rand` panics
/// there if the system has no entropy to give.
#[verifier::external_body]
fn random_request_id() -> u8 {
    rand::random::<u8>()
}

/// The upper 32 bits of a contact's 64-bit id.
pub fn dl_crunch_id(contact_id: i64) -> (id: u32)
    ensures
        id == crunched(contact_id),
{
    #[verifier::truncate]
    ((contact_id >> 32) as u32)
}

/// Makes the participant the host of the network.
pub fn dl_declare_host(datalink: &mut Datalink)
    ensures
        final(datalink)@ == old(datalink)@.as_host(),
{
    datalink.setup_as_host();
}

/// One tick at `now`, in which `frames` were heard.
pub fn update_dl(datalink: &mut Datalink, frames: &Vec<u64>, now: u64) -> (report: TickReport)
    ensures
        exists|heard: Seq<Heard>|
            frames_of(heard) == frames@ && #[trigger] old(datalink)@.after_tick(heard, now)
                == final(datalink)@ && report@ == old(datalink)@.report_of_tick(heard, now),
{
    datalink.update(frames, now)
}

/// The tick the participant is at.
pub fn get_tick(datalink: &Datalink) -> (tick: u32)
    ensures
        tick == datalink@.tick,
{
    datalink.tick
}

/// Queues a message for the participant's turn.
pub fn send_message(datalink: &mut Datalink, message: Message)
    ensures
        final(datalink)@ == old(datalink)@.with_message_sent(message),
{
    datalink.send_message(message);
}

/// Hands the application what was heard for it, and keeps none of it.
pub fn get_core_message_queue(datalink: &mut Datalink) -> (queue: Vec<Message>)
    ensures
        queue@ == old(datalink)@.core_message_queue,
        final(datalink)@ == (DatalinkView { core_message_queue: Seq::empty(), ..old(datalink)@ }),
{
    datalink.get_core_message_queue()
}

/// The first track with the id.
pub fn get_dl_track(datalink: &Datalink, track_id: u16) -> (track: Option<DatalinkTrack>)
    ensures
        track == datalink@.track(track_id),
{
    datalink.get_track(track_id)
}

/// The ships among the tracks, in the order of the list.
pub fn get_ship_tracks(datalink: &Datalink) -> (ships: Vec<DatalinkTrack>)
    ensures
        ships@ == ship_tracks(datalink@.tracks),
{
    datalink.get_ship_tracks()
}

/// Notes what the participant's own sensors saw of a contact at `now`.
pub fn update_track_from_local_data(
    datalink: &mut Datalink,
    contact_id_64: i64,
    rc_type: ContactType,
    position: FixedVector3,
    velocity: FixedVector3,
    now: u64,
)
    ensures
        final(datalink)@ == old(datalink)@.after_local_data(
            contact_id_64,
            rc_type,
            position,
            velocity,
            now,
        ),
{
    datalink.update_track_from_local_data(contact_id_64, rc_type, position, velocity, now);
}

/// Asks to leave: the goodbye is said in the participant's next turn.
pub fn datalink_disconnect(datalink: &mut Datalink)
    ensures
        final(datalink)@ == (DatalinkView { disconnect_on_next_send: true, ..old(datalink)@ }),
{
    datalink.disconnect();
}

/// The track id of the network for a contact, asked for if it is not known.
pub fn dl_net_id(datalink: &mut Datalink, contact_id: i64) -> (id: Option<u16>)
    ensures
        id == old(datalink)@.net_id(contact_id),
        final(datalink)@ == old(datalink)@.after_net_id(contact_id),
{
    datalink.net_id(contact_id)
}

/// The participant's id on the network.
pub fn own_dl_id(datalink: &Datalink) -> (id: u8)
    ensures
        id == datalink@.id,
{
    datalink.id
}

/// Where the host last said it was.
pub fn get_ship_pos_from_iff(datalink: &Datalink) -> (position: Option<FixedVector3>)
    ensures
        position == datalink@.ship_position(),
{
    datalink.get_ship_pos_from_iff()
}

} // verus!

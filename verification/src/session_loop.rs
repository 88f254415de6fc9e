//! The real-server validation loop's own decisions: when it stops, how long
//! it waits for a batch, what a failed receive means, and what each observed
//! packet proves or asks for. The caller owns the connection and the clock
//! (milliseconds), sends what a step asks for, and hands the packets that
//! feed the movement check to `ValidationState`.

use vstd::prelude::*;
use crate::observe::ObservedPacket;
use crate::probes::elapsed;
use crate::status::{finalized, CapabilityStatus};

verus! {

/// How long the loop may overrun the requested duration.
pub const VALIDATION_OVERRUN_MILLIS: u64 = 90_000;
/// How long to wait for a batch while the movement check runs.
pub const MOVEMENT_RECV_TIMEOUT_MILLIS: u64 = 50;
/// How long to wait for a batch between the resource packs and the spawn.
pub const PRE_SPAWN_RECV_TIMEOUT_MILLIS: u64 = 60_000;
/// How long to wait for a batch otherwise.
pub const RECV_TIMEOUT_MILLIS: u64 = 10_000;
/// The PlayStatus code of PlayerSpawn.
pub const PLAY_STATUS_PLAYER_SPAWN: i32 = 3;
/// The id of the packet that also counts as a spawn.
pub const SPAWN_PACKET_ID: u32 = 0x0b;

/// Where the loop stands: when it and the spawn started, how long it must
/// stay connected, and the movement check's, resource packs' and decode
/// hold's progress.
#[derive(Debug, Clone, Copy, PartialEq, Eq)]
pub struct SessionProgress {
    pub started_at: u64,
    pub required_seconds: u64,
    pub spawn_started_at: Option<u64>,
    pub movement_started: bool,
    pub movement_init_sent: bool,
    pub resource_stack_done: bool,
    pub post_spawn_decode_hold: bool,
}

/// What the loop does at the top of an iteration.
#[derive(Debug, Clone, Copy, PartialEq, Eq)]
pub enum LoopAction {
    /// The session stayed long enough, or the time ran out: close the
    /// connection; the status is final.
    End,
    /// Decoding broke after the spawn: wait one movement interval, run the
    /// movement check when `drive_movement`, and go round again.
    Hold { drive_movement: bool },
    /// Receive a batch, leniently once the resource packs are done, waiting
    /// at most `timeout_millis`.
    Receive { lenient: bool, timeout_millis: u64 },
}

/// Why a receive gave no batch.
#[derive(Debug, Clone, PartialEq, Eq)]
pub enum RecvFailure {
    /// The batch could not be read; `post_spawn_decode` tells whether the
    /// error is one that the loop holds through after the spawn.
    Error { post_spawn_decode: bool, message: String },
    /// Nothing came in time.
    Timeout,
}

/// What a failed receive means.
#[derive(Debug, Clone, Copy, PartialEq, Eq)]
pub enum RecvOutcome {
    /// Go round again (after running the movement check when `drive_movement`).
    Continue { drive_movement: bool },
    /// The session ended after the movement check passed: the status is final.
    Finished,
    /// The run fails with the error.
    Fail,
    /// The run fails: nothing came before the spawn.
    TimedOutBeforeSpawn,
}

/// What an observed packet asks for.
#[derive(Debug, Clone, Copy, PartialEq, Eq)]
pub enum PacketAction {
    Nothing,
    /// Send the movement initialization and start the movement check's delay.
    InitMovement,
    /// Answer the resource packs: all downloaded, and no client cache.
    SendPackResponses,
    /// Answer the resource pack stack: completed.
    SendStackCompleted,
    /// The spawn state arrived: set up the movement check from it, and
    /// initialize movement when `init`.
    StartMovement { init: bool },
    /// The server disconnected: close the connection; the status is final
    /// once its reason is recorded.
    Finished,
    /// Answer the latency probe stamped `timestamp`.
    ReplyLatency { timestamp: u64 },
    /// A packet for the movement check (item entities, inventory, chunks,
    /// block updates): hand it to `ValidationState`.
    ForMovement,
}

/// Seconds connected since the spawn at `now`.
pub open spec fn connected_seconds(spawn: u64, now: u64) -> u64 {
    elapsed(now, spawn) / 1000
}

/// The status once the connected time is brought up to `now`.
pub open spec fn with_connected_time(s: CapabilityStatus, p: SessionProgress, now: u64) -> CapabilityStatus {
    match p.spawn_started_at {
        Some(spawn) => CapabilityStatus {
            connected_duration_seconds: connected_seconds(spawn, now),
            remained_connected: connected_seconds(spawn, now) >= p.required_seconds,
            ..s
        },
        None => s,
    }
}

/// The loop runs while the session has not stayed long enough and the
/// requested duration plus the overrun has not passed.
pub open spec fn loop_ends(s: CapabilityStatus, p: SessionProgress, now: u64) -> bool {
    s.remained_connected || elapsed(now, p.started_at) >= p.required_seconds * 1000 + VALIDATION_OVERRUN_MILLIS
}

/// How long to wait for a batch.
pub open spec fn recv_timeout(s: CapabilityStatus, p: SessionProgress) -> u64 {
    if p.resource_stack_done {
        if p.movement_started && p.movement_init_sent {
            MOVEMENT_RECV_TIMEOUT_MILLIS
        } else if !s.spawn {
            PRE_SPAWN_RECV_TIMEOUT_MILLIS
        } else {
            RECV_TIMEOUT_MILLIS
        }
    } else {
        RECV_TIMEOUT_MILLIS
    }
}

/// The capability flags an observed packet proves.
pub open spec fn packet_status(s: CapabilityStatus, packet: ObservedPacket) -> CapabilityStatus {
    match packet {
        ObservedPacket::PlayStatus(code) => CapabilityStatus {
            login: true,
            player_spawn: s.player_spawn || code == Some(PLAY_STATUS_PLAYER_SPAWN),
            ..s
        },
        ObservedPacket::StartGame(_) => CapabilityStatus { spawn: true, ..s },
        ObservedPacket::NetworkStackLatency { .. } => CapabilityStatus { keepalive: true, ..s },
        ObservedPacket::Text(_) => CapabilityStatus { chat: true, ..s },
        ObservedPacket::ModalFormRequest => CapabilityStatus { forms: true, ..s },
        ObservedPacket::InventoryContent { .. } => CapabilityStatus { inventory_transactions: true, ..s },
        ObservedPacket::InventorySlot { .. } => CapabilityStatus { inventory_transactions: true, ..s },
        ObservedPacket::ItemStackResponse { .. } => CapabilityStatus { inventory_transactions: true, ..s },
        ObservedPacket::Other(id) => if id == SPAWN_PACKET_ID {
            CapabilityStatus { spawn: true, ..s }
        } else {
            s
        },
        _ => s,
    }
}

/// The loop's progress and action for an observed packet (all but a
/// disconnect), given whether the spawn and the player spawn were seen
/// before it.
pub open spec fn packet_progress(spawned: bool, player_spawned: bool, p: SessionProgress, packet: ObservedPacket, now: u64) -> (SessionProgress, PacketAction) {
    match packet {
        ObservedPacket::PlayStatus(code) => if code == Some(PLAY_STATUS_PLAYER_SPAWN) && !p.movement_init_sent
            && p.movement_started {
            (SessionProgress { movement_init_sent: true, ..p }, PacketAction::InitMovement)
        } else {
            (p, PacketAction::Nothing)
        },
        ObservedPacket::ResourcePacksInfo => (p, PacketAction::SendPackResponses),
        ObservedPacket::ResourcePackStack => (SessionProgress { resource_stack_done: true, ..p }, PacketAction::SendStackCompleted),
        ObservedPacket::StartGame(start) => if spawned {
            (p, PacketAction::Nothing)
        } else {
            let p1 = SessionProgress { spawn_started_at: Some(now), resource_stack_done: true, ..p };
            if start is Some {
                let init = player_spawned && !p.movement_init_sent;
                (
                    SessionProgress { movement_started: true, movement_init_sent: p.movement_init_sent || init, ..p1 },
                    PacketAction::StartMovement { init },
                )
            } else {
                (p1, PacketAction::Nothing)
            }
        },
        ObservedPacket::NetworkStackLatency { timestamp, needs_response } => if needs_response {
            (p, PacketAction::ReplyLatency { timestamp })
        } else {
            (p, PacketAction::Nothing)
        },
        ObservedPacket::AddItemEntity(_) => (p, PacketAction::ForMovement),
        ObservedPacket::TakeItemEntity { .. } => (p, PacketAction::ForMovement),
        ObservedPacket::InventoryContent { .. } => (p, PacketAction::ForMovement),
        ObservedPacket::InventorySlot { .. } => (p, PacketAction::ForMovement),
        ObservedPacket::LevelChunk { .. } => (p, PacketAction::ForMovement),
        ObservedPacket::NetworkChunkPublisherUpdate { .. } => (p, PacketAction::ForMovement),
        ObservedPacket::UpdateBlock { .. } => (p, PacketAction::ForMovement),
        ObservedPacket::Other(id) => if id == SPAWN_PACKET_ID && p.spawn_started_at is None {
            (SessionProgress { spawn_started_at: Some(now), ..p }, PacketAction::Nothing)
        } else {
            (p, PacketAction::Nothing)
        },
        _ => (p, PacketAction::Nothing),
    }
}

fn connected_seconds_exec(spawn: u64, now: u64) -> (r: u64)
    ensures
        r == connected_seconds(spawn, now),
{
    if now >= spawn {
        (now - spawn) / 1000
    } else {
        0
    }
}

impl SessionProgress {
    /// A loop that starts at `now` and must stay connected `required_seconds`.
    pub fn new(started_at: u64, required_seconds: u64) -> (r: Self)
        ensures
            r == (SessionProgress {
                started_at,
                required_seconds,
                spawn_started_at: None,
                movement_started: false,
                movement_init_sent: false,
                resource_stack_done: false,
                post_spawn_decode_hold: false,
            }),
    {
        SessionProgress {
            started_at,
            required_seconds,
            spawn_started_at: None,
            movement_started: false,
            movement_init_sent: false,
            resource_stack_done: false,
            post_spawn_decode_hold: false,
        }
    }

    /// Brings the connected time up to `now`, when the spawn happened.
    pub fn record_connected_time(&self, status: &mut CapabilityStatus, now_millis: u64)
        ensures
            *final(status) == with_connected_time(*old(status), *self, now_millis),
    {
        if let Some(spawn) = self.spawn_started_at {
            status.connected_duration_seconds = connected_seconds_exec(spawn, now_millis);
            status.remained_connected = status.connected_duration_seconds >= self.required_seconds;
        }
    }

    /// The top of an iteration: end the loop (the disconnect counts as
    /// handled and the status is finalized), hold, or receive.
    pub fn loop_step(&self, status: &mut CapabilityStatus, now_millis: u64) -> (r: LoopAction)
        ensures
            loop_ends(*old(status), *self, now_millis) ==> r == LoopAction::End && finalized(
                CapabilityStatus { disconnect_handling: true, ..*old(status) },
                *final(status),
            ) && final(status).disconnect_handling,
            !loop_ends(*old(status), *self, now_millis) && self.post_spawn_decode_hold ==> r == (LoopAction::Hold {
                drive_movement: self.movement_init_sent,
            }) && *final(status) == with_connected_time(*old(status), *self, now_millis),
            !loop_ends(*old(status), *self, now_millis) && !self.post_spawn_decode_hold ==> r == (LoopAction::Receive {
                lenient: self.resource_stack_done,
                timeout_millis: recv_timeout(*old(status), *self),
            }) && *final(status) == *old(status),
    {
        let ran: u64 = if now_millis >= self.started_at {
            now_millis - self.started_at
        } else {
            0
        };
        let limit: u128 = self.required_seconds as u128 * 1000 + VALIDATION_OVERRUN_MILLIS as u128;
        if status.remained_connected || ran as u128 >= limit {
            status.disconnect_handling = true;
            status.finalize();
            return LoopAction::End;
        }
        if self.post_spawn_decode_hold {
            self.record_connected_time(status, now_millis);
            return LoopAction::Hold { drive_movement: self.movement_init_sent };
        }
        let timeout_millis: u64 = if self.resource_stack_done {
            if self.movement_started && self.movement_init_sent {
                MOVEMENT_RECV_TIMEOUT_MILLIS
            } else if !status.spawn {
                PRE_SPAWN_RECV_TIMEOUT_MILLIS
            } else {
                RECV_TIMEOUT_MILLIS
            }
        } else {
            RECV_TIMEOUT_MILLIS
        };
        LoopAction::Receive { lenient: self.resource_stack_done, timeout_millis }
    }

    /// A batch read before the resource packs finished but with a decode
    /// error is still used when it shows progress or the spawn happened;
    /// else the run fails.
    pub fn accept_lossy_batch(&self, status: &CapabilityStatus, shows_progress: bool) -> (r: bool)
        ensures
            r == (shows_progress || status.spawn),
    {
        shows_progress || status.spawn
    }

    /// What a failed receive means. After the spawn, a decode error of the
    /// kind the loop holds through starts the hold; else, once movement
    /// passed, the session ends with the error as its disconnect reason and
    /// the status finalized; a timeout after the spawn just goes round
    /// again. Before the spawn both fail the run. The connected time is
    /// brought up to `now` whenever the loop goes on or ends.
    pub fn recv_failure_step(&mut self, status: &mut CapabilityStatus, failure: RecvFailure, now_millis: u64) -> (r: RecvOutcome)
        ensures
            match failure {
                RecvFailure::Error { post_spawn_decode, message } => if old(status).spawn && post_spawn_decode {
                    &&& r == (RecvOutcome::Continue { drive_movement: false })
                    &&& *final(self) == (SessionProgress { post_spawn_decode_hold: true, ..*old(self) })
                    &&& *final(status) == with_connected_time(*old(status), *old(self), now_millis)
                } else if old(status).spawn && old(status).movement {
                    &&& r == RecvOutcome::Finished
                    &&& *final(self) == *old(self)
                    &&& finalized(
                        CapabilityStatus {
                            disconnect_handling: true,
                            disconnect_reason: Some(message),
                            ..with_connected_time(*old(status), *old(self), now_millis)
                        },
                        *final(status),
                    )
                } else {
                    r == RecvOutcome::Fail && *final(self) == *old(self) && *final(status) == *old(status)
                },
                RecvFailure::Timeout => if old(status).spawn {
                    &&& r == (RecvOutcome::Continue { drive_movement: old(self).movement_init_sent })
                    &&& *final(self) == *old(self)
                    &&& *final(status) == with_connected_time(*old(status), *old(self), now_millis)
                } else {
                    r == RecvOutcome::TimedOutBeforeSpawn && *final(self) == *old(self) && *final(status) == *old(status)
                },
            },
    {
        match failure {
            RecvFailure::Error { post_spawn_decode, message } => {
                if status.spawn && post_spawn_decode {
                    self.post_spawn_decode_hold = true;
                    self.record_connected_time(status, now_millis);
                    return RecvOutcome::Continue { drive_movement: false };
                }
                if status.spawn && status.movement {
                    self.record_connected_time(status, now_millis);
                    status.record_disconnect(message);
                    status.finalize();
                    return RecvOutcome::Finished;
                }
                RecvOutcome::Fail
            },
            RecvFailure::Timeout => {
                if status.spawn {
                    self.record_connected_time(status, now_millis);
                    return RecvOutcome::Continue { drive_movement: self.movement_init_sent };
                }
                RecvOutcome::TimedOutBeforeSpawn
            },
        }
    }

    /// What an observed packet proves and asks for. A disconnect ends the
    /// session: it counts as handled, the connected time is brought up to
    /// `now`, and the status is finalized (the caller records its reason
    /// first with `record_disconnect`). Any other packet sets the flags it
    /// proves and moves the loop as `packet_progress` says.
    pub fn observed_step(&mut self, status: &mut CapabilityStatus, packet: &ObservedPacket, now_millis: u64) -> (r: PacketAction)
        ensures
            match *packet {
                ObservedPacket::Disconnect(_) => {
                    &&& r == PacketAction::Finished
                    &&& *final(self) == *old(self)
                    &&& finalized(
                        match old(self).spawn_started_at {
                            Some(spawn) => CapabilityStatus {
                                disconnect_handling: true,
                                connected_duration_seconds: connected_seconds(spawn, now_millis),
                                ..*old(status)
                            },
                            None => CapabilityStatus { disconnect_handling: true, ..*old(status) },
                        },
                        *final(status),
                    )
                },
                _ => {
                    &&& (*final(self), r) == packet_progress(
                        old(status).spawn,
                        old(status).player_spawn,
                        *old(self),
                        *packet,
                        now_millis,
                    )
                    &&& *final(status) == packet_status(*old(status), *packet)
                },
            },
    {
        if let ObservedPacket::Disconnect(_) = packet {
            status.disconnect_handling = true;
            if let Some(spawn) = self.spawn_started_at {
                status.connected_duration_seconds = connected_seconds_exec(spawn, now_millis);
            }
            status.finalize();
            return PacketAction::Finished;
        }
        let (next, action) = packet_progress_exec(status.spawn, status.player_spawn, *self, packet, now_millis);
        apply_packet_flags(status, packet);
        *self = next;
        action
    }
}

/// `packet_progress`, computed.
fn packet_progress_exec(
    spawned: bool,
    player_spawned: bool,
    p: SessionProgress,
    packet: &ObservedPacket,
    now: u64,
) -> (r: (SessionProgress, PacketAction))
    ensures
        r == packet_progress(spawned, player_spawned, p, *packet, now),
{
    match packet {
        ObservedPacket::PlayStatus(code) => {
            let spawn_code: bool = match code {
                Some(c) => *c == PLAY_STATUS_PLAYER_SPAWN,
                None => false,
            };
            if spawn_code && !p.movement_init_sent && p.movement_started {
                (SessionProgress { movement_init_sent: true, ..p }, PacketAction::InitMovement)
            } else {
                (p, PacketAction::Nothing)
            }
        },
        ObservedPacket::ResourcePacksInfo => (p, PacketAction::SendPackResponses),
        ObservedPacket::ResourcePackStack => (SessionProgress { resource_stack_done: true, ..p }, PacketAction::SendStackCompleted),
        ObservedPacket::StartGame(start) => {
            if spawned {
                return (p, PacketAction::Nothing);
            }
            let p1 = SessionProgress { spawn_started_at: Some(now), resource_stack_done: true, ..p };
            if start.is_some() {
                let init: bool = player_spawned && !p.movement_init_sent;
                (
                    SessionProgress { movement_started: true, movement_init_sent: p.movement_init_sent || init, ..p1 },
                    PacketAction::StartMovement { init },
                )
            } else {
                (p1, PacketAction::Nothing)
            }
        },
        ObservedPacket::NetworkStackLatency { timestamp, needs_response } => if *needs_response {
            (p, PacketAction::ReplyLatency { timestamp: *timestamp })
        } else {
            (p, PacketAction::Nothing)
        },
        ObservedPacket::AddItemEntity(_) => (p, PacketAction::ForMovement),
        ObservedPacket::TakeItemEntity { .. } => (p, PacketAction::ForMovement),
        ObservedPacket::InventoryContent { .. } => (p, PacketAction::ForMovement),
        ObservedPacket::InventorySlot { .. } => (p, PacketAction::ForMovement),
        ObservedPacket::LevelChunk { .. } => (p, PacketAction::ForMovement),
        ObservedPacket::NetworkChunkPublisherUpdate { .. } => (p, PacketAction::ForMovement),
        ObservedPacket::UpdateBlock { .. } => (p, PacketAction::ForMovement),
        ObservedPacket::Other(id) => if *id == SPAWN_PACKET_ID && p.spawn_started_at.is_none() {
            (SessionProgress { spawn_started_at: Some(now), ..p }, PacketAction::Nothing)
        } else {
            (p, PacketAction::Nothing)
        },
        _ => (p, PacketAction::Nothing),
    }
}

/// Sets the capability flags a packet proves.
fn apply_packet_flags(status: &mut CapabilityStatus, packet: &ObservedPacket)
    ensures
        *final(status) == packet_status(*old(status), *packet),
{
    match packet {
        ObservedPacket::PlayStatus(code) => {
            status.login = true;
            let spawn_code: bool = match code {
                Some(c) => *c == PLAY_STATUS_PLAYER_SPAWN,
                None => false,
            };
            if spawn_code {
                status.player_spawn = true;
            }
        },
        ObservedPacket::StartGame(_) => {
            status.spawn = true;
        },
        ObservedPacket::NetworkStackLatency { .. } => {
            status.keepalive = true;
        },
        ObservedPacket::Text(_) => {
            status.chat = true;
        },
        ObservedPacket::ModalFormRequest => {
            status.forms = true;
        },
        ObservedPacket::InventoryContent { .. } => {
            status.inventory_transactions = true;
        },
        ObservedPacket::InventorySlot { .. } => {
            status.inventory_transactions = true;
        },
        ObservedPacket::ItemStackResponse { .. } => {
            status.inventory_transactions = true;
        },
        ObservedPacket::Other(id) => {
            if *id == SPAWN_PACKET_ID {
                status.spawn = true;
            }
        },
        _ => {},
    }
}

} // verus!

//! How the client answers the status server over its websocket: which frames
//! it reads, and which packets it answers.
use vstd::prelude::*;

verus! {

/// The kind of a websocket frame.
#[derive(Clone, Copy, Debug, PartialEq, Eq, Structural)]
pub enum Opcode {
    Continuation,
    Text,
    Binary,
    Close,
    Ping,
    Pong,
}

/// The kind of a packet the server sends: a request for the current status,
/// or a status message.
#[derive(Clone, Copy, Debug, PartialEq, Eq, Structural)]
pub enum PacketKind {
    Sync,
    Status,
}

/// What the client has just learnt from the server.
#[derive(Clone, Copy, Debug, PartialEq, Eq, Structural)]
pub enum SessionEvent {
    /// A frame of this kind arrived.
    Frame(Opcode),
    /// A message's payload was read as a packet of this kind.
    Packet(PacketKind),
    /// A message's payload is not a packet.
    Malformed,
}

/// What the client does next.
#[derive(Clone, Copy, Debug, PartialEq, Eq, Structural)]
pub enum SessionAction {
    /// Read the frame's payload as a packet.
    ReadPacket,
    /// Send the current status back, as a sync packet.
    SendStatus,
    /// Report that the payload is not valid packet text.
    ReportMalformed,
    /// Wait for the next frame.
    Wait,
}

/// The client's answer to each event: text and binary frames are read as
/// packets, a sync request is answered with the status, a payload that is not
/// a packet is reported, and anything else is passed over.
pub open spec fn answer(event: SessionEvent) -> SessionAction {
    match event {
        SessionEvent::Frame(op) => if op == Opcode::Text || op == Opcode::Binary {
            SessionAction::ReadPacket
        } else {
            SessionAction::Wait
        },
        SessionEvent::Packet(kind) => if kind == PacketKind::Sync {
            SessionAction::SendStatus
        } else {
            SessionAction::Wait
        },
        SessionEvent::Malformed => SessionAction::ReportMalformed,
    }
}

/// Decides what the client does after an event from the server.
pub fn next_action(event: SessionEvent) -> (action: SessionAction)
    ensures
        action == answer(event),
        event matches SessionEvent::Frame(op) ==> (action == SessionAction::ReadPacket <==> (op
            == Opcode::Text || op == Opcode::Binary)),
        event matches SessionEvent::Frame(op) && !(op == Opcode::Text || op == Opcode::Binary)
            ==> action == SessionAction::Wait,
        event matches SessionEvent::Packet(kind) ==> (action == SessionAction::SendStatus <==> kind
            == PacketKind::Sync),
        event matches SessionEvent::Packet(kind) && kind != PacketKind::Sync ==> action
            == SessionAction::Wait,
        event is Malformed ==> action == SessionAction::ReportMalformed,
{
    match event {
        SessionEvent::Frame(op) => match op {
            Opcode::Text | Opcode::Binary => SessionAction::ReadPacket,
            _ => SessionAction::Wait,
        },
        SessionEvent::Packet(kind) => match kind {
            PacketKind::Sync => SessionAction::SendStatus,
            PacketKind::Status => SessionAction::Wait,
        },
        SessionEvent::Malformed => SessionAction::ReportMalformed,
    }
}

/// Only text and binary frames are read; every other frame (continuation,
/// close, ping, pong) is passed over. Only a sync request is answered with
/// the status; any other packet is passed over.
pub proof fn lemma_answers_by_kind(op: Opcode, kind: PacketKind)
    ensures
        answer(SessionEvent::Frame(op)) == SessionAction::ReadPacket <==> (op == Opcode::Text || op
            == Opcode::Binary),
        !(op == Opcode::Text || op == Opcode::Binary) ==> answer(SessionEvent::Frame(op))
            == SessionAction::Wait,
        answer(SessionEvent::Packet(kind)) == SessionAction::SendStatus <==> kind == PacketKind::Sync,
        kind != PacketKind::Sync ==> answer(SessionEvent::Packet(kind)) == SessionAction::Wait,
        answer(SessionEvent::Malformed) == SessionAction::ReportMalformed,
{
}

} // verus!

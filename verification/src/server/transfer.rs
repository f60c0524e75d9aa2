//! Decisions of the fixed-size packet transfer tasks: the reader takes packets of
//! one fixed encoded size from the stream, the writer writes each encoded packet.

use crate::common::packet::{ClientPacket, ServerPacket};
use vstd::prelude::*;

verus! {

/// What a transfer task does next.
#[derive(Debug, PartialEq, Eq)]
pub enum TransferAction {
    /// Go on with the task's loop.
    Continue,
    /// Hand this packet to the server.
    Forward(ClientPacket),
    /// Encode this packet and report the bytes.
    Serialize(ServerPacket),
    /// Write these bytes to the client.
    Write(Vec<u8>),
    /// Tell the server that the client is disconnected, then end the task.
    Disconnect,
}

/// A transfer reader's state: the encoded size of one packet.
pub struct TransferReader {
    size: usize,
}

impl TransferReader {
    /// The number of bytes that make up one packet on the wire.
    pub closed spec fn packet_size(&self) -> nat {
        self.size as nat
    }

    /// A reader of packets that are `size` bytes long on the wire.
    pub fn new(size: usize) -> (reader: Self)
        ensures
            reader.packet_size() == size,
    {
        TransferReader { size }
    }

    /// A zeroed buffer of one packet's size, to read the next packet into.
    pub fn fresh_buffer(&self) -> (buffer: Vec<u8>)
        ensures
            buffer@ == Seq::new(self.packet_size(), |i: int| 0u8),
    {
        let mut buffer: Vec<u8> = Vec::new();
        let mut i: usize = 0;
        while i < self.size
            invariant
                i <= self.size,
                buffer@ == Seq::new(i as nat, |k: int| 0u8),
            decreases self.size - i,
        {
            buffer.push(0u8);
            i = i + 1;
            assert(buffer@ =~= Seq::new(i as nat, |k: int| 0u8));
        }
        buffer
    }

    /// Takes whether a whole packet's bytes were read; if not, the client is reported
    /// disconnected.
    pub fn on_read(filled: bool) -> (action: TransferAction)
        ensures
            action == (if filled {
                TransferAction::Continue
            } else {
                TransferAction::Disconnect
            }),
    {
        if filled {
            TransferAction::Continue
        } else {
            TransferAction::Disconnect
        }
    }

    /// Takes the decoded packet (`None` when the bytes did not decode): a packet is
    /// forwarded; a decoding failure reports the client disconnected.
    pub fn on_decoded(packet: Option<ClientPacket>) -> (action: TransferAction)
        ensures
            action == (match packet {
                Some(p) => TransferAction::Forward(p),
                None => TransferAction::Disconnect,
            }),
    {
        match packet {
            Some(p) => TransferAction::Forward(p),
            None => TransferAction::Disconnect,
        }
    }

    /// Takes whether the forwarded packet was accepted; if not, the client is
    /// reported disconnected.
    pub fn on_forwarded(sent: bool) -> (action: TransferAction)
        ensures
            action == (if sent {
                TransferAction::Continue
            } else {
                TransferAction::Disconnect
            }),
    {
        if sent {
            TransferAction::Continue
        } else {
            TransferAction::Disconnect
        }
    }
}

/// Takes the next packet to send (`None` when no more can come): a packet goes to
/// the encoder; otherwise the client is reported disconnected.
pub fn writer_on_received(packet: Option<ServerPacket>) -> (action: TransferAction)
    ensures
        action == (match packet {
            Some(p) => TransferAction::Serialize(p),
            None => TransferAction::Disconnect,
        }),
{
    match packet {
        Some(p) => TransferAction::Serialize(p),
        None => TransferAction::Disconnect,
    }
}

/// Takes the encoded packet (`None` when encoding failed): the bytes are written
/// as they are; an encoding failure reports the client disconnected.
pub fn writer_on_serialized(encoded: Option<Vec<u8>>) -> (action: TransferAction)
    ensures
        match encoded {
            Some(bytes) => action matches TransferAction::Write(out) && out@ == bytes@,
            None => action == TransferAction::Disconnect,
        },
{
    match encoded {
        Some(bytes) => TransferAction::Write(bytes),
        None => TransferAction::Disconnect,
    }
}

/// Takes whether the bytes were written; if not, the client is reported
/// disconnected.
pub fn writer_on_written(written: bool) -> (action: TransferAction)
    ensures
        action == (if written {
            TransferAction::Continue
        } else {
            TransferAction::Disconnect
        }),
{
    if written {
        TransferAction::Continue
    } else {
        TransferAction::Disconnect
    }
}

} // verus!

//! Decisions of the client's network tasks: when to connect, and what the reader
//! and the writer do with each message, line and result they get.

use crate::common::packet::{after_line_read, line_text, frame_line, framed, ClientPacket, ServerPacket};
use vstd::prelude::*;

verus! {

/// A message between the game and the client's network tasks.
#[derive(Debug, Clone, Copy, PartialEq, Eq, Structural)]
pub enum Message {
    Disconnect,
    Received(ServerPacket),
    Start,
    Send(ClientPacket),
}

/// A half of the connection to the server.
#[derive(Debug, Clone, Copy, PartialEq, Eq, Structural)]
pub enum ShutdownSide {
    Read,
    Write,
}

/// What a client network task does next.
#[derive(Debug, PartialEq, Eq)]
pub enum ClientAction {
    /// Go on with the task's loop.
    Continue,
    /// Hand this message to the game.
    Forward(Message),
    /// Encode this packet and report the bytes.
    Serialize(ClientPacket),
    /// Write these bytes to the server.
    Write(Vec<u8>),
    /// Shut down this half of the connection and end the task.
    Shutdown(ShutdownSide),
}

/// Whether a message received by the starting task asks it to connect.
pub fn should_connect(message: Option<Message>) -> (connect: bool)
    ensures
        connect == (message == Some(Message::Start)),
{
    match message {
        Some(Message::Start) => true,
        _ => false,
    }
}

/// The reader task's state: every line read from the server so far, in order.
pub struct ClientReader {
    buffer: String,
}

impl ClientReader {
    /// The text that the reader holds: what it hands to the packet decoder.
    pub closed spec fn buffered(&self) -> Seq<char> {
        self.buffer@
    }

    /// A reader that has read nothing yet.
    pub fn new() -> (reader: Self)
        ensures
            reader.buffered() == Seq::<char>::empty(),
    {
        ClientReader { buffer: String::new() }
    }

    /// The reader's answer to a message from the game (`None` when none was waiting):
    /// a disconnect request shuts down the read half; anything else is ignored.
    pub fn on_control(message: Option<Message>) -> (action: ClientAction)
        ensures
            action == (if message == Some(Message::Disconnect) {
                ClientAction::Shutdown(ShutdownSide::Read)
            } else {
                ClientAction::Continue
            }),
    {
        match message {
            Some(Message::Disconnect) => ClientAction::Shutdown(ShutdownSide::Read),
            _ => ClientAction::Continue,
        }
    }

    /// Takes the outcome of reading a line (`None` when the read failed). A line is
    /// added to what the reader holds, which is never cleared; a failed read shuts
    /// down the read half.
    pub fn on_line(&mut self, line: Option<&str>) -> (action: ClientAction)
        ensures
            final(self).buffered() == after_line_read(old(self).buffered(), line_text(line)),
            line matches Some(text) ==> final(self).buffered() == old(self).buffered() + text@,
            line is None ==> final(self).buffered() == old(self).buffered(),
            action == (if line is Some {
                ClientAction::Continue
            } else {
                ClientAction::Shutdown(ShutdownSide::Read)
            }),
    {
        match line {
            Some(text) => {
                self.buffer.append(text);
                ClientAction::Continue
            },
            None => ClientAction::Shutdown(ShutdownSide::Read),
        }
    }

    /// The text that the reader holds, for the packet decoder.
    pub fn buffer(&self) -> (text: &str)
        ensures
            text@ == self.buffered(),
    {
        self.buffer.as_str()
    }

    /// Takes the decoded packet (`None` when the held text did not decode): a packet
    /// is forwarded to the game; a decoding failure shuts down the read half.
    pub fn on_parsed(packet: Option<ServerPacket>) -> (action: ClientAction)
        ensures
            action == (match packet {
                Some(p) => ClientAction::Forward(Message::Received(p)),
                None => ClientAction::Shutdown(ShutdownSide::Read),
            }),
    {
        match packet {
            Some(p) => ClientAction::Forward(Message::Received(p)),
            None => ClientAction::Shutdown(ShutdownSide::Read),
        }
    }

    /// Takes whether the game accepted the forwarded message; if not, the read half
    /// is shut down.
    pub fn on_forwarded(sent: bool) -> (action: ClientAction)
        ensures
            action == (if sent {
                ClientAction::Continue
            } else {
                ClientAction::Shutdown(ShutdownSide::Read)
            }),
    {
        if sent {
            ClientAction::Continue
        } else {
            ClientAction::Shutdown(ShutdownSide::Read)
        }
    }
}

/// The writer's answer to a message from the game (`None` when none was waiting):
/// a disconnect request shuts down the write half, a packet to send is handed to
/// the encoder, and anything else is ignored.
pub fn writer_on_message(message: Option<Message>) -> (action: ClientAction)
    ensures
        action == (match message {
            Some(Message::Disconnect) => ClientAction::Shutdown(ShutdownSide::Write),
            Some(Message::Send(packet)) => ClientAction::Serialize(packet),
            _ => ClientAction::Continue,
        }),
{
    match message {
        Some(Message::Disconnect) => ClientAction::Shutdown(ShutdownSide::Write),
        Some(Message::Send(packet)) => ClientAction::Serialize(packet),
        _ => ClientAction::Continue,
    }
}

/// Takes the encoded packet (`None` when encoding failed): the bytes are framed as
/// one line to write; an encoding failure shuts down the read half.
pub fn writer_on_serialized(encoded: Option<Vec<u8>>) -> (action: ClientAction)
    ensures
        match encoded {
            Some(bytes) => action matches ClientAction::Write(line) && line@ == framed(bytes@),
            None => action == ClientAction::Shutdown(ShutdownSide::Read),
        },
{
    match encoded {
        Some(bytes) => ClientAction::Write(frame_line(bytes)),
        None => ClientAction::Shutdown(ShutdownSide::Read),
    }
}

/// Takes whether the line was written; if not, the read half is shut down.
pub fn writer_on_written(written: bool) -> (action: ClientAction)
    ensures
        action == (if written {
            ClientAction::Continue
        } else {
            ClientAction::Shutdown(ShutdownSide::Read)
        }),
{
    if written {
        ClientAction::Continue
    } else {
        ClientAction::Shutdown(ShutdownSide::Read)
    }
}

} // verus!

//! Decisions of a connection's reader and writer tasks on the server: what each
//! does with the messages, lines and results it gets.

use crate::common::packet::{after_line_read, line_text, ClientPacket, ServerPacket};
use crate::server::data::Message;
use vstd::prelude::*;

verus! {

/// What a server connection task does next.
#[derive(Debug, Clone, Copy, PartialEq, Eq, Structural)]
pub enum ServerAction {
    /// Go on with the task's loop.
    Continue,
    /// Hand this message to the main loop.
    Forward(Message),
    /// Encode this packet and write the bytes to the client.
    Serialize(ServerPacket),
    /// End the task.
    Return,
    /// Tell the main loop that the client is disconnected, then end the task.
    Disconnect,
}

/// The text that the reader holds after the packet decoder has reported: a decoded
/// packet has used up the text; after a failure the text stays as it was.
pub open spec fn after_decoding(held: Seq<char>, decoded: bool) -> Seq<char> {
    if decoded {
        Seq::empty()
    } else {
        held
    }
}

/// A reader task's state: the text of the line being decoded.
pub struct ServerReader {
    buffer: String,
}

impl ServerReader {
    /// The text that the reader holds: what it hands to the packet decoder.
    pub closed spec fn buffered(&self) -> Seq<char> {
        self.buffer@
    }

    /// A reader that holds no text.
    pub fn new() -> (reader: Self)
        ensures
            reader.buffered() == Seq::<char>::empty(),
    {
        ServerReader { buffer: String::new() }
    }

    /// The reader's answer to a message from the main loop (`None` when none was
    /// waiting): a disconnection ends the task; anything else is ignored.
    pub fn on_control(message: Option<Message>) -> (action: ServerAction)
        ensures
            action == (if message == Some(Message::Disconnected) {
                ServerAction::Return
            } else {
                ServerAction::Continue
            }),
    {
        match message {
            Some(Message::Disconnected) => ServerAction::Return,
            _ => ServerAction::Continue,
        }
    }

    /// Takes the outcome of reading a line (`None` when the read failed): a line is
    /// added to the held text; a failed read reports the client disconnected.
    pub fn on_line(&mut self, line: Option<&str>) -> (action: ServerAction)
        ensures
            final(self).buffered() == after_line_read(old(self).buffered(), line_text(line)),
            line matches Some(text) ==> final(self).buffered() == old(self).buffered() + text@,
            line is None ==> final(self).buffered() == old(self).buffered(),
            action == (if line is Some {
                ServerAction::Continue
            } else {
                ServerAction::Disconnect
            }),
    {
        match line {
            Some(text) => {
                self.buffer.append(text);
                ServerAction::Continue
            },
            None => ServerAction::Disconnect,
        }
    }

    /// The text that the reader holds, for the packet decoder.
    pub fn buffer(&self) -> (text: &str)
        ensures
            text@ == self.buffered(),
    {
        self.buffer.as_str()
    }

    /// Takes the decoded packet (`None` when the held text did not decode): a packet
    /// is forwarded to the main loop and the held text is cleared; a decoding
    /// failure reports the client disconnected.
    pub fn on_parsed(&mut self, packet: Option<ClientPacket>) -> (action: ServerAction)
        ensures
            final(self).buffered() == after_decoding(old(self).buffered(), packet is Some),
            action == (match packet {
                Some(p) => ServerAction::Forward(Message::Received(p)),
                None => ServerAction::Disconnect,
            }),
    {
        match packet {
            Some(p) => {
                self.buffer = String::new();
                ServerAction::Forward(Message::Received(p))
            },
            None => ServerAction::Disconnect,
        }
    }
}

/// The writer's answer to a message from the main loop (`None` when none was
/// waiting): a packet to send goes to the encoder, a disconnection ends the task,
/// and anything else is ignored.
pub fn writer_on_message(message: Option<Message>) -> (action: ServerAction)
    ensures
        action == (match message {
            Some(Message::Send(packet)) => ServerAction::Serialize(packet),
            Some(Message::Disconnected) => ServerAction::Return,
            _ => ServerAction::Continue,
        }),
{
    match message {
        Some(Message::Send(packet)) => ServerAction::Serialize(packet),
        Some(Message::Disconnected) => ServerAction::Return,
        _ => ServerAction::Continue,
    }
}

/// Takes whether the encoded packet was written; if not, the client is reported
/// disconnected.
pub fn writer_on_written(written: bool) -> (action: ServerAction)
    ensures
        action == (if written {
            ServerAction::Continue
        } else {
            ServerAction::Disconnect
        }),
{
    if written {
        ServerAction::Continue
    } else {
        ServerAction::Disconnect
    }
}

/// A reader that has just forwarded a packet holds no text, so the next packet it
/// decodes is made of exactly the next line it reads.
pub proof fn lemma_one_line_per_packet(held: Seq<char>, line: Seq<char>)
    ensures
        after_line_read(after_decoding(held, true), Some(line)) == line,
{
    assert(Seq::<char>::empty() + line =~= line);
}

} // verus!

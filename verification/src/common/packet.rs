//! The packets that travel between the client and the server, and the line
//! framing that carries one encoded packet per line.

use vstd::prelude::*;

verus! {

/// A packet sent by the server to a client.
#[derive(Debug, Clone, Copy, PartialEq, Eq, Structural)]
pub struct ServerPacket {
    pub command: ServerCommand,
}

/// What a server packet asks of the client.
#[derive(Debug, Clone, Copy, PartialEq, Eq, Structural)]
pub enum ServerCommand {
    Pong(u16),
}

/// A packet sent by a client to the server.
#[derive(Debug, Clone, Copy, PartialEq, Eq, Structural)]
pub struct ClientPacket {
    pub command: ClientCommand,
}

/// What a client packet asks of the server.
#[derive(Debug, Clone, Copy, PartialEq, Eq, Structural)]
pub enum ClientCommand {
    Ping(u16),
}

/// The byte that ends a line (`b'\n'`).
pub const NEWLINE: u8 = 0x0A;

/// An encoded packet followed by the line terminator.
pub open spec fn framed(payload: Seq<u8>) -> Seq<u8> {
    payload.push(NEWLINE)
}

/// The bytes that a line reader takes from the front of `bytes`: everything up to
/// and including the first line terminator, or all of `bytes` when it holds none.
pub open spec fn first_line(bytes: Seq<u8>) -> Seq<u8>
    decreases bytes.len(),
{
    if bytes.len() == 0 {
        bytes
    } else if bytes[0] == NEWLINE {
        seq![NEWLINE]
    } else {
        seq![bytes[0]] + first_line(bytes.drop_first())
    }
}

/// The text that a line reader holds after taking the outcome of one read: a line
/// read (`Some`) is added at the end; a failed read (`None`) leaves the text as it was.
pub open spec fn after_line_read(held: Seq<char>, line: Option<Seq<char>>) -> Seq<char> {
    match line {
        Some(text) => held + text,
        None => held,
    }
}

/// Reading a line adds exactly that line after the held text, whatever the held text
/// is: the held text stays a prefix, the length grows by the line's length, and what
/// follows the held text is the line; two reads in a row add both lines in order. A
/// failed read changes nothing.
pub proof fn lemma_line_read_appends(held: Seq<char>, line: Seq<char>, next: Seq<char>)
    ensures
        after_line_read(held, Some(line)) == held + line,
        after_line_read(held, Some(line)).len() == held.len() + line.len(),
        held.is_prefix_of(after_line_read(held, Some(line))),
        after_line_read(held, Some(line)).subrange(held.len() as int, (held.len() + line.len()) as int)
            == line,
        after_line_read(after_line_read(held, Some(line)), Some(next)) == held + line + next,
        after_line_read(held, None) == held,
{
    let after = after_line_read(held, Some(line));
    assert(after.subrange(0, held.len() as int) =~= held);
    assert(after.subrange(held.len() as int, (held.len() + line.len()) as int) =~= line);
}

/// The text of the outcome of a line read, `None` standing for a failed read.
pub open spec fn line_text(line: Option<&str>) -> Option<Seq<char>> {
    match line {
        Some(text) => Some(text@),
        None => None,
    }
}

/// Appends the line terminator to an encoded packet, so that the receiving side
/// can read it back as one line.
pub fn frame_line(payload: Vec<u8>) -> (line: Vec<u8>)
    ensures
        line@ == framed(payload@),
{
    let mut line = payload;
    line.push(NEWLINE);
    line
}

/// A payload that holds no line terminator, once framed, is exactly the first line
/// of whatever stream it starts, and dropping the terminator gives the payload back.
pub proof fn lemma_framed_line_roundtrip(payload: Seq<u8>, rest: Seq<u8>)
    requires
        !payload.contains(NEWLINE),
    ensures
        first_line(framed(payload) + rest) == framed(payload),
        first_line(framed(payload) + rest).drop_last() == payload,
    decreases payload.len(),
{
    let stream = framed(payload) + rest;
    if payload.len() == 0 {
        assert(stream[0] == NEWLINE);
        assert(framed(payload) =~= seq![NEWLINE]);
    } else {
        let tail = payload.drop_first();
        assert(payload[0] != NEWLINE) by {
            if payload[0] == NEWLINE {
                assert(payload.contains(NEWLINE));
            }
        }
        assert(!tail.contains(NEWLINE)) by {
            if tail.contains(NEWLINE) {
                let j = choose|j: int| 0 <= j < tail.len() && tail[j] == NEWLINE;
                assert(payload[j + 1] == NEWLINE);
            }
        }
        assert(stream[0] == payload[0]);
        assert(stream.drop_first() =~= framed(tail) + rest);
        lemma_framed_line_roundtrip(tail, rest);
        assert(framed(payload) =~= seq![payload[0]] + framed(tail));
    }
    assert(framed(payload).drop_last() =~= payload);
}

} // verus!

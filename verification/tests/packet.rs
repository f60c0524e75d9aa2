use bioscape::common::packet::{frame_line, ClientCommand, ClientPacket, ServerCommand, ServerPacket, NEWLINE};

#[test]
fn frame_line_appends_newline() {
    let framed = frame_line(b"{\"command\":{\"Ping\":42}}".to_vec());
    assert_eq!(framed, b"{\"command\":{\"Ping\":42}}\n".to_vec());
}

#[test]
fn frame_line_of_empty_payload_is_bare_newline() {
    assert_eq!(frame_line(Vec::new()), vec![NEWLINE]);
}

#[test]
fn framed_line_is_first_line_of_stream() {
    let payload = b"{\"command\":{\"Ping\":7}}".to_vec();
    let mut stream = frame_line(payload.clone());
    stream.extend_from_slice(b"{\"command\":{\"Ping\":8}}\n");
    let end = stream.iter().position(|b| *b == NEWLINE).unwrap() + 1;
    let first = &stream[..end];
    assert_eq!(first, &frame_line(payload.clone())[..]);
    assert_eq!(&first[..first.len() - 1], &payload[..]);
}

#[test]
fn packets_compare_by_command() {
    let a = ClientPacket { command: ClientCommand::Ping(1) };
    let b = ClientPacket { command: ClientCommand::Ping(1) };
    let c = ClientPacket { command: ClientCommand::Ping(2) };
    assert_eq!(a, b);
    assert_ne!(a, c);
    let s = ServerPacket { command: ServerCommand::Pong(3) };
    let t = s;
    assert_eq!(s, t);
}

use bioscape::common::packet::{ClientCommand, ClientPacket, ServerCommand, ServerPacket};
use bioscape::server::accept::{writer_on_message, writer_on_written, ServerAction, ServerReader};
use bioscape::server::channel::ReaderEnd;
use bioscape::server::data::{Client, Message, PeerAddr, Server};
use bioscape::server::transfer::{
    writer_on_received, writer_on_serialized, writer_on_written as transfer_written, TransferAction,
    TransferReader,
};

fn ping(n: u16) -> ClientPacket {
    ClientPacket { command: ClientCommand::Ping(n) }
}

fn pong(n: u16) -> ServerPacket {
    ServerPacket { command: ServerCommand::Pong(n) }
}

fn addr(port: u16) -> PeerAddr {
    PeerAddr::V4 { ip: 0x7f00_0001, port }
}

fn new_client() -> (Client, crossbeam_channel::Sender<Message>) {
    let (to_reader, _r1) = crossbeam_channel::unbounded();
    let (reader_side, from_reader) = crossbeam_channel::unbounded();
    let (to_writer, _r2) = crossbeam_channel::unbounded();
    let (_s2, from_writer) = crossbeam_channel::unbounded();
    (Client { from_reader: ReaderEnd::new(from_reader), to_reader, from_writer, to_writer }, reader_side)
}

#[test]
fn new_server_has_no_clients() {
    let mut server = Server::new();
    assert!(server.get(&addr(1)).is_none());
    assert!(server.poll_readers().is_empty());
}

#[test]
fn insert_then_get() {
    let mut server = Server::new();
    let (c1, s1) = new_client();
    assert!(server.insert(addr(1), c1).is_none());
    assert!(server.get(&addr(1)).is_some());
    assert!(server.get(&addr(2)).is_none());
    s1.send(Message::Received(ping(9))).unwrap();
    let got = server.get(&addr(1)).unwrap().from_reader.receiver().try_recv().unwrap();
    assert_eq!(got, Message::Received(ping(9)));
}

#[test]
fn insert_replaces_and_returns_previous() {
    let mut server = Server::new();
    let (c1, s1) = new_client();
    let (c2, s2) = new_client();
    server.insert(addr(1), c1);
    let mut previous = server.insert(addr(1), c2).expect("a client was registered there");
    s1.send(Message::Disconnected).unwrap();
    assert_eq!(previous.from_reader.try_receive(), Some(Message::Disconnected));
    assert_eq!(previous.from_reader.try_receive(), None);
    s2.send(Message::Received(ping(2))).unwrap();
    let polled = server.poll_readers();
    assert_eq!(polled, vec![(addr(1), Message::Received(ping(2)))]);
}

#[test]
fn v4_and_v6_addresses_differ() {
    let mut server = Server::new();
    let (c1, _s1) = new_client();
    server.insert(addr(5), c1);
    let v6 = PeerAddr::V6 { ip_v6: 0x7f00_0001, port: 5, flowinfo: 0, scope_id: 0 };
    assert!(server.get(&v6).is_none());
}

#[test]
fn poll_takes_one_message_per_client() {
    let mut server = Server::new();
    let (c1, s1) = new_client();
    let (c2, _s2) = new_client();
    let (c3, s3) = new_client();
    server.insert(addr(1), c1);
    server.insert(addr(2), c2);
    server.insert(addr(3), c3);
    s1.send(Message::Received(ping(1))).unwrap();
    s1.send(Message::Received(ping(11))).unwrap();
    s3.send(Message::Disconnected).unwrap();
    let polled = server.poll_readers();
    assert_eq!(polled, vec![(addr(1), Message::Received(ping(1))), (addr(3), Message::Disconnected)]);
    let again = server.poll_readers();
    assert_eq!(again, vec![(addr(1), Message::Received(ping(11)))]);
}

#[test]
fn register_connects_tasks_to_registry() {
    let mut server = Server::new();
    let ends = server.register(addr(7));
    ends.reader_sender.send(Message::Received(ping(4))).unwrap();
    assert_eq!(server.poll_readers(), vec![(addr(7), Message::Received(ping(4)))]);
    let client = server.get(&addr(7)).unwrap();
    client.to_reader.send(Message::Disconnected).unwrap();
    assert_eq!(ends.reader_receiver.try_recv().unwrap(), Message::Disconnected);
    client.to_writer.send(Message::Send(pong(1))).unwrap();
    assert_eq!(ends.writer_receiver.try_recv().unwrap(), Message::Send(pong(1)));
    ends.writer_sender.send(Message::Disconnected).unwrap();
    assert_eq!(client.from_writer.try_recv().unwrap(), Message::Disconnected);
}

#[test]
fn register_twice_replaces_client() {
    let mut server = Server::new();
    let old_ends = server.register(addr(8));
    let new_ends = server.register(addr(8));
    old_ends.reader_sender.send(Message::Received(ping(1))).unwrap_or(());
    new_ends.reader_sender.send(Message::Received(ping(2))).unwrap();
    assert_eq!(server.poll_readers(), vec![(addr(8), Message::Received(ping(2)))]);
}

#[test]
fn server_reader_clears_after_each_packet() {
    let mut reader = ServerReader::new();
    assert_eq!(reader.on_line(Some("{\"command\":{\"Ping\":1}}\n")), ServerAction::Continue);
    assert_eq!(reader.buffer(), "{\"command\":{\"Ping\":1}}\n");
    assert_eq!(reader.on_parsed(Some(ping(1))), ServerAction::Forward(Message::Received(ping(1))));
    assert_eq!(reader.buffer(), "");
    reader.on_line(Some("{\"command\":{\"Ping\":2}}\n"));
    assert_eq!(reader.buffer(), "{\"command\":{\"Ping\":2}}\n");
}

#[test]
fn server_reader_failures_disconnect() {
    let mut reader = ServerReader::new();
    reader.on_line(Some("junk\n"));
    assert_eq!(reader.on_parsed(None), ServerAction::Disconnect);
    assert_eq!(reader.buffer(), "junk\n");
    assert_eq!(reader.on_line(None), ServerAction::Disconnect);
    assert_eq!(reader.buffer(), "junk\n");
}

#[test]
fn server_reader_control() {
    assert_eq!(ServerReader::on_control(Some(Message::Disconnected)), ServerAction::Return);
    assert_eq!(ServerReader::on_control(Some(Message::Send(pong(1)))), ServerAction::Continue);
    assert_eq!(ServerReader::on_control(None), ServerAction::Continue);
}

#[test]
fn server_writer_decisions() {
    assert_eq!(writer_on_message(Some(Message::Send(pong(3)))), ServerAction::Serialize(pong(3)));
    assert_eq!(writer_on_message(Some(Message::Disconnected)), ServerAction::Return);
    assert_eq!(writer_on_message(Some(Message::Received(ping(3)))), ServerAction::Continue);
    assert_eq!(writer_on_message(None), ServerAction::Continue);
    assert_eq!(writer_on_written(false), ServerAction::Disconnect);
    assert_eq!(writer_on_written(true), ServerAction::Continue);
}

#[test]
fn transfer_buffer_is_zeroed_packet_size() {
    let reader = TransferReader::new(6);
    assert_eq!(reader.fresh_buffer(), vec![0u8; 6]);
    assert!(TransferReader::new(0).fresh_buffer().is_empty());
}

#[test]
fn transfer_reader_decisions() {
    assert_eq!(TransferReader::on_read(true), TransferAction::Continue);
    assert_eq!(TransferReader::on_read(false), TransferAction::Disconnect);
    assert_eq!(TransferReader::on_decoded(Some(ping(2))), TransferAction::Forward(ping(2)));
    assert_eq!(TransferReader::on_decoded(None), TransferAction::Disconnect);
    assert_eq!(TransferReader::on_forwarded(false), TransferAction::Disconnect);
    assert_eq!(TransferReader::on_forwarded(true), TransferAction::Continue);
}

#[test]
fn transfer_writer_decisions() {
    assert_eq!(writer_on_received(Some(pong(4))), TransferAction::Serialize(pong(4)));
    assert_eq!(writer_on_received(None), TransferAction::Disconnect);
    assert_eq!(writer_on_serialized(Some(vec![0, 0, 0, 0, 4, 0])), TransferAction::Write(vec![0, 0, 0, 0, 4, 0]));
    assert_eq!(writer_on_serialized(None), TransferAction::Disconnect);
    assert_eq!(transfer_written(false), TransferAction::Disconnect);
    assert_eq!(transfer_written(true), TransferAction::Continue);
}

#[test]
fn poll_takes_nothing_when_no_message_waits() {
    let mut server = Server::new();
    let (c1, s1) = new_client();
    server.insert(addr(1), c1);
    assert!(server.poll_readers().is_empty());
    s1.send(Message::Received(ping(6))).unwrap();
    assert_eq!(server.poll_readers(), vec![(addr(1), Message::Received(ping(6)))]);
    assert!(server.poll_readers().is_empty());
}

#[test]
fn register_pairs_writer_channels_not_reader_channels() {
    let mut server = Server::new();
    let ends = server.register(addr(9));
    ends.writer_sender.send(Message::Disconnected).unwrap();
    assert!(server.poll_readers().is_empty());
    let client = server.get(&addr(9)).unwrap();
    assert_eq!(client.from_writer.try_recv().unwrap(), Message::Disconnected);
}

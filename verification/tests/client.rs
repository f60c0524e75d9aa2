use bioscape::client::game::{Event, GameScene, Key, SceneSwitch, TEST_PING};
use bioscape::client::inventory::{get_island_inventory, get_player_inventory};
use bioscape::client::network::{
    should_connect, writer_on_message, writer_on_serialized, writer_on_written, ClientAction,
    ClientReader, Message, ShutdownSide,
};
use bioscape::common::packet::{ClientCommand, ClientPacket, ServerCommand, ServerPacket};

fn pong(n: u16) -> ServerPacket {
    ServerPacket { command: ServerCommand::Pong(n) }
}

fn ping(n: u16) -> ClientPacket {
    ClientPacket { command: ClientCommand::Ping(n) }
}

#[test]
fn connects_only_on_start() {
    assert!(should_connect(Some(Message::Start)));
    assert!(!should_connect(None));
    assert!(!should_connect(Some(Message::Disconnect)));
    assert!(!should_connect(Some(Message::Send(ping(1)))));
    assert!(!should_connect(Some(Message::Received(pong(1)))));
}

#[test]
fn reader_shuts_down_on_disconnect_only() {
    assert_eq!(ClientReader::on_control(Some(Message::Disconnect)), ClientAction::Shutdown(ShutdownSide::Read));
    assert_eq!(ClientReader::on_control(None), ClientAction::Continue);
    assert_eq!(ClientReader::on_control(Some(Message::Start)), ClientAction::Continue);
    assert_eq!(ClientReader::on_control(Some(Message::Send(ping(3)))), ClientAction::Continue);
}

#[test]
fn reader_accumulates_lines_without_clearing() {
    let mut reader = ClientReader::new();
    assert_eq!(reader.buffer(), "");
    assert_eq!(reader.on_line(Some("{\"command\":{\"Pong\":1}}\n")), ClientAction::Continue);
    assert_eq!(reader.buffer(), "{\"command\":{\"Pong\":1}}\n");
    assert_eq!(ClientReader::on_parsed(Some(pong(1))), ClientAction::Forward(Message::Received(pong(1))));
    assert_eq!(reader.on_line(Some("{\"command\":{\"Pong\":2}}\n")), ClientAction::Continue);
    assert_eq!(reader.buffer(), "{\"command\":{\"Pong\":1}}\n{\"command\":{\"Pong\":2}}\n");
}

#[test]
fn reader_failed_read_keeps_text_and_shuts_down() {
    let mut reader = ClientReader::new();
    reader.on_line(Some("abc"));
    assert_eq!(reader.on_line(None), ClientAction::Shutdown(ShutdownSide::Read));
    assert_eq!(reader.buffer(), "abc");
}

#[test]
fn reader_decoding_failure_and_refused_forward_shut_down() {
    assert_eq!(ClientReader::on_parsed(None), ClientAction::Shutdown(ShutdownSide::Read));
    assert_eq!(ClientReader::on_forwarded(false), ClientAction::Shutdown(ShutdownSide::Read));
    assert_eq!(ClientReader::on_forwarded(true), ClientAction::Continue);
}

#[test]
fn writer_answers_messages() {
    assert_eq!(writer_on_message(Some(Message::Disconnect)), ClientAction::Shutdown(ShutdownSide::Write));
    assert_eq!(writer_on_message(Some(Message::Send(ping(5)))), ClientAction::Serialize(ping(5)));
    assert_eq!(writer_on_message(Some(Message::Start)), ClientAction::Continue);
    assert_eq!(writer_on_message(Some(Message::Received(pong(5)))), ClientAction::Continue);
    assert_eq!(writer_on_message(None), ClientAction::Continue);
}

#[test]
fn writer_frames_encoded_packet() {
    assert_eq!(
        writer_on_serialized(Some(b"{\"command\":{\"Ping\":42}}".to_vec())),
        ClientAction::Write(b"{\"command\":{\"Ping\":42}}\n".to_vec())
    );
    assert_eq!(writer_on_serialized(None), ClientAction::Shutdown(ShutdownSide::Read));
}

#[test]
fn writer_write_failure_shuts_read_half() {
    assert_eq!(writer_on_written(false), ClientAction::Shutdown(ShutdownSide::Read));
    assert_eq!(writer_on_written(true), ClientAction::Continue);
}

#[test]
fn new_scene_is_unpaused_and_starts_networking() {
    let (scene, message) = GameScene::new();
    assert!(!scene.is_paused());
    assert_eq!(message, Message::Start);
}

#[test]
fn escape_pauses_once() {
    let (mut scene, _) = GameScene::new();
    assert_eq!(scene.update(), SceneSwitch::Stay);
    scene.event(Event::KeyPressed { key: Key::Escape });
    assert!(scene.is_paused());
    assert_eq!(scene.update(), SceneSwitch::PushPause);
    assert!(!scene.is_paused());
    assert_eq!(scene.update(), SceneSwitch::Stay);
}

#[test]
fn other_events_do_not_pause() {
    let (mut scene, _) = GameScene::new();
    scene.event(Event::KeyPressed { key: Key::Other });
    scene.event(Event::Other);
    assert!(!scene.is_paused());
    scene.event(Event::KeyPressed { key: Key::Escape });
    scene.event(Event::Other);
    assert!(scene.is_paused());
}

#[test]
fn send_button_sends_ping_42() {
    assert_eq!(TEST_PING, 42);
    assert_eq!(GameScene::send_button_packet(true), Some(ping(42)));
    assert_eq!(GameScene::send_button_packet(false), None);
}

#[test]
fn single_inventory_is_returned() {
    assert_eq!(get_player_inventory(vec![vec![1u32, 2, 3]]), vec![1, 2, 3]);
    assert_eq!(get_island_inventory(vec!["wood"]), "wood");
}

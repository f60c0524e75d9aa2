//! The game scene's decisions: pausing, starting the network, and the packet that
//! its network test button sends.

use crate::client::network::Message;
use crate::common::packet::{ClientCommand, ClientPacket};
use vstd::prelude::*;

verus! {

/// A key on the keyboard, as far as the game scene tells keys apart.
#[derive(Debug, Clone, Copy, PartialEq, Eq, Structural)]
pub enum Key {
    Escape,
    Other,
}

/// An input event, as far as the game scene tells events apart.
#[derive(Debug, Clone, Copy, PartialEq, Eq, Structural)]
pub enum Event {
    KeyPressed { key: Key },
    Other,
}

/// The scene change that an update asks for.
#[derive(Debug, Clone, Copy, PartialEq, Eq, Structural)]
pub enum SceneSwitch {
    /// Stay in the game scene.
    Stay,
    /// Push the pause scene on top of the game scene.
    PushPause,
}

/// The value used by the network test button's ping.
pub const TEST_PING: u16 = 42;

/// Whether the scene wants to pause after it has seen `event`.
pub open spec fn paused_after(paused: bool, event: Event) -> bool {
    paused || event == (Event::KeyPressed { key: Key::Escape })
}

/// The scene change that an update asks for.
pub open spec fn switch_for(paused: bool) -> SceneSwitch {
    if paused {
        SceneSwitch::PushPause
    } else {
        SceneSwitch::Stay
    }
}

/// The packet that the network test button sends when it is clicked.
pub open spec fn test_packet() -> ClientPacket {
    ClientPacket { command: ClientCommand::Ping(TEST_PING) }
}

/// The game scene.
#[derive(Debug)]
pub struct GameScene {
    pause: bool,
}

impl GameScene {
    /// Whether the scene wants to be paused at its next update.
    pub closed spec fn paused(&self) -> bool {
        self.pause
    }

    /// A new, unpaused scene, and the message that starts networking.
    pub fn new() -> (started: (GameScene, Message))
        ensures
            !started.0.paused(),
            started.1 == Message::Start,
    {
        (GameScene { pause: false }, Message::Start)
    }

    /// Whether the scene wants to be paused at its next update.
    pub fn is_paused(&self) -> (paused: bool)
        ensures
            paused == self.paused(),
    {
        self.pause
    }

    /// An update: a pending pause is consumed and asks for the pause scene.
    pub fn update(&mut self) -> (switch: SceneSwitch)
        ensures
            switch == switch_for(old(self).paused()),
            !final(self).paused(),
    {
        if self.pause {
            self.pause = false;
            return SceneSwitch::PushPause;
        }
        SceneSwitch::Stay
    }

    /// An input event: pressing Escape asks for a pause; nothing else changes the scene.
    pub fn event(&mut self, event: Event)
        ensures
            final(self).paused() == paused_after(old(self).paused(), event),
    {
        if let Event::KeyPressed { key } = event {
            if key == Key::Escape {
                self.pause = true;
            }
        }
    }

    /// The packet to send for the network test button (`None` unless it was clicked).
    pub fn send_button_packet(clicked: bool) -> (packet: Option<ClientPacket>)
        ensures
            packet == (if clicked {
                Some(test_packet())
            } else {
                None
            }),
    {
        if clicked {
            Some(ClientPacket { command: ClientCommand::Ping(TEST_PING) })
        } else {
            None
        }
    }
}

/// Pressing Escape makes the next update push the pause scene, and the update after
/// that stays put: one press, one pause.
pub proof fn lemma_escape_pauses_once(paused: bool)
    ensures
        switch_for(paused_after(paused, Event::KeyPressed { key: Key::Escape }))
            == SceneSwitch::PushPause,
        switch_for(false) == SceneSwitch::Stay,
{
}

/// Events other than pressing Escape leave the scene's pause request as it was.
pub proof fn lemma_other_events_keep_pause(paused: bool, event: Event)
    requires
        event != (Event::KeyPressed { key: Key::Escape }),
    ensures
        paused_after(paused, event) == paused,
{
}

} // verus!

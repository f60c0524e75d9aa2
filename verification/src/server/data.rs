//! The server's registry of connected clients, keyed by the client's address, and
//! the messages that pass between the server and a client's tasks.

use crate::common::packet::{ClientPacket, ServerPacket};
use crate::server::channel::{open_channel, receiver_channel, sender_channel, ReaderEnd};
use crossbeam_channel::{Receiver, Sender};
use vstd::prelude::*;

verus! {

/// A message between the server's main loop and a client's reader or writer task.
#[derive(Debug, Clone, Copy, PartialEq, Eq, Structural)]
pub enum Message {
    Disconnected,
    Send(ServerPacket),
    Received(ClientPacket),
}

/// A client's socket address, as the registry tells addresses apart: every part
/// that takes part in the equality of a socket address.
#[derive(Debug, Clone, Copy, PartialEq, Eq, Hash, Structural)]
pub enum PeerAddr {
    V4 { ip: u32, port: u16 },
    V6 { ip_v6: u128, port: u16, flowinfo: u32, scope_id: u32 },
}

/// The channel ends by which the server's main loop talks with one client's tasks.
pub struct Client {
    pub from_reader: ReaderEnd,
    pub to_reader: Sender<Message>,
    pub from_writer: Receiver<Message>,
    pub to_writer: Sender<Message>,
}

/// The channel ends that a new client's reader and writer tasks hold: the other
/// ends of those held by its registry entry.
#[derive(Debug)]
pub struct ConnectionEnds {
    pub reader_sender: Sender<Message>,
    pub reader_receiver: Receiver<Message>,
    pub writer_sender: Sender<Message>,
    pub writer_receiver: Receiver<Message>,
}

/// No address occurs twice among the entries.
pub open spec fn keys_unique(entries: Seq<(PeerAddr, Client)>) -> bool {
    forall|i: int, j: int|
        0 <= i < j < entries.len() ==> #[trigger] entries[i].0 != #[trigger] entries[j].0
}

/// Some entry has the address `addr`.
pub open spec fn has_key(entries: Seq<(PeerAddr, Client)>, addr: PeerAddr) -> bool {
    exists|i: int| 0 <= i < entries.len() && #[trigger] entries[i].0 == addr
}

/// The position of an entry with the address `addr`.
pub open spec fn position_of_key(entries: Seq<(PeerAddr, Client)>, addr: PeerAddr) -> int {
    choose|i: int| 0 <= i < entries.len() && #[trigger] entries[i].0 == addr
}

/// The map from address to client that the entries describe.
pub open spec fn entries_map(entries: Seq<(PeerAddr, Client)>) -> Map<PeerAddr, Client> {
    Map::new(
        |addr: PeerAddr| has_key(entries, addr),
        |addr: PeerAddr| entries[position_of_key(entries, addr)].1,
    )
}

/// With unique addresses, the entry at position `i` is what the map gives for its address.
proof fn lemma_entry_in_map(entries: Seq<(PeerAddr, Client)>, i: int)
    requires
        keys_unique(entries),
        0 <= i < entries.len(),
    ensures
        entries_map(entries).contains_key(entries[i].0),
        entries_map(entries)[entries[i].0] == entries[i].1,
{
    let addr = entries[i].0;
    assert(has_key(entries, addr));
    let j = position_of_key(entries, addr);
    if j < i {
        assert(entries[j].0 != entries[i].0);
    } else if i < j {
        assert(entries[i].0 != entries[j].0);
    }
}

/// Replacing the client of an existing entry keeps the addresses unique and
/// updates the map at that address.
proof fn lemma_replace_entry(entries: Seq<(PeerAddr, Client)>, i: int, client: Client)
    requires
        keys_unique(entries),
        0 <= i < entries.len(),
    ensures
        keys_unique(entries.update(i, (entries[i].0, client))),
        entries_map(entries.update(i, (entries[i].0, client)))
            == entries_map(entries).insert(entries[i].0, client),
{
    let addr = entries[i].0;
    let updated = entries.update(i, (addr, client));
    assert(keys_unique(updated)) by {
        assert forall|p: int, q: int| 0 <= p < q < updated.len() implies
            #[trigger] updated[p].0 != #[trigger] updated[q].0 by {
            assert(updated[p].0 == entries[p].0);
            assert(updated[q].0 == entries[q].0);
        }
    }
    let before = entries_map(entries);
    let after = entries_map(updated);
    let expected = before.insert(addr, client);
    assert forall|k: PeerAddr| #[trigger] after.contains_key(k) <==> expected.contains_key(k) by {
        if has_key(entries, k) {
            let j = choose|j: int| 0 <= j < entries.len() && #[trigger] entries[j].0 == k;
            assert(updated[j].0 == k);
        }
        if has_key(updated, k) {
            let j = choose|j: int| 0 <= j < updated.len() && #[trigger] updated[j].0 == k;
            assert(entries[j].0 == k);
        }
    }
    assert forall|k: PeerAddr| after.contains_key(k) implies #[trigger] after[k] == expected[k] by {
        let j = choose|j: int| 0 <= j < updated.len() && #[trigger] updated[j].0 == k;
        lemma_entry_in_map(updated, j);
        if j != i {
            lemma_entry_in_map(entries, j);
        }
    }
    assert(after =~= expected);
}

/// Appending an entry with a new address keeps the addresses unique and adds that
/// address to the map.
proof fn lemma_push_entry(entries: Seq<(PeerAddr, Client)>, addr: PeerAddr, client: Client)
    requires
        keys_unique(entries),
        !has_key(entries, addr),
    ensures
        keys_unique(entries.push((addr, client))),
        entries_map(entries.push((addr, client))) == entries_map(entries).insert(addr, client),
{
    let pushed = entries.push((addr, client));
    let n = entries.len() as int;
    assert(keys_unique(pushed)) by {
        assert forall|p: int, q: int| 0 <= p < q < pushed.len() implies
            #[trigger] pushed[p].0 != #[trigger] pushed[q].0 by {
            if q == n {
                assert(entries[p].0 == pushed[p].0);
            } else {
                assert(pushed[p].0 == entries[p].0);
                assert(pushed[q].0 == entries[q].0);
            }
        }
    }
    let before = entries_map(entries);
    let after = entries_map(pushed);
    let expected = before.insert(addr, client);
    assert forall|k: PeerAddr| #[trigger] after.contains_key(k) <==> expected.contains_key(k) by {
        if has_key(entries, k) {
            let j = choose|j: int| 0 <= j < entries.len() && #[trigger] entries[j].0 == k;
            assert(pushed[j].0 == k);
        }
        if k == addr {
            assert(pushed[n].0 == k);
        }
        if has_key(pushed, k) {
            let j = choose|j: int| 0 <= j < pushed.len() && #[trigger] pushed[j].0 == k;
            if j < n {
                assert(entries[j].0 == k);
            }
        }
    }
    assert forall|k: PeerAddr| after.contains_key(k) implies #[trigger] after[k] == expected[k] by {
        let j = choose|j: int| 0 <= j < pushed.len() && #[trigger] pushed[j].0 == k;
        lemma_entry_in_map(pushed, j);
        if j < n {
            assert(entries[j].0 == k);
            lemma_entry_in_map(entries, j);
        }
    }
    assert(after =~= expected);
}

/// What one poll of the registry's entries yields, given what each entry's reader
/// channel gave (`outcomes[i]` for the `i`-th entry, `None` when nothing was
/// waiting): the entries whose channel gave a message, in registry order, each
/// message paired with its entry's address.
pub open spec fn polled(
    entries: Seq<(PeerAddr, Client)>,
    outcomes: Seq<Option<Message>>,
) -> Seq<(PeerAddr, Message)>
    decreases entries.len(),
{
    if entries.len() == 0 {
        Seq::empty()
    } else {
        let earlier = polled(entries.drop_last(), outcomes.drop_last());
        match outcomes.last() {
            Some(message) => earlier.push((entries.last().0, message)),
            None => earlier,
        }
    }
}

/// How many of the polls took a message.
pub open spec fn taken_count(outcomes: Seq<Option<Message>>) -> nat {
    outcomes.filter(|outcome: Option<Message>| outcome is Some).len()
}

/// Every message that a poll took is reported, paired with the polled entry's
/// address; nothing else is reported; and there is one report per message taken.
pub proof fn lemma_polled_reports_every_taken_message(
    entries: Seq<(PeerAddr, Client)>,
    outcomes: Seq<Option<Message>>,
)
    requires
        outcomes.len() == entries.len(),
    ensures
        polled(entries, outcomes).len() == taken_count(outcomes),
        forall|k: int|
            0 <= k < outcomes.len() && (#[trigger] outcomes[k]) is Some ==> exists|j: int|
                0 <= j < polled(entries, outcomes).len() && polled(entries, outcomes)[j] == (
                    entries[k].0,
                    outcomes[k]->Some_0,
                ),
        forall|j: int|
            0 <= j < polled(entries, outcomes).len() ==> exists|k: int|
                0 <= k < outcomes.len() && outcomes[k] == Some(
                    (#[trigger] polled(entries, outcomes)[j]).1,
                ) && entries[k].0 == polled(entries, outcomes)[j].0,
    decreases entries.len(),
{
    let report = polled(entries, outcomes);
    if entries.len() == 0 {
        reveal(Seq::filter);
    } else {
        let n = entries.len() as int;
        let earlier_entries = entries.drop_last();
        let earlier_outcomes = outcomes.drop_last();
        let earlier = polled(earlier_entries, earlier_outcomes);
        lemma_polled_reports_every_taken_message(earlier_entries, earlier_outcomes);
        reveal(Seq::filter);
        assert(taken_count(outcomes) == taken_count(earlier_outcomes) + if outcomes[n - 1] is Some {
            1int
        } else {
            0int
        });
        assert forall|j: int| 0 <= j < earlier.len() implies report[j] == earlier[j] by {
            if outcomes[n - 1] is Some {
                assert(report == earlier.push((entries[n - 1].0, outcomes[n - 1]->Some_0)));
            }
        }
        assert forall|k: int| 0 <= k < outcomes.len() && (#[trigger] outcomes[k]) is Some implies exists|
            j: int,
        |
            0 <= j < report.len() && report[j] == (entries[k].0, outcomes[k]->Some_0) by {
            if k == n - 1 {
                assert(report[earlier.len() as int] == (entries[k].0, outcomes[k]->Some_0));
            } else {
                assert(earlier_outcomes[k] == outcomes[k]);
                assert(earlier_entries[k] == entries[k]);
                let j = choose|j: int|
                    0 <= j < earlier.len() && earlier[j] == (
                        earlier_entries[k].0,
                        earlier_outcomes[k]->Some_0,
                    );
                assert(report[j] == earlier[j]);
            }
        }
        assert forall|j: int| 0 <= j < report.len() implies exists|k: int|
            0 <= k < outcomes.len() && outcomes[k] == Some((#[trigger] report[j]).1) && entries[k].0
                == report[j].0 by {
            if j < earlier.len() {
                assert(report[j] == earlier[j]);
                let k = choose|k: int|
                    0 <= k < earlier_outcomes.len() && earlier_outcomes[k] == Some(earlier[j].1)
                        && earlier_entries[k].0 == earlier[j].0;
                assert(outcomes[k] == earlier_outcomes[k]);
                assert(entries[k] == earlier_entries[k]);
            } else {
                assert(outcomes[n - 1] == Some(report[j].1));
                assert(entries[n - 1].0 == report[j].0);
            }
        }
    }
}

/// What the latest poll of each entry's reader end took.
pub open spec fn latest_polls(entries: Seq<(PeerAddr, Client)>) -> Seq<Option<Message>> {
    entries.map_values(|entry: (PeerAddr, Client)| entry.1.from_reader.log().last())
}

/// `after` is `before` polled once through its reader end: the same channel ends,
/// with one more poll on record.
pub open spec fn polled_once(before: Client, after: Client) -> bool {
    &&& after.to_reader == before.to_reader
    &&& after.from_writer == before.from_writer
    &&& after.to_writer == before.to_writer
    &&& after.from_reader.channel() == before.from_reader.channel()
    &&& after.from_reader.log().len() == before.from_reader.log().len() + 1
    &&& after.from_reader.log().drop_last() == before.from_reader.log()
}

/// The server's registry of connected clients, one entry per address.
pub struct Server {
    clients: Vec<(PeerAddr, Client)>,
}

impl View for Server {
    type V = Map<PeerAddr, Client>;

    closed spec fn view(&self) -> Map<PeerAddr, Client> {
        entries_map(self.clients@)
    }
}

impl Server {
    /// The registry's entries, in the order in which their addresses were first
    /// registered.
    pub closed spec fn entries(&self) -> Seq<(PeerAddr, Client)> {
        self.clients@
    }

    #[verifier::type_invariant]
    spec fn addresses_unique(self) -> bool {
        keys_unique(self.clients@)
    }

    /// A registry with no clients.
    pub fn new() -> (server: Self)
        ensures
            server@ == Map::<PeerAddr, Client>::empty(),
    {
        let server = Server { clients: Vec::new() };
        assert(server@ =~= Map::<PeerAddr, Client>::empty());
        server
    }

    /// The position of the entry with the address `addr`, if there is one.
    fn position(&self, addr: &PeerAddr) -> (pos: Option<usize>)
        ensures
            match pos {
                Some(i) => i < self.clients@.len() && self.clients@[i as int].0 == *addr,
                None => !has_key(self.clients@, *addr),
            },
    {
        let mut i: usize = 0;
        while i < self.clients.len()
            invariant
                i <= self.clients@.len(),
                forall|j: int| 0 <= j < i ==> #[trigger] self.clients@[j].0 != *addr,
            decreases self.clients@.len() - i,
        {
            if self.clients[i].0 == *addr {
                return Some(i);
            }
            i = i + 1;
        }
        None
    }

    /// Registers `client` under `addr`, replacing the client that was registered
    /// there, which is returned.
    pub fn insert(&mut self, addr: PeerAddr, client: Client) -> (previous: Option<Client>)
        ensures
            final(self)@ == old(self)@.insert(addr, client),
            previous == (if old(self)@.contains_key(addr) {
                Some(old(self)@[addr])
            } else {
                None
            }),
    {
        proof {
            use_type_invariant(&*self);
        }
        match self.position(&addr) {
            Some(i) => {
                proof {
                    lemma_entry_in_map(self.clients@, i as int);
                    lemma_replace_entry(self.clients@, i as int, client);
                }
                let mut clients = Vec::new();
                std::mem::swap(&mut clients, &mut self.clients);
                let mut entry = (addr, client);
                clients.set_and_swap(i, &mut entry);
                self.clients = clients;
                Some(entry.1)
            },
            None => {
                proof {
                    lemma_push_entry(self.clients@, addr, client);
                }
                let mut clients = Vec::new();
                std::mem::swap(&mut clients, &mut self.clients);
                clients.push((addr, client));
                self.clients = clients;
                None
            },
        }
    }

    /// The client registered under `addr`, if any.
    pub fn get(&self, addr: &PeerAddr) -> (client: Option<&Client>)
        ensures
            client == (if self@.contains_key(*addr) {
                Some(&self@[*addr])
            } else {
                None
            }),
    {
        proof {
            use_type_invariant(self);
        }
        match self.position(addr) {
            Some(i) => {
                proof {
                    lemma_entry_in_map(self.clients@, i as int);
                }
                Some(&self.clients[i].1)
            },
            None => None,
        }
    }

    /// Opens the channels for a new connection from `addr`, registers the client
    /// that holds the main loop's ends of them (replacing any client registered
    /// under `addr`), and returns the ends that the connection's tasks hold.
    pub fn register(&mut self, addr: PeerAddr) -> (ends: ConnectionEnds)
        ensures
            final(self)@.dom() == old(self)@.dom().insert(addr),
            forall|other: PeerAddr|
                other != addr && #[trigger] old(self)@.contains_key(other) ==> final(self)@[other]
                    == old(self)@[other],
            sender_channel(final(self)@[addr].to_reader) == receiver_channel(ends.reader_receiver),
            final(self)@[addr].from_reader.channel() == sender_channel(ends.reader_sender),
            final(self)@[addr].from_reader.log() == Seq::<Option<Message>>::empty(),
            sender_channel(final(self)@[addr].to_writer) == receiver_channel(ends.writer_receiver),
            receiver_channel(final(self)@[addr].from_writer) == sender_channel(ends.writer_sender),
    {
        let (to_reader, reader_receiver) = open_channel();
        let (reader_sender, from_reader) = open_channel();
        let (to_writer, writer_receiver) = open_channel();
        let (writer_sender, from_writer) = open_channel();
        let from_reader = ReaderEnd::new(from_reader);
        let client = Client { from_reader, to_reader, from_writer, to_writer };
        let _ = self.insert(addr, client);
        ConnectionEnds { reader_sender, reader_receiver, writer_sender, writer_receiver }
    }

    /// Polls each registered client's reader end once, in registry order, and
    /// returns the messages taken, each paired with the client's address. Whether
    /// a message was waiting depends on the reader tasks; each poll is on record in
    /// the reader end it went through.
    #[verifier::rlimit(40)]
    pub fn poll_readers(&mut self) -> (received: Vec<(PeerAddr, Message)>)
        ensures
            keys_unique(old(self).entries()),
            entries_map(old(self).entries()) == old(self)@,
            entries_map(final(self).entries()) == final(self)@,
            final(self).entries().len() == old(self).entries().len(),
            forall|k: int|
                0 <= k < old(self).entries().len() ==> {
                    &&& (#[trigger] final(self).entries()[k]).0 == old(self).entries()[k].0
                    &&& polled_once(old(self).entries()[k].1, final(self).entries()[k].1)
                },
            received@ == polled(old(self).entries(), latest_polls(final(self).entries())),
            received@.len() == taken_count(latest_polls(final(self).entries())),
            forall|k: int|
                0 <= k < old(self).entries().len() && (#[trigger] final(self).entries()[k]).1.from_reader.log().last() is Some
                    ==> exists|j: int|
                    0 <= j < received@.len() && received@[j] == (
                        old(self).entries()[k].0,
                        final(self).entries()[k].1.from_reader.log().last()->Some_0,
                    ),
            forall|j: int|
                0 <= j < received@.len() ==> exists|k: int|
                    0 <= k < old(self).entries().len() && final(self).entries()[k].1.from_reader.log().last()
                        == Some((#[trigger] received@[j]).1) && old(self).entries()[k].0 == received@[j].0,
            forall|k: int|
                0 <= k < received@.len() ==> old(self)@.contains_key(#[trigger] received@[k].0),
            forall|k: int, l: int|
                0 <= k < l < received@.len() ==> #[trigger] received@[k].0 != #[trigger] received@[l].0,
    {
        proof {
            use_type_invariant(&*self);
        }
        let ghost before = self.clients@;
        let mut pending: Vec<(PeerAddr, Client)> = Vec::new();
        std::mem::swap(&mut pending, &mut self.clients);
        let mut updated: Vec<(PeerAddr, Client)> = Vec::new();
        let mut received: Vec<(PeerAddr, Message)> = Vec::new();
        let ghost mut positions: Seq<int> = Seq::empty();
        let n = pending.len();
        let mut i: usize = 0;
        while i < n
            invariant
                keys_unique(before),
                n == before.len(),
                i <= n,
                pending@ == before.skip(i as int),
                updated@.len() == i,
                forall|k: int|
                    0 <= k < i ==> {
                        &&& (#[trigger] updated@[k]).0 == before[k].0
                        &&& polled_once(before[k].1, updated@[k].1)
                    },
                received@ == polled(before.take(i as int), latest_polls(updated@)),
                positions.len() == received@.len(),
                forall|k: int| 0 <= k < positions.len() ==> 0 <= #[trigger] positions[k] < i,
                forall|k: int, l: int|
                    0 <= k < l < positions.len() ==> #[trigger] positions[k] < #[trigger] positions[l],
                forall|k: int|
                    0 <= k < received@.len() ==> #[trigger] received@[k].0 == before[positions[k]].0,
            decreases n - i,
        {
            assert(pending@[0] == before[i as int]);
            let (addr, mut client) = pending.remove(0);
            assert(pending@ =~= before.skip(i + 1));
            let ghost earlier = updated@;
            let ghost unpolled = client;
            let outcome = client.from_reader.try_receive();
            proof {
                assert(client.from_reader.log().drop_last() =~= unpolled.from_reader.log());
                assert(polled_once(unpolled, client));
            }
            updated.push((addr, client));
            proof {
                assert forall|k: int| 0 <= k < i + 1 implies {
                    &&& (#[trigger] updated@[k]).0 == before[k].0
                    &&& polled_once(before[k].1, updated@[k].1)
                } by {
                    if k < i {
                        assert(updated@[k] == earlier[k]);
                    }
                }
                assert(before.take(i + 1).drop_last() =~= before.take(i as int));
                assert(latest_polls(updated@).drop_last() =~= latest_polls(earlier));
                assert(latest_polls(updated@).last() == outcome);
                assert(before.take(i + 1).last() == before[i as int]);
            }
            match outcome {
                Some(message) => {
                    received.push((addr, message));
                    proof {
                        positions = positions.push(i as int);
                    }
                },
                None => {},
            }
            i = i + 1;
        }
        proof {
            assert(before.take(n as int) =~= before);
            let outs = latest_polls(updated@);
            lemma_polled_reports_every_taken_message(before, outs);
            assert forall|k: int|
                0 <= k < before.len() && (#[trigger] updated@[k]).1.from_reader.log().last() is Some implies exists|
                j: int,
            | 0 <= j < received@.len() && received@[j] == (
                before[k].0,
                updated@[k].1.from_reader.log().last()->Some_0,
            ) by {
                assert(outs[k] == updated@[k].1.from_reader.log().last());
            }
            assert forall|j: int| 0 <= j < received@.len() implies exists|k: int|
                0 <= k < before.len() && updated@[k].1.from_reader.log().last() == Some(
                    (#[trigger] received@[j]).1,
                ) && before[k].0 == received@[j].0 by {
                let k = choose|k: int|
                    0 <= k < outs.len() && outs[k] == Some(
                        polled(before, outs)[j].1,
                    ) && before[k].0 == polled(before, outs)[j].0;
                assert(outs[k] == updated@[k].1.from_reader.log().last());
            }
            assert(keys_unique(updated@)) by {
                assert forall|p: int, q: int| 0 <= p < q < updated@.len() implies
                    #[trigger] updated@[p].0 != #[trigger] updated@[q].0 by {
                    assert(before[p].0 != before[q].0);
                }
            }
            assert forall|k: int| 0 <= k < received@.len() implies entries_map(before).contains_key(
                #[trigger] received@[k].0,
            ) by {
                lemma_entry_in_map(before, positions[k]);
            }
            assert forall|k: int, l: int| 0 <= k < l < received@.len() implies #[trigger] received@[k].0
                != #[trigger] received@[l].0 by {
                assert(positions[k] < positions[l]);
                assert(before[positions[k]].0 != before[positions[l]].0);
            }
        }
        self.clients = updated;
        received
    }
}

/// Registering a client makes it what the registry gives for its address, and
/// leaves every other address as it was.
pub proof fn lemma_insert_then_get(
    registry: Map<PeerAddr, Client>,
    addr: PeerAddr,
    client: Client,
    other: PeerAddr,
)
    requires
        other != addr,
    ensures
        registry.insert(addr, client).contains_key(addr),
        registry.insert(addr, client)[addr] == client,
        registry.insert(addr, client).contains_key(other) == registry.contains_key(other),
        registry.contains_key(other) ==> registry.insert(addr, client)[other] == registry[other],
{
}

} // verus!

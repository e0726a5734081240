//! The server's registry of sessions: who is connected, when each peer was
//! last heard from, and the game that they play.
//!
//! The registry owns no socket and no clock. It is told what a read on the
//! socket returned and what time it is, and answers with the datagrams to send.

use vstd::prelude::*;
use crate::data_type::{decode, encode, DataType, DataTypeView};
use crate::game::{advanced, is_new_player, world_sections, TwinstickGame};
use crate::objects::GenericObject;
use crate::section::{all_static, pieces_of, static_snapshots};
use crate::transport::{
    copy_bytes, packet_views, push_to_all, to_all, Address, Incoming, Packet, PacketView,
};

verus! {

/// How long a peer may stay silent before it is evicted, in fixed-point seconds.
pub const TIMEOUT: u64 = 5_000_000;

/// What a registry holds. While it is aligned, index `i` of `clients`, of
/// `seen` and of `players` all speak of the same peer.
pub struct Registry {
    /// The addresses of the connected peers, in the order in which they were admitted.
    pub clients: Seq<Address>,
    /// When each peer was last heard from.
    pub seen: Seq<u64>,
    /// The roster: the character of each peer.
    pub players: Seq<GenericObject>,
    /// The obstacles of the world.
    pub obstacles: Seq<GenericObject>,
}

/// One peer of a registry: its address, when it was last heard from, and its character.
pub struct Slot {
    pub addr: Address,
    pub seen: u64,
    pub player: GenericObject,
}

/// Whether the connection list and the roster are index-aligned.
pub open spec fn aligned(reg: Registry) -> bool {
    reg.clients.len() == reg.seen.len() && reg.clients.len() == reg.players.len()
}

/// The peers of an aligned registry, each with all that the registry holds of it.
pub open spec fn slots(reg: Registry) -> Seq<Slot> {
    Seq::new(
        reg.clients.len(),
        |i: int| Slot { addr: reg.clients[i], seen: reg.seen[i], player: reg.players[i] },
    )
}

/// The registry without the peer at index `i`: it leaves the connection list
/// and the roster together, and the peers behind it move up by one.
pub open spec fn evicted(reg: Registry, i: int) -> Registry {
    Registry {
        clients: reg.clients.remove(i),
        seen: reg.seen.remove(i),
        players: reg.players.remove(i),
        obstacles: reg.obstacles,
    }
}

/// Whether a peer that was last heard from at `seen` has been silent for too long at `now`.
pub open spec fn expired(seen: u64, now: u64) -> bool {
    now - seen > TIMEOUT
}

/// The first index at or behind `i` at which `addr` stands in `clients`, or
/// the length of `clients` if there is none.
pub open spec fn slot_from(clients: Seq<Address>, addr: Address, i: int) -> int
    decreases clients.len() - i,
{
    if i < 0 || i >= clients.len() {
        clients.len() as int
    } else if clients[i] == addr {
        i
    } else {
        slot_from(clients, addr, i + 1)
    }
}

/// The index of the peer with the address `addr`, or the number of peers if
/// no peer has that address.
pub open spec fn slot_of(clients: Seq<Address>, addr: Address) -> int {
    slot_from(clients, addr, 0)
}

/// The registry after a sweep over the indices below `i`, from the highest
/// down: every peer among them that has been silent for too long is evicted.
pub open spec fn swept(reg: Registry, now: u64, i: int) -> Registry
    decreases i,
{
    if i <= 0 || i > reg.clients.len() {
        reg
    } else if expired(reg.seen[i - 1], now) {
        swept(evicted(reg, i - 1), now, i - 1)
    } else {
        swept(reg, now, i - 1)
    }
}

/// The datagrams of a sweep over the indices below `i`: each eviction is
/// announced to the peers that are left at that moment.
pub open spec fn sweep_packets(reg: Registry, now: u64, i: int) -> Seq<PacketView>
    decreases i,
{
    if i <= 0 || i > reg.clients.len() {
        Seq::empty()
    } else if expired(reg.seen[i - 1], now) {
        to_all(
            evicted(reg, i - 1).clients,
            encode(DataTypeView::RemovePlayer((i - 1) as usize)),
        ) + sweep_packets(evicted(reg, i - 1), now, i - 1)
    } else {
        sweep_packets(reg, now, i - 1)
    }
}

/// One datagram for the peer at `addr` for each of `players`, in their
/// order: the announcement that this player has joined.
pub open spec fn roster_for(addr: Address, players: Seq<GenericObject>) -> Seq<PacketView> {
    Seq::new(
        players.len(),
        |i: int| PacketView { addr, data: encode(DataTypeView::AddPlayer(players[i].snapshot())) },
    )
}

/// One datagram for the peer at `addr` for each of `obstacles`, in their
/// order: a snapshot of this obstacle.
pub open spec fn world_for(addr: Address, obstacles: Seq<GenericObject>) -> Seq<PacketView> {
    Seq::new(
        obstacles.len(),
        |j: int|
            PacketView {
                addr,
                data: encode(DataTypeView::StaticObject(obstacles[j].static_snapshot())),
            },
    )
}

/// A snapshot of each of the first `n` obstacles, each sent to every peer
/// before the next obstacle is taken up.
pub open spec fn world_for_all(clients: Seq<Address>, obstacles: Seq<GenericObject>, n: int) -> Seq<
    PacketView,
>
    decreases n,
{
    if n <= 0 {
        Seq::empty()
    } else {
        world_for_all(clients, obstacles, n - 1) + to_all(
            clients,
            encode(DataTypeView::StaticObject(obstacles[n - 1].static_snapshot())),
        )
    }
}

/// The transform of each of the first `n` players, each sent to every peer
/// before the next player is taken up.
pub open spec fn deltas(clients: Seq<Address>, players: Seq<GenericObject>, n: int) -> Seq<
    PacketView,
>
    decreases n,
{
    if n <= 0 {
        Seq::empty()
    } else {
        deltas(clients, players, n - 1) + to_all(
            clients,
            encode(DataTypeView::Player(players[n - 1].transform(), (n - 1) as usize)),
        )
    }
}

/// To each peer the roster slot that it controls.
pub open spec fn indices(clients: Seq<Address>) -> Seq<PacketView> {
    Seq::new(
        clients.len(),
        |i: int|
            PacketView { addr: clients[i], data: encode(DataTypeView::PlayerNum(i as usize)) },
    )
}

/// What is sent after a step of the simulation: the transform of every
/// player to every peer, then to each peer its own roster slot.
pub open spec fn player_data(reg: Registry) -> Seq<PacketView> {
    deltas(reg.clients, reg.players, reg.players.len() as int) + indices(reg.clients)
}

/// What is sent when the peer at `addr` has joined the registry `after` in
/// the last slot: the announcement of the new player to every peer, the
/// newcomer included, then to the newcomer the slot that it controls.
pub open spec fn join_packets(after: Registry, addr: Address) -> Seq<PacketView> {
    to_all(after.clients, encode(DataTypeView::AddPlayer(after.players.last().snapshot()))).push(
        PacketView {
            addr,
            data: encode(DataTypeView::PlayerNum((after.clients.len() - 1) as usize)),
        },
    )
}

/// Whether `after` is the registry `before` with a new peer at `addr`, heard
/// from at `now`, in a new last slot of the connection list and of the roster.
pub open spec fn joined(before: Registry, addr: Address, now: u64, after: Registry) -> bool {
    &&& after.clients == before.clients.push(addr)
    &&& after.seen == before.seen.push(now)
    &&& after.players == before.players.push(after.players.last())
    &&& after.players.len() == before.players.len() + 1
    &&& is_new_player(after.players.last())
    &&& after.obstacles == before.obstacles
}

/// The registry with the peer at index `i` heard from at `now`.
pub open spec fn refreshed(reg: Registry, i: int, now: u64) -> Registry {
    Registry { seen: reg.seen.update(i, now), ..reg }
}

/// Whether the registry `after` and the datagrams `packets` are what comes of
/// admitting into `before` a peer at `addr` that was first heard from at
/// `now`. The newcomer is told of every player that is already there, then
/// it joins and its joining is announced, then it is sent the world.
pub open spec fn admitted(
    before: Registry,
    addr: Address,
    now: u64,
    after: Registry,
    packets: Seq<PacketView>,
) -> bool {
    &&& joined(before, addr, now, after)
    &&& packets == roster_for(addr, before.players) + join_packets(after, addr) + world_for(
        addr,
        before.obstacles,
    )
}

/// Whether the registry `after` and the datagrams `packets` are what comes of
/// a datagram from the peer at index `i` of `before` that arrived at `now`
/// and held `message`. The peer counts as heard from, whatever it sent. A
/// yaw turns the player in the slot that the message names, an action is
/// queued on the sender's own player, a farewell evicts the sender; anything
/// else changes nothing more.
pub open spec fn dispatched(
    before: Registry,
    i: int,
    now: u64,
    message: Option<DataTypeView>,
    after: Registry,
    packets: Seq<PacketView>,
) -> bool {
    let heard = refreshed(before, i, now);
    match message {
        Some(DataTypeView::PlayerRotation(rot, idx)) => {
            &&& packets.len() == 0
            &&& after == (Registry {
                players: if idx < heard.players.len() {
                    heard.players.update(idx as int, heard.players[idx as int].turned_to(rot))
                } else {
                    heard.players
                },
                ..heard
            })
        },
        Some(DataTypeView::Input(input)) => {
            &&& packets.len() == 0
            &&& after == (Registry { players: heard.players.update(i, after.players[i]), ..heard })
            &&& heard.players[i].queued(input, &after.players[i])
        },
        Some(DataTypeView::Exit) => {
            &&& after == evicted(heard, i)
            &&& packets == to_all(after.clients, encode(DataTypeView::RemovePlayer(i as usize)))
        },
        _ => {
            &&& packets.len() == 0
            &&& after == heard
        },
    }
}

/// What the registry has decided on the outcome of a read.
#[derive(Debug, PartialEq, Eq)]
pub enum Outcome {
    /// Go on, and send these datagrams in this order.
    Packets(Vec<Packet>),
    /// The socket has failed: the server cannot go on.
    Fatal,
}

/// The registry of the server.
pub struct Server {
    clients: Vec<Address>,
    client_last_connection: Vec<u64>,
    game: TwinstickGame,
}

impl View for Server {
    type V = Registry;

    closed spec fn view(&self) -> Registry {
        Registry {
            clients: self.clients@,
            seen: self.client_last_connection@,
            players: self.game.roster(),
            obstacles: self.game.obstacles(),
        }
    }
}

impl Server {
    /// A registry without peers, for a new game.
    pub fn new() -> (r: Server)
        ensures
            aligned(r@),
            r@.clients == Seq::<Address>::empty(),
            r@.seen == Seq::<u64>::empty(),
            r@.players == Seq::<GenericObject>::empty(),
            all_static(r@.obstacles),
            static_snapshots(r@.obstacles) == pieces_of(world_sections()),
    {
        Server { clients: Vec::new(), client_last_connection: Vec::new(), game: TwinstickGame::new() }
    }

    /// The game that the peers play.
    pub fn game(&self) -> (r: &TwinstickGame)
        ensures
            r.roster() == self@.players,
            r.obstacles() == self@.obstacles,
    {
        &self.game
    }

    /// The addresses of the connected peers.
    pub fn clients(&self) -> (r: &Vec<Address>)
        ensures
            r@ == self@.clients,
    {
        &self.clients
    }

    /// When each peer was last heard from.
    pub fn client_last_connection(&self) -> (r: &Vec<u64>)
        ensures
            r@ == self@.seen,
    {
        &self.client_last_connection
    }

    /// The datagram `buffer`, addressed to the peer at `addr`.
    pub fn send_data_to_client(&self, addr: Address, buffer: &[u8]) -> (r: Packet)
        ensures
            r@ == (PacketView { addr, data: buffer@ }),
    {
        Packet { addr, data: copy_bytes(buffer) }
    }

    /// The datagram `buffer`, addressed to every peer in turn.
    pub fn send_data_to_all_clients(&self, buffer: &[u8]) -> (r: Vec<Packet>)
        ensures
            packet_views(r@) == to_all(self@.clients, buffer@),
    {
        let mut out: Vec<Packet> = Vec::new();
        push_to_all(&mut out, &self.clients, buffer);
        assert(packet_views(out@) =~= to_all(self@.clients, buffer@));
        out
    }

    /// A snapshot of every obstacle, addressed to the peer at `src_addr`.
    pub fn send_static_objects_to_client(&self, src_addr: Address) -> (r: Vec<Packet>)
        ensures
            packet_views(r@) == world_for(src_addr, self@.obstacles),
    {
        let mut out: Vec<Packet> = Vec::new();
        self.push_world_for(&mut out, src_addr);
        assert(packet_views(out@) =~= world_for(src_addr, self@.obstacles));
        out
    }

    /// Appends to `out` a snapshot of every obstacle, addressed to the peer at `addr`.
    fn push_world_for(&self, out: &mut Vec<Packet>, addr: Address)
        ensures
            packet_views(final(out)@) == packet_views(old(out)@) + world_for(addr, self@.obstacles),
    {
        let objects = self.game.static_objects();
        let mut j: usize = 0;
        assert(packet_views(out@) =~= packet_views(old(out)@) + world_for(addr, objects@.take(0)));
        while j < objects.len()
            invariant
                j <= objects@.len(),
                objects@ == self@.obstacles,
                packet_views(out@) == packet_views(old(out)@) + world_for(
                    addr,
                    objects@.take(j as int),
                ),
            decreases objects@.len() - j,
        {
            let ghost before = out@;
            let data = DataType::StaticObject(objects[j].send_static_object()).serialise();
            out.push(Packet { addr, data });
            assert(packet_views(out@) =~= packet_views(old(out)@) + world_for(
                addr,
                objects@.take(j + 1),
            )) by {
                assert(packet_views(out@) =~= packet_views(before).push(out@.last()@));
                assert(world_for(addr, objects@.take(j + 1)) =~= world_for(
                    addr,
                    objects@.take(j as int),
                ).push(out@.last()@));
            }
            j += 1;
        }
        assert(objects@.take(j as int) =~= objects@);
    }

    /// Appends to `out` the announcement of every player of the roster,
    /// addressed to the peer at `addr`.
    fn push_roster_for(&self, out: &mut Vec<Packet>, addr: Address)
        ensures
            packet_views(final(out)@) == packet_views(old(out)@) + roster_for(addr, self@.players),
    {
        let players = self.game.players();
        let mut i: usize = 0;
        assert(packet_views(out@) =~= packet_views(old(out)@) + roster_for(addr, players@.take(0)));
        while i < players.len()
            invariant
                i <= players@.len(),
                players@ == self@.players,
                packet_views(out@) == packet_views(old(out)@) + roster_for(
                    addr,
                    players@.take(i as int),
                ),
            decreases players@.len() - i,
        {
            let ghost before = out@;
            let data = DataType::AddPlayer(players[i].send_dyn_obj()).serialise();
            out.push(Packet { addr, data });
            assert(packet_views(out@) =~= packet_views(old(out)@) + roster_for(
                addr,
                players@.take(i + 1),
            )) by {
                assert(packet_views(out@) =~= packet_views(before).push(out@.last()@));
                assert(roster_for(addr, players@.take(i + 1)) =~= roster_for(
                    addr,
                    players@.take(i as int),
                ).push(out@.last()@));
            }
            i += 1;
        }
        assert(players@.take(i as int) =~= players@);
    }

    /// A snapshot of every obstacle, each addressed to every peer in turn.
    pub fn send_static_objects_to_all_clients(&self) -> (r: Vec<Packet>)
        ensures
            packet_views(r@) == world_for_all(
                self@.clients,
                self@.obstacles,
                self@.obstacles.len() as int,
            ),
    {
        let mut out: Vec<Packet> = Vec::new();
        if self.clients.len() == 0 {
            proof {
                lemma_world_for_nobody(self@.clients, self@.obstacles, self@.obstacles.len() as int);
            }
            return out;
        }
        let objects = self.game.static_objects();
        let mut j: usize = 0;
        assert(packet_views(out@) =~= world_for_all(self@.clients, objects@, 0));
        while j < objects.len()
            invariant
                j <= objects@.len(),
                objects@ == self@.obstacles,
                packet_views(out@) == world_for_all(self@.clients, objects@, j as int),
            decreases objects@.len() - j,
        {
            let data = DataType::StaticObject(objects[j].send_static_object()).serialise();
            push_to_all(&mut out, &self.clients, data.as_slice());
            j += 1;
        }
        out
    }

    /// What is sent after a step of the simulation: the transform of every
    /// player, each addressed to every peer in turn, then for each peer the
    /// roster slot that it controls.
    pub fn send_player_data_to_all_clients(&self) -> (r: Vec<Packet>)
        ensures
            packet_views(r@) == player_data(self@),
    {
        let mut out: Vec<Packet> = Vec::new();
        if self.clients.len() == 0 {
            proof {
                lemma_deltas_for_nobody(self@.clients, self@.players, self@.players.len() as int);
                assert(packet_views(out@) =~= player_data(self@));
            }
            return out;
        }
        let players = self.game.players();
        let mut j: usize = 0;
        assert(packet_views(out@) =~= deltas(self@.clients, players@, 0));
        while j < players.len()
            invariant
                j <= players@.len(),
                players@ == self@.players,
                packet_views(out@) == deltas(self@.clients, players@, j as int),
            decreases players@.len() - j,
        {
            let data = DataType::Player(players[j].send_player_update(), j).serialise();
            push_to_all(&mut out, &self.clients, data.as_slice());
            j += 1;
        }
        let ghost sent = packet_views(out@);
        let mut i: usize = 0;
        assert(packet_views(out@) =~= sent + indices(self@.clients.take(0)));
        while i < self.clients.len()
            invariant
                i <= self.clients@.len(),
                self.clients@ == self@.clients,
                packet_views(out@) == sent + indices(self@.clients.take(i as int)),
            decreases self.clients@.len() - i,
        {
            let ghost before = out@;
            let data = DataType::PlayerNum(i).serialise();
            out.push(Packet { addr: self.clients[i], data });
            assert(packet_views(out@) =~= sent + indices(self@.clients.take(i + 1))) by {
                assert(packet_views(out@) =~= packet_views(before).push(out@.last()@));
                assert(indices(self@.clients.take(i + 1)) =~= indices(
                    self@.clients.take(i as int),
                ).push(out@.last()@));
            }
            i += 1;
        }
        assert(self@.clients.take(i as int) =~= self@.clients);
        out
    }

    /// The index of the first peer with the address `addr`, if there is one.
    pub fn find_client(&self, addr: Address) -> (r: Option<usize>)
        ensures
            match r {
                Some(i) => i < self@.clients.len() && i == slot_of(self@.clients, addr),
                None => slot_of(self@.clients, addr) == self@.clients.len(),
            },
    {
        let mut i: usize = 0;
        while i < self.clients.len()
            invariant
                i <= self.clients@.len(),
                slot_of(self.clients@, addr) == slot_from(self.clients@, addr, i as int),
            decreases self.clients@.len() - i,
        {
            if self.clients[i] == addr {
                return Some(i);
            }
            i += 1;
        }
        None
    }

    /// Admits the peer at `src_addr`, heard from at `now`: it takes a new
    /// last slot in the connection list and in the roster. Returns the
    /// announcement of the new player for every peer, the newcomer included,
    /// and then for the newcomer the slot that it controls.
    pub fn add_player(&mut self, src_addr: Address, now: u64) -> (r: Vec<Packet>)
        requires
            aligned(old(self)@),
        ensures
            aligned(final(self)@),
            joined(old(self)@, src_addr, now, final(self)@),
            packet_views(r@) == join_packets(final(self)@, src_addr),
    {
        let index = self.clients.len();
        self.clients.push(src_addr);
        self.client_last_connection.push(now);
        self.game.add_player();
        let announcement = DataType::AddPlayer(self.game.players()[index].send_dyn_obj()).serialise();
        let mut out = self.send_data_to_all_clients(announcement.as_slice());
        let ghost before = out@;
        out.push(self.send_data_to_client(src_addr, DataType::PlayerNum(index).serialise().as_slice()));
        proof {
            assert(packet_views(out@) =~= packet_views(before).push(out@.last()@));
        }
        out
    }

    /// Evicts the peer at `index` from the connection list and from the
    /// roster in one go. Returns the announcement of its leaving for every
    /// peer that is left.
    pub fn remove_player(&mut self, index: usize) -> (r: Vec<Packet>)
        requires
            aligned(old(self)@),
            index < old(self)@.clients.len(),
        ensures
            aligned(final(self)@),
            final(self)@ == evicted(old(self)@, index as int),
            packet_views(r@) == to_all(
                final(self)@.clients,
                encode(DataTypeView::RemovePlayer(index)),
            ),
    {
        self.clients.remove(index);
        self.client_last_connection.remove(index);
        self.game.remove_player(index);
        self.send_data_to_all_clients(DataType::RemovePlayer(index).serialise().as_slice())
    }

    /// Evicts the first peer with the address `src_addr`, as `remove_player`
    /// does; does nothing and returns nothing if no peer has that address.
    pub fn remove_player_from_addr(&mut self, src_addr: Address) -> (r: Vec<Packet>)
        requires
            aligned(old(self)@),
        ensures
            aligned(final(self)@),
            slot_of(old(self)@.clients, src_addr) < old(self)@.clients.len() ==> {
                &&& final(self)@ == evicted(old(self)@, slot_of(old(self)@.clients, src_addr))
                &&& packet_views(r@) == to_all(
                    final(self)@.clients,
                    encode(
                        DataTypeView::RemovePlayer(slot_of(old(self)@.clients, src_addr) as usize),
                    ),
                )
            },
            slot_of(old(self)@.clients, src_addr) >= old(self)@.clients.len() ==> {
                &&& final(self)@ == old(self)@
                &&& r@.len() == 0
            },
    {
        match self.find_client(src_addr) {
            Some(i) => self.remove_player(i),
            None => Vec::new(),
        }
    }

    /// Advances the game by a step of `delta_time` seconds and returns what
    /// is sent after it: the transform of every player for every peer, then
    /// for each peer the roster slot that it controls.
    pub fn update(&mut self, delta_time: i64) -> (r: Vec<Packet>)
        requires
            aligned(old(self)@),
        ensures
            aligned(final(self)@),
            final(self)@.clients == old(self)@.clients,
            final(self)@.seen == old(self)@.seen,
            final(self)@.obstacles == old(self)@.obstacles,
            advanced(old(self)@.players, old(self)@.obstacles, delta_time, final(self)@.players),
            packet_views(r@) == player_data(final(self)@),
    {
        self.game.update(delta_time);
        self.send_player_data_to_all_clients()
    }

    /// Evicts every peer that has been silent for too long at `now`, from the
    /// highest index down, so that no eviction moves a peer that is still to
    /// be looked at. Returns the announcements of the evictions.
    pub fn sweep(&mut self, now: u64) -> (r: Vec<Packet>)
        requires
            aligned(old(self)@),
        ensures
            aligned(final(self)@),
            final(self)@ == swept(old(self)@, now, old(self)@.clients.len() as int),
            packet_views(r@) == sweep_packets(old(self)@, now, old(self)@.clients.len() as int),
    {
        let mut out: Vec<Packet> = Vec::new();
        let mut i: usize = self.clients.len();
        let ghost start = self@;
        let ghost n = self@.clients.len() as int;
        assert(packet_views(out@) + sweep_packets(self@, now, i as int) =~= sweep_packets(
            start,
            now,
            n,
        ));
        while i > 0
            invariant
                aligned(self@),
                i <= self@.clients.len(),
                swept(self@, now, i as int) == swept(start, now, n),
                packet_views(out@) + sweep_packets(self@, now, i as int) == sweep_packets(
                    start,
                    now,
                    n,
                ),
            decreases i,
        {
            let seen = self.client_last_connection[i - 1];
            if now > seen && now - seen > TIMEOUT {
                let ghost before = self@;
                let ghost sent = packet_views(out@);
                let mut announcements = self.remove_player(i - 1);
                let ghost added = packet_views(announcements@);
                let ghost o1 = out@;
                let ghost o2 = announcements@;
                out.append(&mut announcements);
                proof {
                    assert(packet_views(o1 + o2) =~= sent + added);
                    assert(sent + (added + sweep_packets(self@, now, i - 1)) =~= (sent + added)
                        + sweep_packets(self@, now, i - 1));
                }
            }
            i -= 1;
        }
        proof {
            assert(packet_views(out@) + Seq::<PacketView>::empty() =~= packet_views(out@));
        }
        out
    }

    /// Handles the outcome of one read on the socket at the time `now`.
    ///
    /// A datagram from an unknown address admits its sender, whatever it
    /// holds. A datagram from a known peer refreshes that peer and is
    /// dispatched by the message it holds. When nothing is waiting, the peers
    /// that have been silent for too long are evicted. A failed read is fatal.
    pub fn listen(&mut self, incoming: &Incoming, now: u64) -> (r: Outcome)
        requires
            aligned(old(self)@),
        ensures
            aligned(final(self)@),
            match *incoming {
                Incoming::Failed => r is Fatal && final(self)@ == old(self)@,
                Incoming::WouldBlock => {
                    &&& r matches Outcome::Packets(p)
                    &&& final(self)@ == swept(old(self)@, now, old(self)@.clients.len() as int)
                    &&& packet_views(p@) == sweep_packets(
                        old(self)@,
                        now,
                        old(self)@.clients.len() as int,
                    )
                },
                Incoming::Datagram(from, data) => {
                    &&& r matches Outcome::Packets(p)
                    &&& if slot_of(old(self)@.clients, from) >= old(self)@.clients.len() {
                        admitted(old(self)@, from, now, final(self)@, packet_views(p@))
                    } else {
                        dispatched(
                            old(self)@,
                            slot_of(old(self)@.clients, from),
                            now,
                            decode(data@),
                            final(self)@,
                            packet_views(p@),
                        )
                    }
                },
            },
    {
        let (from, data) = match incoming {
            Incoming::Failed => { return Outcome::Fatal; },
            Incoming::WouldBlock => { return Outcome::Packets(self.sweep(now)); },
            Incoming::Datagram(from, data) => (*from, data),
        };
        let client_id = match self.find_client(from) {
            Some(i) => i,
            None => {
                let mut out: Vec<Packet> = Vec::new();
                self.push_roster_for(&mut out, from);
                let ghost told = out@;
                let mut announcements = self.add_player(from, now);
                let ghost joining = announcements@;
                out.append(&mut announcements);
                proof {
                    assert(packet_views(told + joining) =~= packet_views(told) + packet_views(
                        joining,
                    ));
                }
                self.push_world_for(&mut out, from);
                return Outcome::Packets(out);
            },
        };
        self.client_last_connection[client_id] = now;
        proof {
            assert(self@ == refreshed(old(self)@, client_id as int, now));
        }
        let ghost heard = self@;
        match DataType::deserialise(data.as_slice()) {
            Some(DataType::PlayerRotation(rot, idx)) => {
                self.game.set_player_rotation(idx, rot);
                Outcome::Packets(Vec::new())
            },
            Some(DataType::Input(input)) => {
                self.game.add_input(client_id, input);
                Outcome::Packets(Vec::new())
            },
            Some(DataType::Exit) => {
                proof {
                    assert(slot_of(heard.clients, from) == client_id);
                }
                Outcome::Packets(self.remove_player_from_addr(from))
            },
            _ => Outcome::Packets(Vec::new()),
        }
    }
}

/// With no peer connected, no snapshot of the world is sent.
pub proof fn lemma_world_for_nobody(clients: Seq<Address>, obstacles: Seq<GenericObject>, n: int)
    requires
        clients.len() == 0,
    ensures
        world_for_all(clients, obstacles, n) == Seq::<PacketView>::empty(),
    decreases n,
{
    if n > 0 {
        lemma_world_for_nobody(clients, obstacles, n - 1);
        assert(world_for_all(clients, obstacles, n) =~= Seq::<PacketView>::empty());
    }
}

/// With no peer connected, no transform is sent.
pub proof fn lemma_deltas_for_nobody(clients: Seq<Address>, players: Seq<GenericObject>, n: int)
    requires
        clients.len() == 0,
    ensures
        deltas(clients, players, n) == Seq::<PacketView>::empty(),
    decreases n,
{
    if n > 0 {
        lemma_deltas_for_nobody(clients, players, n - 1);
        assert(deltas(clients, players, n) =~= Seq::<PacketView>::empty());
    }
}

/// Evicting a peer keeps the registry aligned and takes exactly that peer
/// out: every other peer keeps its address, its time and its character, and
/// the peers behind the evicted one move up by one slot together.
pub proof fn lemma_evicted_keeps_pairs(reg: Registry, i: int)
    requires
        aligned(reg),
        0 <= i < reg.clients.len(),
    ensures
        aligned(evicted(reg, i)),
        slots(evicted(reg, i)) == slots(reg).remove(i),
{
    assert(slots(evicted(reg, i)) =~= slots(reg).remove(i));
}

/// Admitting a peer keeps the registry aligned and adds exactly that peer in
/// a new last slot: every other peer keeps its slot, its address, its time
/// and its character.
pub proof fn lemma_joined_keeps_pairs(before: Registry, addr: Address, now: u64, after: Registry)
    requires
        aligned(before),
        joined(before, addr, now, after),
    ensures
        aligned(after),
        slots(after) == slots(before).push(Slot { addr, seen: now, player: after.players.last() }),
{
    assert(slots(after) =~= slots(before).push(
        Slot { addr, seen: now, player: after.players.last() },
    ));
}

/// The test that a sweep at `now` applies to a peer: has it been heard from lately?
pub open spec fn alive(now: u64) -> spec_fn(Slot) -> bool {
    |s: Slot| !expired(s.seen, now)
}

/// A sweep over the indices below `i` keeps the registry aligned, evicts
/// among those peers exactly the ones that have been silent for too long, and
/// leaves the peers from `i` on as they are.
pub proof fn lemma_swept_below(reg: Registry, now: u64, i: int)
    requires
        aligned(reg),
        0 <= i <= reg.clients.len(),
    ensures
        aligned(swept(reg, now, i)),
        swept(reg, now, i).obstacles == reg.obstacles,
        slots(swept(reg, now, i)) == slots(reg).take(i).filter(alive(now)) + slots(reg).skip(i),
    decreases i,
{
    let all = slots(reg);
    if i == 0 {
        assert(all.take(0).filter(alive(now)) =~= Seq::<Slot>::empty());
        assert(all =~= Seq::<Slot>::empty() + all.skip(0));
    } else {
        let k = i - 1;
        assert(all.take(i) =~= all.take(k) + seq![all[k]]);
        Seq::filter_distributes_over_add(all.take(k), seq![all[k]], alive(now));
        assert(seq![all[k]].drop_last() =~= Seq::<Slot>::empty());
        reveal_with_fuel(Seq::filter, 2);
        if expired(reg.seen[k], now) {
            let less = evicted(reg, k);
            lemma_evicted_keeps_pairs(reg, k);
            lemma_swept_below(less, now, k);
            assert(seq![all[k]].filter(alive(now)) =~= Seq::<Slot>::empty());
            assert(slots(less).take(k) =~= all.take(k));
            assert(slots(less).skip(k) =~= all.skip(i));
            assert(all.take(k).filter(alive(now)) + Seq::<Slot>::empty() =~= all.take(k).filter(
                alive(now),
            ));
        } else {
            lemma_swept_below(reg, now, k);
            assert(seq![all[k]].filter(alive(now)) =~= seq![all[k]]);
            assert(all.skip(k) =~= seq![all[k]] + all.skip(i));
            assert(all.take(k).filter(alive(now)) + (seq![all[k]] + all.skip(i)) =~= (all.take(
                k,
            ).filter(alive(now)) + seq![all[k]]) + all.skip(i));
        }
    }
}

/// The liveness rule: after a sweep at `now` the registry is aligned and
/// holds exactly the peers that were heard from within the timeout, each with
/// its own character, in their old order. A peer that has been silent for
/// longer is gone; one that was heard from more recently stays.
pub proof fn lemma_sweep_keeps_the_live(reg: Registry, now: u64)
    requires
        aligned(reg),
    ensures
        aligned(swept(reg, now, reg.clients.len() as int)),
        slots(swept(reg, now, reg.clients.len() as int)) == slots(reg).filter(alive(now)),
{
    let n = reg.clients.len() as int;
    lemma_swept_below(reg, now, n);
    assert(slots(reg).take(n) =~= slots(reg));
    assert(slots(reg).skip(n) =~= Seq::<Slot>::empty());
    assert(slots(reg).filter(alive(now)) + Seq::<Slot>::empty() =~= slots(reg).filter(alive(now)));
}

} // verus!

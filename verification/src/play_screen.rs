//! The client's session: one endpoint, and a local mirror of the roster and
//! of the world that is kept in step with what the server sends.

use vstd::prelude::*;
use crate::client::{
    delivered, disconnect_step, disconnected_after, probe, Received, TwinstickClient,
};
use crate::collisions::{calculate_collisions, collided, hitbox_of, hitboxes, Hitbox};
use crate::data_type::{encode, DataType, DataTypeView};
use crate::input::Input;
use crate::objects::{origin, unit_factor, Character, GenericObject};
use crate::send_structs::{SendDynamicObject, SendDynamicObjectView, SendPlayerObjectUpdate};
use crate::transport::Incoming;
use crate::vector::Vector3;
use crate::UNIT;

verus! {

/// Which keys are held down.
#[derive(Clone, Copy, Debug, PartialEq, Eq, Structural)]
pub struct Keys {
    pub w: bool,
    pub s: bool,
    pub a: bool,
    pub d: bool,
    pub space: bool,
}

/// What a session holds.
pub struct Mirror {
    /// The local copy of the roster.
    pub players: Seq<GenericObject>,
    /// The local copy of the world.
    pub obstacles: Seq<GenericObject>,
    /// The roster slot that this client controls, if it has been told.
    pub character_idx: Option<usize>,
    /// Whether the endpoint is disconnected.
    pub disconnected: bool,
}

/// The slot that a client controls after the player in slot `removed` has
/// left: none if that was its own, one less if it was an earlier one, the
/// same if it was a later one.
pub open spec fn shifted(character_idx: Option<usize>, removed: usize) -> Option<usize> {
    match character_idx {
        Some(mine) => if removed == mine {
            None
        } else if removed < mine {
            Some((mine - 1) as usize)
        } else {
            Some(mine)
        },
        None => None,
    }
}

/// The actions that the held keys stand for, in the order in which they are
/// sent: forward or else backward, then right or else left, then fire.
pub open spec fn chosen_inputs(keys: Keys) -> Seq<Input> {
    (if keys.w {
        seq![Input::W]
    } else if keys.s {
        seq![Input::S]
    } else {
        Seq::empty()
    }) + (if keys.d {
        seq![Input::D]
    } else if keys.a {
        seq![Input::A]
    } else {
        Seq::empty()
    }) + (if keys.space {
        seq![Input::Space]
    } else {
        Seq::empty()
    })
}

/// Whether `after` is the object `before` with each of `inputs` queued in turn.
pub open spec fn queued_all(before: GenericObject, inputs: Seq<Input>, after: GenericObject) -> bool {
    &&& after.same_body(&before)
    &&& before is Character ==> after.queue() == before.queue() + inputs
    &&& before is StaticObject ==> after == before
}

/// Whether an object is the character that the mirror makes of the snapshot
/// of a player that has joined: of unit size, at rest where the snapshot
/// says, turned as it says, with nothing queued.
pub open spec fn mirrors(o: GenericObject, snapshot: SendDynamicObjectView) -> bool {
    &&& o matches GenericObject::Character(c)
    &&& c.position == snapshot.position
    &&& c.scale == unit_factor()
    &&& c.hitbox_scale == unit_factor()
    &&& c.rotation == snapshot.rotation
    &&& c.velocity == origin()
    &&& c.acceleration == origin()
    &&& c.model@ == "player"@
    &&& c.inputs@ == Seq::<Input>::empty()
    &&& !c.is_firing
}

/// A player after the transform `update` has overwritten its own.
pub open spec fn overwritten(o: GenericObject, update: SendPlayerObjectUpdate) -> GenericObject {
    o.moved_to(Vector3 { x: update.x, y: update.y, z: update.z }).turned_to(
        update.rotation,
    ).firing_as(update.is_firing)
}

/// Whether `after` is the mirror `before` once the message `message` has
/// been applied to it.
pub open spec fn applied(before: Mirror, message: DataTypeView, after: Mirror) -> bool {
    match message {
        DataTypeView::PlayerNum(i) => after == (Mirror { character_idx: Some(i), ..before }),
        DataTypeView::StaticObject(o) => {
            &&& after == (Mirror { obstacles: before.obstacles.push(after.obstacles.last()), ..before })
            &&& after.obstacles.len() == before.obstacles.len() + 1
            &&& after.obstacles.last() is StaticObject
            &&& after.obstacles.last().static_snapshot() == o
        },
        DataTypeView::Player(update, idx) => after == (Mirror {
            players: if idx < before.players.len() {
                before.players.update(idx as int, overwritten(before.players[idx as int], update))
            } else {
                before.players
            },
            ..before
        }),
        DataTypeView::AddPlayer(p) => {
            &&& after == (Mirror { players: before.players.push(after.players.last()), ..before })
            &&& after.players.len() == before.players.len() + 1
            &&& mirrors(after.players.last(), p)
        },
        DataTypeView::RemovePlayer(idx) => after == (Mirror {
            players: if idx < before.players.len() {
                before.players.remove(idx as int)
            } else {
                before.players
            },
            character_idx: shifted(before.character_idx, idx),
            ..before
        }),
        _ => after == before,
    }
}

/// The hitboxes of a list of objects as they stand once a step of
/// `delta_time` seconds has used up their queued inputs and they have then
/// drifted for as long.
pub open spec fn ticked_boxes(objects: Seq<GenericObject>, delta_time: i64) -> Seq<Hitbox> {
    Seq::new(
        objects.len(),
        |i: int|
            Hitbox { centre: objects[i].free_position(delta_time), half: hitbox_of(objects[i]).half },
    )
}

/// Whether `after` is the local roster `before` once the mirror has advanced
/// by a step of `delta_time` seconds among `obstacles`: every player has used
/// up its queued inputs, has drifted, and stands where one pass of the
/// collision engine has put it.
pub open spec fn predicted(
    before: Seq<GenericObject>,
    obstacles: Seq<GenericObject>,
    delta_time: i64,
    after: Seq<GenericObject>,
) -> bool {
    &&& after.len() == before.len()
    &&& forall|i: int|
        0 <= i < before.len() ==> {
            &&& (#[trigger] after[i]).spec_position() == collided(
                ticked_boxes(before, delta_time),
                hitboxes(obstacles),
            )[i].centre
            &&& before[i].ticked(delta_time, &after[i].moved_to(before[i].free_position(delta_time)))
        }
}

/// When a player leaves, a client that controls another player keeps
/// control of the same character: the slot that it controls afterwards holds
/// the character that its slot held before.
pub proof fn lemma_shift_tracks(players: Seq<GenericObject>, mine: usize, removed: usize)
    requires
        mine < players.len(),
        removed < players.len(),
        removed != mine,
    ensures
        shifted(Some(mine), removed) matches Some(now) && now < players.remove(removed as int).len()
            && players.remove(removed as int)[now as int] == players[mine as int],
{
}

/// When the player that a client controls leaves, the client controls nothing.
pub proof fn lemma_shift_clears(mine: usize)
    ensures
        shifted(Some(mine), mine) is None,
{
}

/// The session of one client.
pub struct PlayScreen {
    players: Vec<GenericObject>,
    static_objects: Vec<GenericObject>,
    character_idx: Option<usize>,
    client: TwinstickClient,
}

impl View for PlayScreen {
    type V = Mirror;

    closed spec fn view(&self) -> Mirror {
        Mirror {
            players: self.players@,
            obstacles: self.static_objects@,
            character_idx: self.character_idx,
            disconnected: self.client.is_disconnected(),
        }
    }
}

impl PlayScreen {
    /// The address of the server, as text.
    pub closed spec fn server_name(&self) -> Seq<char> {
        self.client.server_name()
    }

    /// A session for the server at `ip`: disconnected, with an empty mirror
    /// and no slot under control.
    pub fn new(ip: &str) -> (r: PlayScreen)
        ensures
            r.server_name() == ip@,
            r@ == (Mirror {
                players: Seq::empty(),
                obstacles: Seq::empty(),
                character_idx: None,
                disconnected: true,
            }),
    {
        PlayScreen {
            players: Vec::new(),
            static_objects: Vec::new(),
            character_idx: None,
            client: TwinstickClient::new(ip),
        }
    }

    /// The endpoint of the session.
    pub fn client(&self) -> (r: &TwinstickClient)
        ensures
            r.is_disconnected() == self@.disconnected,
            r.server_name() == self.server_name(),
    {
        &self.client
    }

    /// The local copy of the roster.
    pub fn players(&self) -> (r: &Vec<GenericObject>)
        ensures
            r@ == self@.players,
    {
        &self.players
    }

    /// The local copy of the world.
    pub fn static_objects(&self) -> (r: &Vec<GenericObject>)
        ensures
            r@ == self@.obstacles,
    {
        &self.static_objects
    }

    /// The roster slot that this client controls, if it has been told.
    pub fn character_idx(&self) -> (r: Option<usize>)
        ensures
            r == self@.character_idx,
    {
        self.character_idx
    }

    /// The slot under control, if the local roster has a player in it.
    pub open spec fn local_slot(mirror: Mirror) -> Option<usize> {
        match mirror.character_idx {
            Some(i) => if i < mirror.players.len() {
                Some(i)
            } else {
                None
            },
            None => None,
        }
    }

    /// The slot under control, if the local roster has a player in it.
    pub fn local_player(&self) -> (r: Option<usize>)
        ensures
            r == Self::local_slot(self@),
    {
        match self.character_idx {
            Some(i) => if i < self.players.len() {
                Some(i)
            } else {
                None
            },
            None => None,
        }
    }

    /// Overwrites the transform of the player in slot `i` with `p`; does
    /// nothing if the local roster has no such slot. Whatever arrives last wins.
    pub fn update_player(&mut self, p: SendPlayerObjectUpdate, i: usize)
        ensures
            applied(old(self)@, DataTypeView::Player(p, i), final(self)@),
            final(self).server_name() == old(self).server_name(),
    {
        if i >= self.players.len() {
            return ;
        }
        self.players[i].set_position(p.position());
        self.players[i].set_rotation(p.rotation());
        self.players[i].set_firing(p.is_firing());
        assert(self.players@ =~= old(self).players@.update(
            i as int,
            overwritten(old(self).players@[i as int], p),
        ));
    }

    /// Appends the player that `character` describes to the local roster.
    pub fn add_player(&mut self, character: &SendDynamicObject)
        ensures
            applied(old(self)@, DataTypeView::AddPlayer(character@), final(self)@),
            final(self).server_name() == old(self).server_name(),
    {
        let mut c = Character::new(character.position(), Vector3::new_same(UNIT));
        c.rotation = character.rotation();
        self.players.push(GenericObject::Character(c));
    }

    /// Takes the player in slot `idx` out of the local roster, if there is
    /// one, and lets the slot under control follow the shift.
    pub fn remove_player(&mut self, idx: usize)
        ensures
            applied(old(self)@, DataTypeView::RemovePlayer(idx), final(self)@),
            final(self).server_name() == old(self).server_name(),
    {
        self.character_idx = match self.character_idx {
            Some(mine) => if idx == mine {
                None
            } else if idx < mine {
                Some(mine - 1)
            } else {
                Some(mine)
            },
            None => None,
        };
        if idx < self.players.len() {
            self.players.remove(idx);
        }
    }

    /// Applies a message from the server to the mirror.
    pub fn dispatch(&mut self, message: &DataType)
        ensures
            applied(old(self)@, message@, final(self)@),
            final(self).server_name() == old(self).server_name(),
    {
        match message {
            DataType::PlayerNum(i) => {
                self.character_idx = Some(*i);
            },
            DataType::StaticObject(object) => {
                self.static_objects.push(GenericObject::StaticObject(object.to_static_object()));
            },
            DataType::Player(p, idx) => {
                self.update_player(*p, *idx);
            },
            DataType::AddPlayer(p) => {
                self.add_player(p);
            },
            DataType::RemovePlayer(idx) => {
                self.remove_player(*idx);
            },
            _ => {},
        }
    }

    /// Starts a connection attempt if the endpoint is disconnected: the
    /// caller associates its socket with the server and, if that succeeds,
    /// sends the handshake returned.
    pub fn connect(&self) -> (r: Option<Vec<u8>>)
        ensures
            r is Some <==> self@.disconnected,
            r matches Some(handshake) ==> handshake@ == encode(
                DataTypeView::TryConnect(crate::VERSION),
            ),
    {
        self.client.connect()
    }

    /// The probe to send on an established connection; `None` while
    /// disconnected. The caller reports to `sent` whether the socket took it.
    pub fn send(&self) -> (r: Option<Vec<u8>>)
        ensures
            r is Some <==> !self@.disconnected,
            r matches Some(data) ==> data@ == probe(),
    {
        self.client.send()
    }

    /// Takes note of how sending the probe went: a failure disconnects the
    /// endpoint, and the mirror stays as it is.
    pub fn sent(&mut self, ok: bool)
        ensures
            final(self).server_name() == old(self).server_name(),
            final(self)@ == (Mirror {
                disconnected: old(self)@.disconnected || !ok,
                ..old(self)@
            }),
    {
        self.client.sent(ok);
    }

    /// Ends the connection: a connected endpoint gets the farewell to send
    /// and becomes disconnected; a disconnected one gets `None`. The mirror
    /// stays as it is.
    pub fn disconnect(&mut self) -> (r: Option<Vec<u8>>)
        ensures
            final(self).server_name() == old(self).server_name(),
            final(self)@ == (Mirror {
                disconnected: disconnect_step(old(self)@.disconnected).0,
                ..old(self)@
            }),
            match r {
                Some(data) => Some(data@) == disconnect_step(old(self)@.disconnected).1,
                None => disconnect_step(old(self)@.disconnected).1 is None,
            },
    {
        self.client.disconnect()
    }

    /// The datagram that tells the server how the player under control is
    /// turned; `None` if no player of the local roster is under control.
    pub fn send_rotation(&self) -> (r: Option<Vec<u8>>)
        ensures
            match Self::local_slot(self@) {
                Some(i) => r matches Some(data) && data@ == encode(
                    DataTypeView::PlayerRotation(self@.players[i as int].spec_rotation(), i),
                ),
                None => r is None,
            },
    {
        match self.local_player() {
            Some(i) => Some(
                self.client.send_datatype(&DataType::PlayerRotation(self.players[i].rotation(), i)),
            ),
            None => None,
        }
    }

    /// Handles the outcome of one read on the socket: a message is applied to
    /// the mirror, a confirmation also connects the endpoint. Returns the
    /// description of a fatal condition if the server reported one.
    pub fn recieve(&mut self, incoming: &Incoming) -> (r: Option<String>)
        ensures
            final(self).server_name() == old(self).server_name(),
            final(self)@.disconnected == disconnected_after(old(self)@.disconnected, *incoming),
            match delivered(*incoming) {
                None => r is None && final(self)@ == old(self)@,
                Some(DataTypeView::Error(e)) => {
                    &&& r matches Some(text)
                    &&& text@ == e
                    &&& final(self)@ == old(self)@
                },
                Some(m) => r is None && applied(
                    Mirror { disconnected: final(self)@.disconnected, ..old(self)@ },
                    m,
                    final(self)@,
                ),
            },
    {
        match self.client.recieve(incoming) {
            Received::Nothing => None,
            Received::Fatal(e) => Some(e),
            Received::Message(message) => {
                self.dispatch(&message);
                None
            },
        }
    }

    /// Turns the player under control to the yaw `rotation`; does nothing if
    /// no player of the local roster is under control.
    pub fn update_player_rotation(&mut self, rotation: i64)
        ensures
            final(self).server_name() == old(self).server_name(),
            final(self)@ == (Mirror {
                players: match Self::local_slot(old(self)@) {
                    Some(i) => old(self)@.players.update(
                        i as int,
                        old(self)@.players[i as int].turned_to(rotation),
                    ),
                    None => old(self)@.players,
                },
                ..old(self)@
            }),
    {
        match self.local_player() {
            Some(i) => {
                self.players[i].set_rotation(rotation);
                assert(self.players@ =~= old(self).players@.update(
                    i as int,
                    old(self).players@[i as int].turned_to(rotation),
                ));
            },
            None => {},
        }
    }

    /// Turns the held keys into actions: each is returned as a datagram for
    /// the server and queued on the player under control, if the local roster
    /// has one.
    pub fn process_player_input(&mut self, keys: &Keys) -> (r: Vec<Vec<u8>>)
        ensures
            final(self).server_name() == old(self).server_name(),
            r@.len() == chosen_inputs(*keys).len(),
            forall|k: int|
                0 <= k < r@.len() ==> (#[trigger] r@[k])@ == encode(
                    DataTypeView::Input(chosen_inputs(*keys)[k]),
                ),
            match Self::local_slot(old(self)@) {
                Some(i) => {
                    &&& final(self)@ == (Mirror {
                        players: old(self)@.players.update(i as int, final(self)@.players[i as int]),
                        ..old(self)@
                    })
                    &&& queued_all(
                        old(self)@.players[i as int],
                        chosen_inputs(*keys),
                        final(self)@.players[i as int],
                    )
                },
                None => final(self)@ == old(self)@,
            },
    {
        let mut inputs: Vec<Input> = Vec::new();
        if keys.w {
            inputs.push(Input::W);
        } else if keys.s {
            inputs.push(Input::S);
        }
        if keys.d {
            inputs.push(Input::D);
        } else if keys.a {
            inputs.push(Input::A);
        }
        if keys.space {
            inputs.push(Input::Space);
        }
        assert(inputs@ =~= chosen_inputs(*keys));
        let local = self.local_player();
        let mut out: Vec<Vec<u8>> = Vec::new();
        let mut k: usize = 0;
        while k < inputs.len()
            invariant
                k <= inputs@.len(),
                inputs@ == chosen_inputs(*keys),
                local == Self::local_slot(old(self)@),
                self.static_objects == old(self).static_objects,
                self.character_idx == old(self).character_idx,
                self.client == old(self).client,
                out@.len() == k,
                forall|j: int|
                    0 <= j < k ==> (#[trigger] out@[j])@ == encode(DataTypeView::Input(inputs@[j])),
                match local {
                    Some(i) => {
                        &&& self.players@ == old(self).players@.update(i as int, self.players@[i as int])
                        &&& queued_all(
                            old(self).players@[i as int],
                            inputs@.take(k as int),
                            self.players@[i as int],
                        )
                    },
                    None => self.players@ == old(self).players@,
                },
            decreases inputs@.len() - k,
        {
            out.push(self.client.send_datatype(&DataType::Input(inputs[k])));
            match local {
                Some(i) => {
                    let ghost before = self.players@;
                    self.players[i].add_input(inputs[k]);
                    proof {
                        assert(inputs@.take(k + 1) =~= inputs@.take(k as int).push(inputs@[k as int]));
                        assert(before[i as int].queued(inputs@[k as int], &self.players@[i as int]));
                        if before[i as int] is Character {
                            assert(self.players@[i as int].queue() =~= old(self).players@[i as int].queue()
                                + inputs@.take(k + 1));
                        }
                        assert(self.players@ =~= old(self).players@.update(
                            i as int,
                            self.players@[i as int],
                        ));
                    }
                },
                None => {},
            }
            k += 1;
        }
        assert(inputs@.take(k as int) =~= inputs@);
        out
    }

    /// Advances the mirror by a step of `delta_time` seconds: every player
    /// uses up its queued inputs and drifts, then one pass of the collision
    /// engine keeps the players out of the local copy of the world and out of
    /// each other.
    pub fn update(&mut self, delta_time: i64)
        ensures
            final(self).server_name() == old(self).server_name(),
            final(self)@.obstacles == old(self)@.obstacles,
            final(self)@.character_idx == old(self)@.character_idx,
            final(self)@.disconnected == old(self)@.disconnected,
            predicted(old(self)@.players, old(self)@.obstacles, delta_time, final(self)@.players),
    {
        let n = self.players.len();
        let mut i: usize = 0;
        while i < n
            invariant
                i <= n,
                n == self.players@.len(),
                n == old(self).players@.len(),
                self.static_objects == old(self).static_objects,
                self.character_idx == old(self).character_idx,
                self.client == old(self).client,
                forall|k: int|
                    0 <= k < i ==> old(self).players@[k].ticked(
                        delta_time,
                        &#[trigger] self.players@[k],
                    ),
                forall|k: int| i <= k < n ==> #[trigger] self.players@[k] == old(self).players@[k],
            decreases n - i,
        {
            self.players[i].update(delta_time);
            self.players[i].physics_update(delta_time);
            i += 1;
        }
        let ghost mid = self.players@;
        proof {
            assert(hitboxes(mid) =~= ticked_boxes(old(self).players@, delta_time));
        }
        calculate_collisions(&mut self.players, &self.static_objects);
        proof {
            assert forall|i: int| 0 <= i < n implies old(self).players@[i].ticked(
                delta_time,
                &(#[trigger] self.players@[i]).moved_to(
                    old(self).players@[i].free_position(delta_time),
                ),
            ) by {
                assert(self.players@[i].moved_to(old(self).players@[i].free_position(delta_time))
                    == mid[i]);
            }
        }
    }
}

} // verus!

//! The authoritative state of one game: the roster of players and the
//! obstacles of the world.

use vstd::prelude::*;
use crate::collisions::{calculate_collisions, collided, hitbox_of, hitboxes, Hitbox};
use crate::fixed::{fx_add, fx_add_spec};
use crate::input::Input;
use crate::objects::{origin, unit_factor, Character, GenericObject};
use crate::section::{all_static, pieces_of, static_snapshots, Section};
use crate::vector::Vector3;
use crate::{FPS_60, UNIT};

verus! {

/// Edge length of a cell of the world.
pub const SECTION_SIZE: i64 = 20_000_000;

/// Height above the ground at which a new player appears.
pub const SPAWN_HEIGHT: i64 = 10_000_000;

/// A cell of the world with the given parts.
pub open spec fn cell(x: int, z: int, left: bool, right: bool, back: bool, front: bool) -> Section {
    Section {
        x: x as i32,
        z: z as i32,
        size: SECTION_SIZE,
        has_floor: true,
        has_left_wall: left,
        has_right_wall: right,
        has_back_wall: back,
        has_front_wall: front,
    }
}

/// The cells that make up the world: a corridor of four rooms, a passage
/// that crosses it, and a hall of three by three cells at the passage's end.
pub open spec fn world_sections() -> Seq<Section> {
    seq![
        cell(0, 0, true, false, true, true),
        cell(-1, 0, false, false, true, true),
        cell(-2, 0, false, false, false, false),
        cell(-3, 0, false, true, true, true),
        cell(-2, 1, true, true, false, false),
        cell(-2, -1, true, true, true, false),
        cell(-2, 2, false, false, false, false),
        cell(-2, 3, false, false, false, false),
        cell(-2, 4, false, false, false, true),
        cell(-1, 2, true, false, true, false),
        cell(-1, 3, true, false, false, false),
        cell(-1, 4, true, false, false, true),
        cell(-3, 2, false, true, true, false),
        cell(-3, 3, false, true, false, false),
        cell(-3, 4, false, true, false, true),
    ]
}

/// Whether an object is a player as it joins: a character of unit size at
/// rest above the middle of the first cell, with nothing queued.
pub open spec fn is_new_player(o: GenericObject) -> bool {
    &&& o matches GenericObject::Character(c)
    &&& c.position == (Vector3 { x: 0, y: SPAWN_HEIGHT, z: 0 })
    &&& c.scale == unit_factor()
    &&& c.hitbox_scale == unit_factor()
    &&& c.rotation == 0
    &&& c.velocity == origin()
    &&& c.acceleration == origin()
    &&& c.model@ == "player"@
    &&& c.inputs@ == Seq::<Input>::empty()
    &&& !c.is_firing
}

/// The hitboxes of a list of objects as they stand once a step of
/// `delta_time` seconds has used up their queued inputs.
pub open spec fn stepped(objects: Seq<GenericObject>, delta_time: i64) -> Seq<Hitbox> {
    Seq::new(
        objects.len(),
        |i: int|
            Hitbox { centre: objects[i].next_position(delta_time), half: hitbox_of(objects[i]).half },
    )
}

/// Whether `after` is the roster `before` once the game has advanced by a
/// step of `delta_time` seconds among `obstacles`: every player has used up
/// its queued inputs and stands where one pass of the collision engine has
/// put it, having started from where its inputs led.
pub open spec fn advanced(
    before: Seq<GenericObject>,
    obstacles: Seq<GenericObject>,
    delta_time: i64,
    after: Seq<GenericObject>,
) -> bool {
    &&& after.len() == before.len()
    &&& forall|i: int|
        0 <= i < before.len() ==> {
            &&& (#[trigger] after[i]).spec_position() == collided(
                stepped(before, delta_time),
                hitboxes(obstacles),
            )[i].centre
            &&& before[i].updated(delta_time, &after[i].moved_to(before[i].next_position(delta_time)))
        }
}

/// The state of one game.
pub struct TwinstickGame {
    players: Vec<GenericObject>,
    static_objects: Vec<GenericObject>,
}

impl TwinstickGame {
    /// The roster: the players in the order in which they joined.
    pub closed spec fn roster(&self) -> Seq<GenericObject> {
        self.players@
    }

    /// The obstacles of the world.
    pub closed spec fn obstacles(&self) -> Seq<GenericObject> {
        self.static_objects@
    }

    /// A game without players in the world that `world_sections` lays out.
    pub fn new() -> (r: TwinstickGame)
        ensures
            r.roster() == Seq::<GenericObject>::empty(),
            all_static(r.obstacles()),
            static_snapshots(r.obstacles()) == pieces_of(world_sections()),
    {
        let size = SECTION_SIZE;
        let sections: Vec<Section> = vec![
            Section::new(0, 0, size).floor().left_wall().back_wall().front_wall(),
            Section::new(-1, 0, size).floor().back_wall().front_wall(),
            Section::new(-2, 0, size).floor(),
            Section::new(-3, 0, size).floor().right_wall().back_wall().front_wall(),
            Section::new(-2, 1, size).floor().right_wall().left_wall(),
            Section::new(-2, -1, size).floor().right_wall().left_wall().back_wall(),
            Section::new(-2, 2, size).floor(),
            Section::new(-2, 3, size).floor(),
            Section::new(-2, 4, size).floor().front_wall(),
            Section::new(-1, 2, size).floor().back_wall().left_wall(),
            Section::new(-1, 3, size).floor().left_wall(),
            Section::new(-1, 4, size).floor().left_wall().front_wall(),
            Section::new(-3, 2, size).floor().back_wall().right_wall(),
            Section::new(-3, 3, size).floor().right_wall(),
            Section::new(-3, 4, size).floor().right_wall().front_wall(),
        ];
        assert(sections@ =~= world_sections());
        let mut static_objects: Vec<GenericObject> = Vec::new();
        let mut i: usize = 0;
        assert(static_snapshots(static_objects@) =~= pieces_of(sections@.take(0)));
        while i < sections.len()
            invariant
                i <= sections@.len(),
                all_static(static_objects@),
                static_snapshots(static_objects@) == pieces_of(sections@.take(i as int)),
            decreases sections@.len() - i,
        {
            let mut pieces = sections[i].static_objects();
            let ghost before = static_objects@;
            let ghost added = pieces@;
            static_objects.append(&mut pieces);
            proof {
                assert(sections@.take(i + 1).drop_last() =~= sections@.take(i as int));
                assert(sections@.take(i + 1).last() == sections@[i as int]);
                assert(static_snapshots(before + added) =~= static_snapshots(before)
                    + static_snapshots(added));
            }
            i += 1;
        }
        assert(sections@.take(i as int) =~= sections@);
        TwinstickGame { players: Vec::new(), static_objects }
    }

    /// The roster.
    pub fn players(&self) -> (r: &Vec<GenericObject>)
        ensures
            r@ == self.roster(),
    {
        &self.players
    }

    /// The obstacles of the world.
    pub fn static_objects(&self) -> (r: &Vec<GenericObject>)
        ensures
            r@ == self.obstacles(),
    {
        &self.static_objects
    }

    /// Turns the player in slot `idx` to the yaw `rot`; does nothing if there is no such slot.
    pub fn set_player_rotation(&mut self, idx: usize, rot: i64)
        ensures
            final(self).obstacles() == old(self).obstacles(),
            idx < old(self).roster().len() ==> final(self).roster() == old(self).roster().update(
                idx as int,
                old(self).roster()[idx as int].turned_to(rot),
            ),
            idx >= old(self).roster().len() ==> final(self).roster() == old(self).roster(),
    {
        if idx >= self.players.len() {
            return ;
        }
        self.players[idx].set_rotation(rot);
        assert(self.players@ =~= old(self).players@.update(
            idx as int,
            old(self).players@[idx as int].turned_to(rot),
        ));
    }

    /// Replaces the player in slot `idx`; does nothing if there is no such slot.
    pub fn set_player(&mut self, idx: usize, player: Character)
        ensures
            final(self).obstacles() == old(self).obstacles(),
            idx < old(self).roster().len() ==> final(self).roster() == old(self).roster().update(
                idx as int,
                GenericObject::Character(player),
            ),
            idx >= old(self).roster().len() ==> final(self).roster() == old(self).roster(),
    {
        if idx >= self.players.len() {
            return ;
        }
        self.players[idx] = GenericObject::Character(player);
        assert(self.players@ =~= old(self).players@.update(
            idx as int,
            GenericObject::Character(player),
        ));
    }

    /// Lets a new player join in the slot behind the last.
    pub fn add_player(&mut self)
        ensures
            final(self).obstacles() == old(self).obstacles(),
            final(self).roster().len() == old(self).roster().len() + 1,
            final(self).roster() == old(self).roster().push(final(self).roster().last()),
            is_new_player(final(self).roster().last()),
    {
        self.players.push(
            GenericObject::Character(
                Character::new(Vector3::new(0, SPAWN_HEIGHT, 0), Vector3::new_same(UNIT)),
            ),
        );
    }

    /// Takes the player in slot `i` out of the roster; the players behind it
    /// move up by one slot.
    pub fn remove_player(&mut self, i: usize)
        requires
            i < old(self).roster().len(),
        ensures
            final(self).obstacles() == old(self).obstacles(),
            final(self).roster() == old(self).roster().remove(i as int),
    {
        self.players.remove(i);
    }

    /// Queues `input` on the player in slot `i`; does nothing if there is no such slot.
    pub fn add_input(&mut self, i: usize, input: Input)
        ensures
            final(self).obstacles() == old(self).obstacles(),
            i < old(self).roster().len() ==> {
                &&& final(self).roster() == old(self).roster().update(
                    i as int,
                    final(self).roster()[i as int],
                )
                &&& old(self).roster()[i as int].queued(input, &final(self).roster()[i as int])
            },
            i >= old(self).roster().len() ==> final(self).roster() == old(self).roster(),
    {
        if !(i < self.players.len()) {
            return ;
        }
        self.players[i].add_input(input);
        assert(self.players@ =~= old(self).players@.update(i as int, self.players@[i as int]));
    }

    /// Advances the game by a step of `delta_time` seconds: every player uses
    /// up its queued inputs, then one pass of the collision engine keeps the
    /// players out of the obstacles and out of each other.
    pub fn update(&mut self, delta_time: i64)
        ensures
            final(self).obstacles() == old(self).obstacles(),
            advanced(old(self).roster(), old(self).obstacles(), delta_time, final(self).roster()),
    {
        let n = self.players.len();
        let mut i: usize = 0;
        while i < n
            invariant
                i <= n,
                n == self.players@.len(),
                n == old(self).players@.len(),
                self.static_objects == old(self).static_objects,
                forall|k: int|
                    0 <= k < i ==> old(self).players@[k].updated(
                        delta_time,
                        &#[trigger] self.players@[k],
                    ),
                forall|k: int| i <= k < n ==> #[trigger] self.players@[k] == old(self).players@[k],
            decreases n - i,
        {
            self.players[i].update(delta_time);
            i += 1;
        }
        let ghost mid = self.players@;
        proof {
            assert(hitboxes(mid) =~= stepped(old(self).players@, delta_time));
        }
        calculate_collisions(&mut self.players, &self.static_objects);
        proof {
            assert forall|i: int| 0 <= i < n implies old(self).players@[i].updated(
                delta_time,
                &(#[trigger] self.players@[i]).moved_to(
                    old(self).players@[i].next_position(delta_time),
                ),
            ) by {
                assert(self.players@[i].moved_to(old(self).players@[i].next_position(delta_time))
                    == mid[i]);
            }
        }
    }
}

/// The clock of the simulation loop: it gathers the time that passes and
/// says when a step of [`FPS_60`] seconds is due.
pub struct StepClock {
    tick: i64,
}

impl StepClock {
    /// The time gathered since the last step, in fixed-point seconds.
    pub closed spec fn gathered(&self) -> i64 {
        self.tick
    }

    /// A clock that has gathered no time.
    pub fn new() -> (r: StepClock)
        ensures
            r.gathered() == 0,
    {
        StepClock { tick: 0 }
    }

    /// Gathers `delta_time` more seconds. A step is due as soon as a full
    /// step's time has been gathered; the clock then starts over from zero
    /// and drops what was gathered beyond the step.
    pub fn advance(&mut self, delta_time: i64) -> (due: bool)
        ensures
            due == (fx_add_spec(old(self).gathered(), delta_time) >= FPS_60),
            final(self).gathered() == if due {
                0
            } else {
                fx_add_spec(old(self).gathered(), delta_time)
            },
    {
        self.tick = fx_add(self.tick, delta_time);
        if self.tick >= FPS_60 {
            self.tick = 0;
            true
        } else {
            false
        }
    }
}

} // verus!

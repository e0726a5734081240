//! The objects of the world: player-controlled characters and immovable
//! obstacles, behind one closed set of variants.

use vstd::prelude::*;
use crate::fixed::{fx_add, fx_add_spec, fx_mul, fx_mul_spec, fx_sub, fx_sub_spec};
use crate::input::Input;
use crate::send_structs::{
    SendDynamicObject, SendDynamicObjectUpdate, SendDynamicObjectView, SendPlayerObjectUpdate,
    SendStaticObject, SendStaticObjectView,
};
use crate::vector::Vector3;
use crate::{SPEED, UNIT};

verus! {

/// The hitbox factor of an object that was given none: one on every axis.
pub open spec fn unit_factor() -> Vector3 {
    Vector3 { x: UNIT, y: UNIT, z: UNIT }
}

/// The vector with three zero components.
pub open spec fn origin() -> Vector3 {
    Vector3 { x: 0, y: 0, z: 0 }
}

/// Distance that one movement input carries a character in a step of `delta_time` seconds.
pub open spec fn step_length(delta_time: i64) -> i64 {
    fx_mul_spec(SPEED, delta_time)
}

/// Where a character at `p` stands after one `input` that moves it by `step`.
/// Forward is towards smaller z, left is towards larger x; firing moves nothing.
pub open spec fn moved(p: Vector3, input: Input, step: i64) -> Vector3 {
    match input {
        Input::W => Vector3 { x: p.x, y: p.y, z: fx_sub_spec(p.z, step) },
        Input::S => Vector3 { x: p.x, y: p.y, z: fx_add_spec(p.z, step) },
        Input::A => Vector3 { x: fx_add_spec(p.x, step), y: p.y, z: p.z },
        Input::D => Vector3 { x: fx_sub_spec(p.x, step), y: p.y, z: p.z },
        Input::Space => p,
    }
}

/// Where a character at `p` stands after all of `inputs`, taken in the order
/// in which they were queued.
pub open spec fn walked(p: Vector3, inputs: Seq<Input>, step: i64) -> Vector3
    decreases inputs.len(),
{
    if inputs.len() == 0 {
        p
    } else {
        moved(walked(p, inputs.drop_last(), step), inputs.last(), step)
    }
}

/// An immovable obstacle.
#[derive(Debug, PartialEq, Eq)]
pub struct StaticObject {
    pub position: Vector3,
    pub scale: Vector3,
    pub hitbox_scale: Vector3,
    pub model: String,
}

impl StaticObject {
    /// An obstacle at `position`, drawn at `scale`, whose hitbox is as large as it is drawn.
    pub fn new(position: Vector3, scale: Vector3, model: String) -> (r: StaticObject)
        ensures
            r.position == position,
            r.scale == scale,
            r.hitbox_scale == unit_factor(),
            r.model == model,
    {
        StaticObject { position, scale, hitbox_scale: Vector3::new_same(UNIT), model }
    }

    /// The same obstacle with its hitbox factor replaced.
    pub fn hitbox_scale(self, hitbox_scale: Vector3) -> (r: StaticObject)
        ensures
            r.position == self.position,
            r.scale == self.scale,
            r.hitbox_scale == hitbox_scale,
            r.model == self.model,
    {
        StaticObject {
            position: self.position,
            scale: self.scale,
            hitbox_scale,
            model: self.model,
        }
    }
}

impl Clone for StaticObject {
    fn clone(&self) -> (r: StaticObject)
        ensures
            r == *self,
    {
        StaticObject {
            position: self.position,
            scale: self.scale,
            hitbox_scale: self.hitbox_scale,
            model: self.model.clone(),
        }
    }
}

/// A player-controlled object. Inputs queue up on it between two steps of
/// the simulation and are used up by the next step.
#[derive(Debug, PartialEq, Eq)]
pub struct Character {
    pub position: Vector3,
    pub scale: Vector3,
    pub hitbox_scale: Vector3,
    /// Yaw in degrees.
    pub rotation: i64,
    pub velocity: Vector3,
    pub acceleration: Vector3,
    pub model: String,
    pub inputs: Vec<Input>,
    pub is_firing: bool,
}

impl Character {
    /// A character at rest at `position`, drawn at `scale`, facing along yaw
    /// zero, with no input queued.
    pub fn new(position: Vector3, scale: Vector3) -> (r: Character)
        ensures
            r.position == position,
            r.scale == scale,
            r.hitbox_scale == unit_factor(),
            r.rotation == 0,
            r.velocity == origin(),
            r.acceleration == origin(),
            r.model@ == "player"@,
            r.inputs@ == Seq::<Input>::empty(),
            !r.is_firing,
    {
        Character {
            position,
            scale,
            hitbox_scale: Vector3::new_same(UNIT),
            rotation: 0,
            velocity: Vector3::new_same(0),
            acceleration: Vector3::new_same(0),
            model: "player".to_owned(),
            inputs: Vec::new(),
            is_firing: false,
        }
    }

    /// What a snapshot of this character holds.
    pub open spec fn snapshot(&self) -> SendDynamicObjectView {
        SendDynamicObjectView {
            position: self.position,
            size: self.scale,
            hitbox: self.hitbox_scale,
            rotation: self.rotation,
            model: self.model@,
        }
    }

    /// The per-tick transform of this character.
    pub open spec fn transform(&self) -> SendPlayerObjectUpdate {
        SendPlayerObjectUpdate {
            x: self.position.x,
            y: self.position.y,
            z: self.position.z,
            rotation: self.rotation,
            is_firing: self.is_firing,
        }
    }

    /// Whether `after` is this character once a step of `delta_time` seconds
    /// has used up its queued inputs: it has walked where they lead, it is
    /// firing exactly if one of them was the fire action, and its queue is empty.
    pub open spec fn updated(&self, delta_time: i64, after: &Character) -> bool {
        &&& after.inputs@ == Seq::<Input>::empty()
        &&& *after == (Character {
            position: walked(self.position, self.inputs@, step_length(delta_time)),
            is_firing: self.inputs@.contains(Input::Space),
            inputs: after.inputs,
            ..*self
        })
    }

    /// This character after `delta_time` seconds of free motion: the velocity
    /// has grown by the acceleration, and the position by the new velocity.
    pub open spec fn drifted(self, delta_time: i64) -> Character {
        let velocity = self.velocity.plus(self.acceleration.scaled(delta_time));
        Character { velocity, position: self.position.plus(velocity.scaled(delta_time)), ..self }
    }

    /// Whether `after` is this character once a step of `delta_time` seconds
    /// has used up its queued inputs and it has then drifted for as long.
    pub open spec fn ticked(&self, delta_time: i64, after: &Character) -> bool {
        &&& after.inputs@ == Seq::<Input>::empty()
        &&& *after == (Character {
            position: walked(self.position, self.inputs@, step_length(delta_time)),
            is_firing: self.inputs@.contains(Input::Space),
            inputs: after.inputs,
            ..*self
        }).drifted(delta_time)
    }

    /// This character with `input` queued: `after` differs in its queue alone.
    pub open spec fn queued(&self, input: Input, after: &Character) -> bool {
        &&& after.inputs@ == self.inputs@.push(input)
        &&& *after == (Character { inputs: after.inputs, ..*self })
    }

    /// Queues `input` behind the inputs that are already waiting.
    pub fn add_input(&mut self, input: Input)
        ensures
            old(self).queued(input, final(self)),
    {
        self.inputs.push(input);
    }

    /// Uses up the queued inputs in a step of `delta_time` seconds.
    pub fn update(&mut self, delta_time: i64)
        ensures
            old(self).updated(delta_time, final(self)),
    {
        let step = fx_mul(SPEED, delta_time);
        let mut p = self.position;
        let mut firing = false;
        let mut i: usize = 0;
        while i < self.inputs.len()
            invariant
                i <= self.inputs@.len(),
                *self == *old(self),
                step == step_length(delta_time),
                p == walked(self.position, self.inputs@.take(i as int), step),
                firing == self.inputs@.take(i as int).contains(Input::Space),
            decreases self.inputs@.len() - i,
        {
            let input = self.inputs[i];
            proof {
                let before = self.inputs@.take(i as int);
                let now = self.inputs@.take(i + 1);
                assert(now.drop_last() =~= before);
                assert(now.last() == input);
                assert(now =~= before.push(input));
                assert(now.contains(Input::Space) <==> (before.contains(Input::Space) || input
                    == Input::Space)) by {
                    if before.contains(Input::Space) {
                        let k = choose|k: int| 0 <= k < before.len() && before[k] == Input::Space;
                        assert(now[k] == Input::Space);
                    }
                    if input == Input::Space {
                        assert(now[i as int] == Input::Space);
                    }
                }
            }
            match input {
                Input::W => { p.z = fx_sub(p.z, step); },
                Input::S => { p.z = fx_add(p.z, step); },
                Input::A => { p.x = fx_add(p.x, step); },
                Input::D => { p.x = fx_sub(p.x, step); },
                Input::Space => { firing = true; },
            }
            i += 1;
        }
        assert(self.inputs@.take(i as int) =~= self.inputs@);
        self.position = p;
        self.is_firing = firing;
        self.inputs.clear();
    }

    /// Lets the character drift for `delta_time` seconds.
    pub fn physics_update(&mut self, delta_time: i64)
        ensures
            *final(self) == old(self).drifted(delta_time),
    {
        self.velocity = self.velocity.moved_by(&self.acceleration.scale(delta_time));
        self.position = self.position.moved_by(&self.velocity.scale(delta_time));
    }

    /// A snapshot of this character.
    pub fn send_dyn_obj(&self) -> (r: SendDynamicObject)
        ensures
            r@ == self.snapshot(),
    {
        SendDynamicObject {
            x: self.position.x,
            y: self.position.y,
            z: self.position.z,
            size_x: self.scale.x,
            size_y: self.scale.y,
            size_z: self.scale.z,
            hitbox_x: self.hitbox_scale.x,
            hitbox_y: self.hitbox_scale.y,
            hitbox_z: self.hitbox_scale.z,
            rotation: self.rotation,
            model: self.model.clone(),
        }
    }

    /// The per-tick transform of this character.
    pub fn send_player_update(&self) -> (r: SendPlayerObjectUpdate)
        ensures
            r == self.transform(),
    {
        SendPlayerObjectUpdate {
            x: self.position.x,
            y: self.position.y,
            z: self.position.z,
            rotation: self.rotation,
            is_firing: self.is_firing,
        }
    }
}

impl Clone for Character {
    fn clone(&self) -> (r: Character)
        ensures
            r.inputs@ == self.inputs@,
            r == (Character { inputs: r.inputs, ..*self }),
    {
        let mut inputs: Vec<Input> = Vec::new();
        let mut i: usize = 0;
        while i < self.inputs.len()
            invariant
                i <= self.inputs@.len(),
                inputs@ == self.inputs@.take(i as int),
            decreases self.inputs@.len() - i,
        {
            inputs.push(self.inputs[i]);
            assert(self.inputs@.take(i + 1) =~= self.inputs@.take(i as int).push(
                self.inputs@[i as int],
            ));
            i += 1;
        }
        assert(self.inputs@.take(i as int) =~= self.inputs@);
        Character {
            position: self.position,
            scale: self.scale,
            hitbox_scale: self.hitbox_scale,
            rotation: self.rotation,
            velocity: self.velocity,
            acceleration: self.acceleration,
            model: self.model.clone(),
            inputs,
            is_firing: self.is_firing,
        }
    }
}

/// An object of the world: a character or an obstacle.
#[derive(Debug, PartialEq, Eq)]
pub enum GenericObject {
    Character(Character),
    StaticObject(StaticObject),
}

impl Clone for GenericObject {
    fn clone(&self) -> (r: GenericObject)
        ensures
            r.same_body(self),
            r.queue() == self.queue(),
    {
        match self {
            GenericObject::Character(c) => GenericObject::Character(c.clone()),
            GenericObject::StaticObject(o) => GenericObject::StaticObject(o.clone()),
        }
    }
}

impl GenericObject {
    /// Where the object is.
    pub open spec fn spec_position(&self) -> Vector3 {
        match self {
            GenericObject::Character(c) => c.position,
            GenericObject::StaticObject(o) => o.position,
        }
    }

    /// The size at which the object is drawn.
    pub open spec fn spec_scale(&self) -> Vector3 {
        match self {
            GenericObject::Character(c) => c.scale,
            GenericObject::StaticObject(o) => o.scale,
        }
    }

    /// The factor between the drawn size and the hitbox.
    pub open spec fn spec_hitbox_scale(&self) -> Vector3 {
        match self {
            GenericObject::Character(c) => c.hitbox_scale,
            GenericObject::StaticObject(o) => o.hitbox_scale,
        }
    }

    /// The yaw of the object in degrees; an obstacle never turns.
    pub open spec fn spec_rotation(&self) -> i64 {
        match self {
            GenericObject::Character(c) => c.rotation,
            GenericObject::StaticObject(_) => 0,
        }
    }

    /// The name of the model that the object is drawn with.
    pub open spec fn spec_model(&self) -> Seq<char> {
        match self {
            GenericObject::Character(c) => c.model@,
            GenericObject::StaticObject(o) => o.model@,
        }
    }

    /// The inputs that wait on the object; an obstacle takes none.
    pub open spec fn queue(&self) -> Seq<Input> {
        match self {
            GenericObject::Character(c) => c.inputs@,
            GenericObject::StaticObject(_) => Seq::empty(),
        }
    }

    /// Whether the object is a character that is firing.
    pub open spec fn firing(&self) -> bool {
        match self {
            GenericObject::Character(c) => c.is_firing,
            GenericObject::StaticObject(_) => false,
        }
    }

    /// Whether two objects agree in everything but the inputs that wait on them.
    pub open spec fn same_body(&self, other: &GenericObject) -> bool {
        match (self, other) {
            (GenericObject::Character(a), GenericObject::Character(b)) => *a == (Character {
                inputs: a.inputs,
                ..*b
            }),
            (GenericObject::StaticObject(a), GenericObject::StaticObject(b)) => a == b,
            _ => false,
        }
    }

    /// The object at another position.
    pub open spec fn moved_to(self, position: Vector3) -> GenericObject {
        match self {
            GenericObject::Character(c) => GenericObject::Character(Character { position, ..c }),
            GenericObject::StaticObject(o) => GenericObject::StaticObject(
                StaticObject { position, ..o },
            ),
        }
    }

    /// The object turned to another yaw; an obstacle stays as it is.
    pub open spec fn turned_to(self, rotation: i64) -> GenericObject {
        match self {
            GenericObject::Character(c) => GenericObject::Character(Character { rotation, ..c }),
            GenericObject::StaticObject(o) => GenericObject::StaticObject(o),
        }
    }

    /// Whether `after` is this object with `input` queued; an obstacle stays as it is.
    pub open spec fn queued(&self, input: Input, after: &GenericObject) -> bool {
        match (self, after) {
            (GenericObject::Character(a), GenericObject::Character(b)) => a.queued(input, b),
            (GenericObject::StaticObject(a), GenericObject::StaticObject(b)) => a == b,
            _ => false,
        }
    }

    /// The object with its firing flag replaced; an obstacle stays as it is.
    pub open spec fn firing_as(self, is_firing: bool) -> GenericObject {
        match self {
            GenericObject::Character(c) => GenericObject::Character(Character { is_firing, ..c }),
            GenericObject::StaticObject(o) => GenericObject::StaticObject(o),
        }
    }

    /// Whether `after` is this object once a step of `delta_time` seconds has
    /// used up its queued inputs and it has then drifted for as long; an
    /// obstacle stays as it is.
    pub open spec fn ticked(&self, delta_time: i64, after: &GenericObject) -> bool {
        match (self, after) {
            (GenericObject::Character(a), GenericObject::Character(b)) => a.ticked(delta_time, b),
            (GenericObject::StaticObject(a), GenericObject::StaticObject(b)) => a == b,
            _ => false,
        }
    }

    /// Where the object stands once a step of `delta_time` seconds has used
    /// up its inputs and it has then drifted for as long.
    pub open spec fn free_position(&self, delta_time: i64) -> Vector3 {
        match self {
            GenericObject::Character(c) => walked(
                c.position,
                c.inputs@,
                step_length(delta_time),
            ).plus(c.velocity.plus(c.acceleration.scaled(delta_time)).scaled(delta_time)),
            GenericObject::StaticObject(o) => o.position,
        }
    }

    /// Where the object stands once a step of `delta_time` seconds has used up its inputs.
    pub open spec fn next_position(&self, delta_time: i64) -> Vector3 {
        walked(self.spec_position(), self.queue(), step_length(delta_time))
    }

    /// Whether `after` is this object once a step of `delta_time` seconds has
    /// used up its queued inputs; an obstacle stays as it is.
    pub open spec fn updated(&self, delta_time: i64, after: &GenericObject) -> bool {
        match (self, after) {
            (GenericObject::Character(a), GenericObject::Character(b)) => a.updated(delta_time, b),
            (GenericObject::StaticObject(a), GenericObject::StaticObject(b)) => a == b,
            _ => false,
        }
    }

    /// The object after `delta_time` seconds of free motion; an obstacle stays as it is.
    pub open spec fn drifted(self, delta_time: i64) -> GenericObject {
        match self {
            GenericObject::Character(c) => GenericObject::Character(c.drifted(delta_time)),
            GenericObject::StaticObject(o) => GenericObject::StaticObject(o),
        }
    }

    /// What a snapshot of the object as a dynamic object holds.
    pub open spec fn snapshot(&self) -> SendDynamicObjectView {
        SendDynamicObjectView {
            position: self.spec_position(),
            size: self.spec_scale(),
            hitbox: self.spec_hitbox_scale(),
            rotation: self.spec_rotation(),
            model: self.spec_model(),
        }
    }

    /// What a snapshot of the object as a static object holds.
    pub open spec fn static_snapshot(&self) -> SendStaticObjectView {
        SendStaticObjectView {
            pos: self.spec_position(),
            size: self.spec_scale(),
            hitbox_scale: self.spec_hitbox_scale(),
            model: self.spec_model(),
        }
    }

    /// The per-tick transform of the object.
    pub open spec fn transform(&self) -> SendPlayerObjectUpdate {
        SendPlayerObjectUpdate {
            x: self.spec_position().x,
            y: self.spec_position().y,
            z: self.spec_position().z,
            rotation: self.spec_rotation(),
            is_firing: self.firing(),
        }
    }

    /// Where the object is.
    #[verifier::when_used_as_spec(spec_position)]
    pub fn position(&self) -> (r: Vector3)
        ensures
            r == self.spec_position(),
    {
        match self {
            GenericObject::Character(c) => c.position,
            GenericObject::StaticObject(o) => o.position,
        }
    }

    /// The size at which the object is drawn.
    #[verifier::when_used_as_spec(spec_scale)]
    pub fn scale(&self) -> (r: Vector3)
        ensures
            r == self.spec_scale(),
    {
        match self {
            GenericObject::Character(c) => c.scale,
            GenericObject::StaticObject(o) => o.scale,
        }
    }

    /// The factor between the drawn size and the hitbox.
    #[verifier::when_used_as_spec(spec_hitbox_scale)]
    pub fn hitbox_scale(&self) -> (r: Vector3)
        ensures
            r == self.spec_hitbox_scale(),
    {
        match self {
            GenericObject::Character(c) => c.hitbox_scale,
            GenericObject::StaticObject(o) => o.hitbox_scale,
        }
    }

    /// The yaw of the object in degrees.
    #[verifier::when_used_as_spec(spec_rotation)]
    pub fn rotation(&self) -> (r: i64)
        ensures
            r == self.spec_rotation(),
    {
        match self {
            GenericObject::Character(c) => c.rotation,
            GenericObject::StaticObject(_) => 0,
        }
    }

    /// A copy of the name of the model that the object is drawn with.
    pub fn model(&self) -> (r: String)
        ensures
            r@ == self.spec_model(),
    {
        match self {
            GenericObject::Character(c) => c.model.clone(),
            GenericObject::StaticObject(o) => o.model.clone(),
        }
    }

    /// Puts the object at `position`.
    pub fn set_position(&mut self, position: Vector3)
        ensures
            *final(self) == old(self).moved_to(position),
    {
        match self {
            GenericObject::Character(c) => { c.position = position; },
            GenericObject::StaticObject(o) => { o.position = position; },
        }
    }

    /// Turns a character to the yaw `rotation`; leaves an obstacle as it is.
    pub fn set_rotation(&mut self, rotation: i64)
        ensures
            *final(self) == old(self).turned_to(rotation),
    {
        match self {
            GenericObject::Character(c) => { c.rotation = rotation; },
            GenericObject::StaticObject(_) => {},
        }
    }

    /// Sets the firing flag of a character; leaves an obstacle as it is.
    pub fn set_firing(&mut self, is_firing: bool)
        ensures
            *final(self) == old(self).firing_as(is_firing),
    {
        match self {
            GenericObject::Character(c) => { c.is_firing = is_firing; },
            GenericObject::StaticObject(_) => {},
        }
    }

    /// Queues `input` on a character; leaves an obstacle as it is.
    pub fn add_input(&mut self, input: Input)
        ensures
            old(self).queued(input, final(self)),
    {
        match self {
            GenericObject::Character(c) => { c.add_input(input); },
            GenericObject::StaticObject(_) => {},
        }
    }

    /// Lets a character use up its queued inputs in a step of `delta_time`
    /// seconds; leaves an obstacle as it is.
    pub fn update(&mut self, delta_time: i64)
        ensures
            old(self).updated(delta_time, final(self)),
    {
        match self {
            GenericObject::Character(c) => { c.update(delta_time); },
            GenericObject::StaticObject(_) => {},
        }
    }

    /// Lets a character drift for `delta_time` seconds; leaves an obstacle as it is.
    pub fn physics_update(&mut self, delta_time: i64)
        ensures
            *final(self) == old(self).drifted(delta_time),
    {
        match self {
            GenericObject::Character(c) => { c.physics_update(delta_time); },
            GenericObject::StaticObject(_) => {},
        }
    }

    /// A snapshot of the object as a static object.
    pub fn send_static_object(&self) -> (r: SendStaticObject)
        ensures
            r@ == self.static_snapshot(),
    {
        SendStaticObject {
            pos: self.position(),
            size: self.scale(),
            hitbox_scale: self.hitbox_scale(),
            model: self.model(),
        }
    }

    /// A snapshot of the object as a dynamic object.
    pub fn send_dyn_obj(&self) -> (r: SendDynamicObject)
        ensures
            r@ == self.snapshot(),
    {
        let position = self.position();
        let size = self.scale();
        let hitbox = self.hitbox_scale();
        SendDynamicObject {
            x: position.x,
            y: position.y,
            z: position.z,
            size_x: size.x,
            size_y: size.y,
            size_z: size.z,
            hitbox_x: hitbox.x,
            hitbox_y: hitbox.y,
            hitbox_z: hitbox.z,
            rotation: self.rotation(),
            model: self.model(),
        }
    }

    /// The position and yaw of the object.
    pub fn send_dyn_obj_update(&self) -> (r: SendDynamicObjectUpdate)
        ensures
            r == (SendDynamicObjectUpdate {
                x: self.spec_position().x,
                y: self.spec_position().y,
                z: self.spec_position().z,
                rotation: self.spec_rotation(),
            }),
    {
        let position = self.position();
        SendDynamicObjectUpdate {
            x: position.x,
            y: position.y,
            z: position.z,
            rotation: self.rotation(),
        }
    }

    /// The per-tick transform of the object.
    pub fn send_player_update(&self) -> (r: SendPlayerObjectUpdate)
        ensures
            r == self.transform(),
    {
        let position = self.position();
        let is_firing = match self {
            GenericObject::Character(c) => c.is_firing,
            GenericObject::StaticObject(_) => false,
        };
        SendPlayerObjectUpdate {
            x: position.x,
            y: position.y,
            z: position.z,
            rotation: self.rotation(),
            is_firing,
        }
    }
}

} // verus!

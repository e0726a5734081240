//! The value objects that travel inside messages: full snapshots of static
//! and dynamic objects, and the per-tick transform of a player.

use vstd::prelude::*;
use crate::objects::StaticObject;
use crate::vector::{
    dec_vector, enc_vector, lemma_dec_enc_vector, lemma_enc_dec_vector, put_vector, take_vector,
    Vector3,
};
use crate::wire::{
    dec_bool, dec_i64, dec_text, enc_bool, enc_i64, enc_text, lemma_dec_enc_bool,
    lemma_dec_enc_i64, lemma_dec_enc_text, lemma_enc_dec_bool, lemma_enc_dec_i64,
    lemma_enc_dec_text, put_bool, put_i64, put_text, take_bool, take_i64, take_text, text_fits,
};

verus! {

/// Snapshot of a static object: where it is, how large it is drawn, by how
/// much its hitbox differs from its drawn size, and the name of its model.
#[derive(Debug, PartialEq, Eq)]
pub struct SendStaticObject {
    pub pos: Vector3,
    pub size: Vector3,
    pub hitbox_scale: Vector3,
    pub model: String,
}

/// What a [`SendStaticObject`] holds, with the model name as a sequence of characters.
pub struct SendStaticObjectView {
    pub pos: Vector3,
    pub size: Vector3,
    pub hitbox_scale: Vector3,
    pub model: Seq<char>,
}

impl View for SendStaticObject {
    type V = SendStaticObjectView;

    open spec fn view(&self) -> SendStaticObjectView {
        SendStaticObjectView {
            pos: self.pos,
            size: self.size,
            hitbox_scale: self.hitbox_scale,
            model: self.model@,
        }
    }
}

impl Clone for SendStaticObject {
    fn clone(&self) -> (r: SendStaticObject)
        ensures
            r@ == self@,
    {
        SendStaticObject {
            pos: self.pos,
            size: self.size,
            hitbox_scale: self.hitbox_scale,
            model: self.model.clone(),
        }
    }
}

impl SendStaticObject {
    /// The static object that this snapshot describes.
    pub fn to_static_object(&self) -> (r: StaticObject)
        ensures
            r.position == self.pos,
            r.scale == self.size,
            r.hitbox_scale == self.hitbox_scale,
            r.model@ == self.model@,
    {
        StaticObject::new(self.pos, self.size, self.model.clone()).hitbox_scale(self.hitbox_scale)
    }
}

/// Per-tick transform of a player: position, yaw in degrees, and whether it is firing.
#[derive(Clone, Copy, Debug, PartialEq, Eq, Structural)]
pub struct SendPlayerObjectUpdate {
    pub x: i64,
    pub y: i64,
    pub z: i64,
    pub rotation: i64,
    pub is_firing: bool,
}

impl SendPlayerObjectUpdate {
    /// The position that the update carries.
    pub fn position(&self) -> (r: Vector3)
        ensures
            r == (Vector3 { x: self.x, y: self.y, z: self.z }),
    {
        Vector3::new(self.x, self.y, self.z)
    }

    /// The yaw that the update carries, in degrees.
    pub fn rotation(&self) -> (r: i64)
        ensures
            r == self.rotation,
    {
        self.rotation
    }

    /// Whether the player was firing when the update was made.
    pub fn is_firing(&self) -> (r: bool)
        ensures
            r == self.is_firing,
    {
        self.is_firing
    }
}

/// Transform of a dynamic object: position and yaw in degrees.
#[derive(Clone, Copy, Debug, PartialEq, Eq, Structural)]
pub struct SendDynamicObjectUpdate {
    pub x: i64,
    pub y: i64,
    pub z: i64,
    pub rotation: i64,
}

impl SendDynamicObjectUpdate {
    /// The position that the update carries.
    pub fn position(&self) -> (r: Vector3)
        ensures
            r == (Vector3 { x: self.x, y: self.y, z: self.z }),
    {
        Vector3::new(self.x, self.y, self.z)
    }

    /// The yaw that the update carries, in degrees.
    pub fn rotation(&self) -> (r: i64)
        ensures
            r == self.rotation,
    {
        self.rotation
    }
}

/// Snapshot of a dynamic object: position, drawn size, hitbox factor, yaw in
/// degrees and the name of its model.
#[derive(Debug, PartialEq, Eq)]
pub struct SendDynamicObject {
    pub x: i64,
    pub y: i64,
    pub z: i64,
    pub size_x: i64,
    pub size_y: i64,
    pub size_z: i64,
    pub hitbox_x: i64,
    pub hitbox_y: i64,
    pub hitbox_z: i64,
    pub rotation: i64,
    pub model: String,
}

/// What a [`SendDynamicObject`] holds, with the model name as a sequence of characters.
pub struct SendDynamicObjectView {
    pub position: Vector3,
    pub size: Vector3,
    pub hitbox: Vector3,
    pub rotation: i64,
    pub model: Seq<char>,
}

impl View for SendDynamicObject {
    type V = SendDynamicObjectView;

    open spec fn view(&self) -> SendDynamicObjectView {
        SendDynamicObjectView {
            position: Vector3 { x: self.x, y: self.y, z: self.z },
            size: Vector3 { x: self.size_x, y: self.size_y, z: self.size_z },
            hitbox: Vector3 { x: self.hitbox_x, y: self.hitbox_y, z: self.hitbox_z },
            rotation: self.rotation,
            model: self.model@,
        }
    }
}

impl Clone for SendDynamicObject {
    fn clone(&self) -> (r: SendDynamicObject)
        ensures
            r@ == self@,
    {
        SendDynamicObject {
            x: self.x,
            y: self.y,
            z: self.z,
            size_x: self.size_x,
            size_y: self.size_y,
            size_z: self.size_z,
            hitbox_x: self.hitbox_x,
            hitbox_y: self.hitbox_y,
            hitbox_z: self.hitbox_z,
            rotation: self.rotation,
            model: self.model.clone(),
        }
    }
}

impl SendDynamicObject {
    /// The position that the snapshot carries.
    pub fn position(&self) -> (r: Vector3)
        ensures
            r == self@.position,
    {
        Vector3::new(self.x, self.y, self.z)
    }

    /// The yaw that the snapshot carries, in degrees.
    pub fn rotation(&self) -> (r: i64)
        ensures
            r == self.rotation,
    {
        self.rotation
    }

    /// The drawn size that the snapshot carries.
    pub fn size(&self) -> (r: Vector3)
        ensures
            r == self@.size,
    {
        Vector3::new(self.size_x, self.size_y, self.size_z)
    }

    /// The hitbox factor that the snapshot carries.
    pub fn hitbox(&self) -> (r: Vector3)
        ensures
            r == self@.hitbox,
    {
        Vector3::new(self.hitbox_x, self.hitbox_y, self.hitbox_z)
    }

    /// A copy of the model name that the snapshot carries.
    pub fn model(&self) -> (r: String)
        ensures
            r@ == self.model@,
    {
        self.model.clone()
    }
}

/// Encoding of a static snapshot: position, size, hitbox factor, model name.
pub open spec fn enc_static(o: SendStaticObjectView) -> Seq<u8> {
    enc_vector(o.pos) + enc_vector(o.size) + enc_vector(o.hitbox_scale) + enc_text(o.model)
}

/// Reads a static snapshot from the front of `s`.
pub open spec fn dec_static(s: Seq<u8>) -> Option<(SendStaticObjectView, Seq<u8>)> {
    match dec_vector(s) {
        Some((pos, s1)) => match dec_vector(s1) {
            Some((size, s2)) => match dec_vector(s2) {
                Some((hitbox_scale, s3)) => match dec_text(s3) {
                    Some((model, s4)) => Some(
                        (SendStaticObjectView { pos, size, hitbox_scale, model }, s4),
                    ),
                    None => None,
                },
                None => None,
            },
            None => None,
        },
        None => None,
    }
}

/// Encoding of a dynamic snapshot: position, size, hitbox factor, yaw, model name.
pub open spec fn enc_dynamic(o: SendDynamicObjectView) -> Seq<u8> {
    enc_vector(o.position) + enc_vector(o.size) + enc_vector(o.hitbox) + enc_i64(o.rotation)
        + enc_text(o.model)
}

/// Reads a dynamic snapshot from the front of `s`.
pub open spec fn dec_dynamic(s: Seq<u8>) -> Option<(SendDynamicObjectView, Seq<u8>)> {
    match dec_vector(s) {
        Some((position, s1)) => match dec_vector(s1) {
            Some((size, s2)) => match dec_vector(s2) {
                Some((hitbox, s3)) => match dec_i64(s3) {
                    Some((rotation, s4)) => match dec_text(s4) {
                        Some((model, s5)) => Some(
                            (SendDynamicObjectView { position, size, hitbox, rotation, model }, s5),
                        ),
                        None => None,
                    },
                    None => None,
                },
                None => None,
            },
            None => None,
        },
        None => None,
    }
}

/// Encoding of a player transform: position, yaw, firing flag.
pub open spec fn enc_player_update(u: SendPlayerObjectUpdate) -> Seq<u8> {
    enc_i64(u.x) + enc_i64(u.y) + enc_i64(u.z) + enc_i64(u.rotation) + enc_bool(u.is_firing)
}

/// Reads a player transform from the front of `s`.
pub open spec fn dec_player_update(s: Seq<u8>) -> Option<(SendPlayerObjectUpdate, Seq<u8>)> {
    match dec_i64(s) {
        Some((x, s1)) => match dec_i64(s1) {
            Some((y, s2)) => match dec_i64(s2) {
                Some((z, s3)) => match dec_i64(s3) {
                    Some((rotation, s4)) => match dec_bool(s4) {
                        Some((is_firing, s5)) => Some(
                            (SendPlayerObjectUpdate { x, y, z, rotation, is_firing }, s5),
                        ),
                        None => None,
                    },
                    None => None,
                },
                None => None,
            },
            None => None,
        },
        None => None,
    }
}

/// A decoder that is given an encoded static snapshot followed by `rest`
/// returns the snapshot and `rest`.
pub broadcast proof fn lemma_dec_enc_static(o: SendStaticObjectView, rest: Seq<u8>)
    requires
        text_fits(o.model),
    ensures
        #[trigger] dec_static(enc_static(o) + rest) == Some((o, rest)),
{
    let t3 = enc_text(o.model) + rest;
    let t2 = enc_vector(o.hitbox_scale) + t3;
    let t1 = enc_vector(o.size) + t2;
    assert(enc_static(o) + rest =~= enc_vector(o.pos) + t1);
    lemma_dec_enc_vector(o.pos, t1);
    lemma_dec_enc_vector(o.size, t2);
    lemma_dec_enc_vector(o.hitbox_scale, t3);
    lemma_dec_enc_text(o.model, rest);
}

/// Whatever `dec_static` reads, the input was its encoding followed by what is left.
pub broadcast proof fn lemma_enc_dec_static(s: Seq<u8>)
    ensures
        #[trigger] dec_static(s) matches Some((o, rest)) ==> text_fits(o.model) && s == enc_static(
            o,
        ) + rest,
{
    if let Some((o, rest)) = dec_static(s) {
        let (_, s1) = dec_vector(s).unwrap();
        let (_, s2) = dec_vector(s1).unwrap();
        let (_, s3) = dec_vector(s2).unwrap();
        lemma_enc_dec_vector(s);
        lemma_enc_dec_vector(s1);
        lemma_enc_dec_vector(s2);
        lemma_enc_dec_text(s3);
        assert(s =~= enc_static(o) + rest);
    }
}

/// A decoder that is given an encoded dynamic snapshot followed by `rest`
/// returns the snapshot and `rest`.
pub broadcast proof fn lemma_dec_enc_dynamic(o: SendDynamicObjectView, rest: Seq<u8>)
    requires
        text_fits(o.model),
    ensures
        #[trigger] dec_dynamic(enc_dynamic(o) + rest) == Some((o, rest)),
{
    let t4 = enc_text(o.model) + rest;
    let t3 = enc_i64(o.rotation) + t4;
    let t2 = enc_vector(o.hitbox) + t3;
    let t1 = enc_vector(o.size) + t2;
    assert(enc_dynamic(o) + rest =~= enc_vector(o.position) + t1);
    lemma_dec_enc_vector(o.position, t1);
    lemma_dec_enc_vector(o.size, t2);
    lemma_dec_enc_vector(o.hitbox, t3);
    lemma_dec_enc_i64(o.rotation, t4);
    lemma_dec_enc_text(o.model, rest);
}

/// Whatever `dec_dynamic` reads, the input was its encoding followed by what is left.
pub broadcast proof fn lemma_enc_dec_dynamic(s: Seq<u8>)
    ensures
        #[trigger] dec_dynamic(s) matches Some((o, rest)) ==> text_fits(o.model) && s
            == enc_dynamic(o) + rest,
{
    if let Some((o, rest)) = dec_dynamic(s) {
        let (_, s1) = dec_vector(s).unwrap();
        let (_, s2) = dec_vector(s1).unwrap();
        let (_, s3) = dec_vector(s2).unwrap();
        let (_, s4) = dec_i64(s3).unwrap();
        lemma_enc_dec_vector(s);
        lemma_enc_dec_vector(s1);
        lemma_enc_dec_vector(s2);
        lemma_enc_dec_i64(s3);
        lemma_enc_dec_text(s4);
        assert(s =~= enc_dynamic(o) + rest);
    }
}

/// A decoder that is given an encoded player transform followed by `rest`
/// returns the transform and `rest`.
pub broadcast proof fn lemma_dec_enc_player_update(u: SendPlayerObjectUpdate, rest: Seq<u8>)
    ensures
        #[trigger] dec_player_update(enc_player_update(u) + rest) == Some((u, rest)),
{
    let t4 = enc_bool(u.is_firing) + rest;
    let t3 = enc_i64(u.rotation) + t4;
    let t2 = enc_i64(u.z) + t3;
    let t1 = enc_i64(u.y) + t2;
    assert(enc_player_update(u) + rest =~= enc_i64(u.x) + t1);
    lemma_dec_enc_i64(u.x, t1);
    lemma_dec_enc_i64(u.y, t2);
    lemma_dec_enc_i64(u.z, t3);
    lemma_dec_enc_i64(u.rotation, t4);
    lemma_dec_enc_bool(u.is_firing, rest);
}

/// Whatever `dec_player_update` reads, the input was its encoding followed by what is left.
pub broadcast proof fn lemma_enc_dec_player_update(s: Seq<u8>)
    ensures
        #[trigger] dec_player_update(s) matches Some((u, rest)) ==> s == enc_player_update(u)
            + rest,
{
    if let Some((u, rest)) = dec_player_update(s) {
        let (_, s1) = dec_i64(s).unwrap();
        let (_, s2) = dec_i64(s1).unwrap();
        let (_, s3) = dec_i64(s2).unwrap();
        let (_, s4) = dec_i64(s3).unwrap();
        lemma_enc_dec_i64(s);
        lemma_enc_dec_i64(s1);
        lemma_enc_dec_i64(s2);
        lemma_enc_dec_i64(s3);
        lemma_enc_dec_bool(s4);
        assert(s =~= enc_player_update(u) + rest);
    }
}

/// Appends the encoding of a static snapshot to `buf`.
pub fn put_static(buf: &mut Vec<u8>, o: &SendStaticObject)
    ensures
        text_fits(o@.model),
        final(buf)@ == old(buf)@ + enc_static(o@),
{
    put_vector(buf, &o.pos);
    put_vector(buf, &o.size);
    put_vector(buf, &o.hitbox_scale);
    put_text(buf, o.model.as_str());
    assert(buf@ =~= old(buf)@ + enc_static(o@));
}

/// Appends the encoding of a dynamic snapshot to `buf`.
pub fn put_dynamic(buf: &mut Vec<u8>, o: &SendDynamicObject)
    ensures
        text_fits(o@.model),
        final(buf)@ == old(buf)@ + enc_dynamic(o@),
{
    put_vector(buf, &o.position());
    put_vector(buf, &o.size());
    put_vector(buf, &o.hitbox());
    put_i64(buf, o.rotation);
    put_text(buf, o.model.as_str());
    assert(buf@ =~= old(buf)@ + enc_dynamic(o@));
}

/// Appends the encoding of a player transform to `buf`.
pub fn put_player_update(buf: &mut Vec<u8>, u: &SendPlayerObjectUpdate)
    ensures
        final(buf)@ == old(buf)@ + enc_player_update(*u),
{
    put_i64(buf, u.x);
    put_i64(buf, u.y);
    put_i64(buf, u.z);
    put_i64(buf, u.rotation);
    put_bool(buf, u.is_firing);
    assert(buf@ =~= old(buf)@ + enc_player_update(*u));
}

/// Reads a static snapshot at offset `pos`. On success the second component
/// is the offset of the first byte after it.
pub fn take_static(bytes: &[u8], pos: usize) -> (r: Option<(SendStaticObject, usize)>)
    requires
        pos <= bytes@.len(),
    ensures
        match r {
            Some((o, next)) => pos <= next <= bytes@.len() && dec_static(bytes@.skip(pos as int))
                == Some((o@, bytes@.skip(next as int))),
            None => dec_static(bytes@.skip(pos as int)) is None,
        },
{
    let (p, p1) = match take_vector(bytes, pos) {
        Some(pair) => pair,
        None => { return None; },
    };
    let (size, p2) = match take_vector(bytes, p1) {
        Some(pair) => pair,
        None => { return None; },
    };
    let (hitbox_scale, p3) = match take_vector(bytes, p2) {
        Some(pair) => pair,
        None => { return None; },
    };
    let (model, p4) = match take_text(bytes, p3) {
        Some(pair) => pair,
        None => { return None; },
    };
    Some((SendStaticObject { pos: p, size, hitbox_scale, model }, p4))
}

/// Reads a dynamic snapshot at offset `pos`. On success the second component
/// is the offset of the first byte after it.
pub fn take_dynamic(bytes: &[u8], pos: usize) -> (r: Option<(SendDynamicObject, usize)>)
    requires
        pos <= bytes@.len(),
    ensures
        match r {
            Some((o, next)) => pos <= next <= bytes@.len() && dec_dynamic(bytes@.skip(pos as int))
                == Some((o@, bytes@.skip(next as int))),
            None => dec_dynamic(bytes@.skip(pos as int)) is None,
        },
{
    let (p, p1) = match take_vector(bytes, pos) {
        Some(pair) => pair,
        None => { return None; },
    };
    let (size, p2) = match take_vector(bytes, p1) {
        Some(pair) => pair,
        None => { return None; },
    };
    let (hitbox, p3) = match take_vector(bytes, p2) {
        Some(pair) => pair,
        None => { return None; },
    };
    let (rotation, p4) = match take_i64(bytes, p3) {
        Some(pair) => pair,
        None => { return None; },
    };
    let (model, p5) = match take_text(bytes, p4) {
        Some(pair) => pair,
        None => { return None; },
    };
    Some(
        (
            SendDynamicObject {
                x: p.x,
                y: p.y,
                z: p.z,
                size_x: size.x,
                size_y: size.y,
                size_z: size.z,
                hitbox_x: hitbox.x,
                hitbox_y: hitbox.y,
                hitbox_z: hitbox.z,
                rotation,
                model,
            },
            p5,
        ),
    )
}

/// Reads a player transform at offset `pos`. On success the second component
/// is the offset of the first byte after it.
pub fn take_player_update(bytes: &[u8], pos: usize) -> (r: Option<(SendPlayerObjectUpdate, usize)>)
    requires
        pos <= bytes@.len(),
    ensures
        match r {
            Some((u, next)) => pos <= next <= bytes@.len() && dec_player_update(
                bytes@.skip(pos as int),
            ) == Some((u, bytes@.skip(next as int))),
            None => dec_player_update(bytes@.skip(pos as int)) is None,
        },
{
    let (x, p1) = match take_i64(bytes, pos) {
        Some(pair) => pair,
        None => { return None; },
    };
    let (y, p2) = match take_i64(bytes, p1) {
        Some(pair) => pair,
        None => { return None; },
    };
    let (z, p3) = match take_i64(bytes, p2) {
        Some(pair) => pair,
        None => { return None; },
    };
    let (rotation, p4) = match take_i64(bytes, p3) {
        Some(pair) => pair,
        None => { return None; },
    };
    let (is_firing, p5) = match take_bool(bytes, p4) {
        Some(pair) => pair,
        None => { return None; },
    };
    Some((SendPlayerObjectUpdate { x, y, z, rotation, is_firing }, p5))
}

} // verus!

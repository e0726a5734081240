//! Three-component vectors of fixed-point numbers.

use vstd::prelude::*;
use crate::fixed::{fx_add, fx_add_spec, fx_mul, fx_mul_spec};
use crate::wire::{
    dec_i64, enc_i64, lemma_dec_enc_i64, lemma_enc_dec_i64, put_i64, take_i64,
};

verus! {

/// A position, a size or a per-axis factor: three fixed-point components.
#[derive(Clone, Copy, Debug, PartialEq, Eq, Structural)]
pub struct Vector3 {
    pub x: i64,
    pub y: i64,
    pub z: i64,
}

impl Vector3 {
    /// The vector with the given components.
    pub fn new(x: i64, y: i64, z: i64) -> (r: Vector3)
        ensures
            r == (Vector3 { x, y, z }),
    {
        Vector3 { x, y, z }
    }

    /// The vector whose three components all equal `v`.
    pub fn new_same(v: i64) -> (r: Vector3)
        ensures
            r == (Vector3 { x: v, y: v, z: v }),
    {
        Vector3 { x: v, y: v, z: v }
    }

    /// Component-wise fixed-point sum.
    pub open spec fn plus(self, other: Vector3) -> Vector3 {
        Vector3 {
            x: fx_add_spec(self.x, other.x),
            y: fx_add_spec(self.y, other.y),
            z: fx_add_spec(self.z, other.z),
        }
    }

    /// Every component multiplied by the fixed-point factor `k`.
    pub open spec fn scaled(self, k: i64) -> Vector3 {
        Vector3 {
            x: fx_mul_spec(self.x, k),
            y: fx_mul_spec(self.y, k),
            z: fx_mul_spec(self.z, k),
        }
    }

    /// Component-wise fixed-point product.
    pub open spec fn times(self, other: Vector3) -> Vector3 {
        Vector3 {
            x: fx_mul_spec(self.x, other.x),
            y: fx_mul_spec(self.y, other.y),
            z: fx_mul_spec(self.z, other.z),
        }
    }

    /// Component-wise fixed-point sum of `self` and `other`.
    pub fn moved_by(&self, other: &Vector3) -> (r: Vector3)
        ensures
            r == self.plus(*other),
    {
        Vector3 {
            x: fx_add(self.x, other.x),
            y: fx_add(self.y, other.y),
            z: fx_add(self.z, other.z),
        }
    }

    /// `self` with every component multiplied by the fixed-point factor `k`.
    pub fn scale(&self, k: i64) -> (r: Vector3)
        ensures
            r == self.scaled(k),
    {
        Vector3 { x: fx_mul(self.x, k), y: fx_mul(self.y, k), z: fx_mul(self.z, k) }
    }

    /// Component-wise fixed-point product of `self` and `other`.
    pub fn multiply(&self, other: &Vector3) -> (r: Vector3)
        ensures
            r == self.times(*other),
    {
        Vector3 {
            x: fx_mul(self.x, other.x),
            y: fx_mul(self.y, other.y),
            z: fx_mul(self.z, other.z),
        }
    }
}

/// Encoding of a vector: its three components in the order x, y, z.
pub open spec fn enc_vector(v: Vector3) -> Seq<u8> {
    enc_i64(v.x) + enc_i64(v.y) + enc_i64(v.z)
}

/// Reads a vector from the front of `s`; `None` if a component is incomplete.
pub open spec fn dec_vector(s: Seq<u8>) -> Option<(Vector3, Seq<u8>)> {
    match dec_i64(s) {
        Some((x, s1)) => match dec_i64(s1) {
            Some((y, s2)) => match dec_i64(s2) {
                Some((z, s3)) => Some((Vector3 { x, y, z }, s3)),
                None => None,
            },
            None => None,
        },
        None => None,
    }
}

/// A decoder that is given an encoded vector followed by `rest` returns the vector and `rest`.
pub broadcast proof fn lemma_dec_enc_vector(v: Vector3, rest: Seq<u8>)
    ensures
        #[trigger] dec_vector(enc_vector(v) + rest) == Some((v, rest)),
{
    let t2 = enc_i64(v.z) + rest;
    let t1 = enc_i64(v.y) + t2;
    assert(enc_vector(v) + rest =~= enc_i64(v.x) + t1);
    lemma_dec_enc_i64(v.x, t1);
    lemma_dec_enc_i64(v.y, t2);
    lemma_dec_enc_i64(v.z, rest);
}

/// Whatever `dec_vector` reads, the input was its encoding followed by what is left.
pub broadcast proof fn lemma_enc_dec_vector(s: Seq<u8>)
    ensures
        #[trigger] dec_vector(s) matches Some((v, rest)) ==> s == enc_vector(v) + rest,
{
    if let Some((v, rest)) = dec_vector(s) {
        let (_, s1) = dec_i64(s).unwrap();
        let (_, s2) = dec_i64(s1).unwrap();
        lemma_enc_dec_i64(s);
        lemma_enc_dec_i64(s1);
        lemma_enc_dec_i64(s2);
        assert(s =~= enc_vector(v) + rest);
    }
}

/// Appends the encoding of a vector to `buf`.
pub fn put_vector(buf: &mut Vec<u8>, v: &Vector3)
    ensures
        final(buf)@ == old(buf)@ + enc_vector(*v),
{
    put_i64(buf, v.x);
    put_i64(buf, v.y);
    put_i64(buf, v.z);
    assert(buf@ =~= old(buf)@ + enc_vector(*v));
}

/// Reads a vector at offset `pos`. On success the second component is the
/// offset of the first byte after it.
pub fn take_vector(bytes: &[u8], pos: usize) -> (r: Option<(Vector3, usize)>)
    requires
        pos <= bytes@.len(),
    ensures
        match r {
            Some((v, next)) => pos <= next <= bytes@.len() && dec_vector(bytes@.skip(pos as int))
                == Some((v, bytes@.skip(next as int))),
            None => dec_vector(bytes@.skip(pos as int)) is None,
        },
{
    let (x, p1) = match take_i64(bytes, pos) {
        Some(pair) => pair,
        None => { return None; },
    };
    let (y, p2) = match take_i64(bytes, p1) {
        Some(pair) => pair,
        None => { return None; },
    };
    let (z, p3) = match take_i64(bytes, p2) {
        Some(pair) => pair,
        None => { return None; },
    };
    Some((Vector3 { x, y, z }, p3))
}

} // verus!

//! The closed set of actions that a player can queue on a character.

use vstd::prelude::*;
use crate::wire::{dec_u32, enc_u32, lemma_dec_enc_u32, lemma_enc_dec_u32, put_u32, take_u32};

verus! {

/// One queued action, named after the key that triggers it.
#[derive(Clone, Copy, Debug, PartialEq, Eq, Structural)]
pub enum Input {
    /// Move forward, away from the camera.
    W,
    /// Move backward, towards the camera.
    S,
    /// Move left.
    A,
    /// Move right.
    D,
    /// Fire.
    Space,
}

impl Input {
    /// Number that stands for the action on the wire.
    pub open spec fn tag(self) -> u32 {
        match self {
            Input::W => 0,
            Input::S => 1,
            Input::A => 2,
            Input::D => 3,
            Input::Space => 4,
        }
    }

    /// The action that `tag` stands for, if any.
    pub open spec fn from_tag(tag: u32) -> Option<Input> {
        if tag == 0 {
            Some(Input::W)
        } else if tag == 1 {
            Some(Input::S)
        } else if tag == 2 {
            Some(Input::A)
        } else if tag == 3 {
            Some(Input::D)
        } else if tag == 4 {
            Some(Input::Space)
        } else {
            None
        }
    }
}

/// Encoding of an action: its tag as a `u32`.
pub open spec fn enc_input(input: Input) -> Seq<u8> {
    enc_u32(input.tag())
}

/// Reads an action from the front of `s`; `None` if the tag is incomplete or unknown.
pub open spec fn dec_input(s: Seq<u8>) -> Option<(Input, Seq<u8>)> {
    match dec_u32(s) {
        Some((tag, rest)) => match Input::from_tag(tag) {
            Some(input) => Some((input, rest)),
            None => None,
        },
        None => None,
    }
}

/// A decoder that is given an encoded action followed by `rest` returns the action and `rest`.
pub broadcast proof fn lemma_dec_enc_input(input: Input, rest: Seq<u8>)
    ensures
        #[trigger] dec_input(enc_input(input) + rest) == Some((input, rest)),
{
    broadcast use lemma_dec_enc_u32;

}

/// Whatever `dec_input` reads, the input bytes were its encoding followed by what is left.
pub broadcast proof fn lemma_enc_dec_input(s: Seq<u8>)
    ensures
        #[trigger] dec_input(s) matches Some((input, rest)) ==> s == enc_input(input) + rest,
{
    broadcast use lemma_enc_dec_u32;

}

/// Appends the encoding of an action to `buf`.
pub fn put_input(buf: &mut Vec<u8>, input: Input)
    ensures
        final(buf)@ == old(buf)@ + enc_input(input),
{
    let tag: u32 = match input {
        Input::W => 0,
        Input::S => 1,
        Input::A => 2,
        Input::D => 3,
        Input::Space => 4,
    };
    put_u32(buf, tag);
}

/// Reads an action at offset `pos`. On success the second component is the
/// offset of the first byte after it.
pub fn take_input(bytes: &[u8], pos: usize) -> (r: Option<(Input, usize)>)
    requires
        pos <= bytes@.len(),
    ensures
        match r {
            Some((v, next)) => pos <= next <= bytes@.len() && dec_input(bytes@.skip(pos as int))
                == Some((v, bytes@.skip(next as int))),
            None => dec_input(bytes@.skip(pos as int)) is None,
        },
{
    let (tag, next) = match take_u32(bytes, pos) {
        Some(pair) => pair,
        None => { return None; },
    };
    if tag == 0 {
        Some((Input::W, next))
    } else if tag == 1 {
        Some((Input::S, next))
    } else if tag == 2 {
        Some((Input::A, next))
    } else if tag == 3 {
        Some((Input::D, next))
    } else if tag == 4 {
        Some((Input::Space, next))
    } else {
        None
    }
}

} // verus!

//! The messages of the protocol and their wire format.
//!
//! A message is written as a four-byte tag that names its kind, followed by
//! its payload. A decoder reads one message from the front of a datagram and
//! ignores what follows it.

use vstd::prelude::*;
use crate::input::{
    dec_input, enc_input, lemma_dec_enc_input, lemma_enc_dec_input, put_input, take_input, Input,
};
use crate::send_structs::{
    dec_dynamic, dec_player_update, dec_static, enc_dynamic, enc_player_update, enc_static,
    lemma_dec_enc_dynamic, lemma_dec_enc_player_update, lemma_dec_enc_static,
    lemma_enc_dec_dynamic, lemma_enc_dec_player_update, lemma_enc_dec_static, put_dynamic,
    put_player_update, put_static, take_dynamic, take_player_update, take_static,
    SendDynamicObject, SendDynamicObjectView, SendPlayerObjectUpdate, SendStaticObject,
    SendStaticObjectView,
};
use crate::wire::{
    dec_i64, dec_text, dec_u32, dec_usize, enc_i64, enc_text, enc_u32, enc_usize,
    lemma_dec_enc_i64, lemma_dec_enc_text, lemma_dec_enc_u32, lemma_dec_enc_usize,
    lemma_enc_dec_i64, lemma_enc_dec_text, lemma_enc_dec_u32, lemma_enc_dec_usize, put_i64,
    put_text, put_u32, put_usize, take_i64, take_text, take_u32, take_usize, text_fits,
};

verus! {

/// A message of the protocol.
#[derive(Debug, PartialEq, Eq)]
pub enum DataType {
    /// Client to server: asks for a connection and names the client's protocol version.
    TryConnect(u32),
    /// Server to client: grants the connection and names the server's protocol version.
    ConfirmConnect(u32),
    /// Either way: a fatal condition, with a description.
    Error(String),
    /// Either way: the sender leaves.
    Exit,
    /// Server to client: the roster slot that the receiver controls.
    PlayerNum(usize),
    /// Server to client: a player has joined.
    AddPlayer(SendDynamicObject),
    /// Server to client: the player in the given roster slot has left.
    RemovePlayer(usize),
    /// Server to client: the transform of the player in the given roster slot.
    Player(SendPlayerObjectUpdate, usize),
    /// Client to server: the yaw in degrees of the player in the given roster slot.
    PlayerRotation(i64, usize),
    /// Server to client: one piece of the world's geometry.
    StaticObject(SendStaticObject),
    /// Client to server: one action to queue.
    Input(Input),
}

/// What a [`DataType`] holds, with every text as a sequence of characters.
pub enum DataTypeView {
    TryConnect(u32),
    ConfirmConnect(u32),
    Error(Seq<char>),
    Exit,
    PlayerNum(usize),
    AddPlayer(SendDynamicObjectView),
    RemovePlayer(usize),
    Player(SendPlayerObjectUpdate, usize),
    PlayerRotation(i64, usize),
    StaticObject(SendStaticObjectView),
    Input(Input),
}

impl View for DataType {
    type V = DataTypeView;

    open spec fn view(&self) -> DataTypeView {
        match self {
            DataType::TryConnect(v) => DataTypeView::TryConnect(*v),
            DataType::ConfirmConnect(v) => DataTypeView::ConfirmConnect(*v),
            DataType::Error(e) => DataTypeView::Error(e@),
            DataType::Exit => DataTypeView::Exit,
            DataType::PlayerNum(i) => DataTypeView::PlayerNum(*i),
            DataType::AddPlayer(p) => DataTypeView::AddPlayer(p@),
            DataType::RemovePlayer(i) => DataTypeView::RemovePlayer(*i),
            DataType::Player(u, i) => DataTypeView::Player(*u, *i),
            DataType::PlayerRotation(r, i) => DataTypeView::PlayerRotation(*r, *i),
            DataType::StaticObject(o) => DataTypeView::StaticObject(o@),
            DataType::Input(input) => DataTypeView::Input(*input),
        }
    }
}

impl Clone for DataType {
    fn clone(&self) -> (r: DataType)
        ensures
            r@ == self@,
    {
        match self {
            DataType::TryConnect(v) => DataType::TryConnect(*v),
            DataType::ConfirmConnect(v) => DataType::ConfirmConnect(*v),
            DataType::Error(e) => DataType::Error(e.clone()),
            DataType::Exit => DataType::Exit,
            DataType::PlayerNum(i) => DataType::PlayerNum(*i),
            DataType::AddPlayer(p) => DataType::AddPlayer(p.clone()),
            DataType::RemovePlayer(i) => DataType::RemovePlayer(*i),
            DataType::Player(u, i) => DataType::Player(*u, *i),
            DataType::PlayerRotation(r, i) => DataType::PlayerRotation(*r, *i),
            DataType::StaticObject(o) => DataType::StaticObject(o.clone()),
            DataType::Input(input) => DataType::Input(*input),
        }
    }
}

/// The tag that names the kind of a message on the wire.
pub open spec fn tag(m: DataTypeView) -> u32 {
    match m {
        DataTypeView::TryConnect(_) => 0,
        DataTypeView::ConfirmConnect(_) => 1,
        DataTypeView::Error(_) => 2,
        DataTypeView::Exit => 3,
        DataTypeView::PlayerNum(_) => 4,
        DataTypeView::AddPlayer(_) => 5,
        DataTypeView::RemovePlayer(_) => 6,
        DataTypeView::Player(_, _) => 7,
        DataTypeView::PlayerRotation(_, _) => 8,
        DataTypeView::StaticObject(_) => 9,
        DataTypeView::Input(_) => 10,
    }
}

/// The bytes that follow the tag of a message.
pub open spec fn payload(m: DataTypeView) -> Seq<u8> {
    match m {
        DataTypeView::TryConnect(v) => enc_u32(v),
        DataTypeView::ConfirmConnect(v) => enc_u32(v),
        DataTypeView::Error(e) => enc_text(e),
        DataTypeView::Exit => Seq::empty(),
        DataTypeView::PlayerNum(i) => enc_usize(i),
        DataTypeView::AddPlayer(p) => enc_dynamic(p),
        DataTypeView::RemovePlayer(i) => enc_usize(i),
        DataTypeView::Player(u, i) => enc_player_update(u) + enc_usize(i),
        DataTypeView::PlayerRotation(r, i) => enc_i64(r) + enc_usize(i),
        DataTypeView::StaticObject(o) => enc_static(o),
        DataTypeView::Input(input) => enc_input(input),
    }
}

/// The wire form of a message: its tag, then its payload.
pub open spec fn encode(m: DataTypeView) -> Seq<u8> {
    enc_u32(tag(m)) + payload(m)
}

/// Whether a message can be written at all: every text in it must be short
/// enough for its length to be sent. Every message that a program holds is.
pub open spec fn encodable(m: DataTypeView) -> bool {
    match m {
        DataTypeView::Error(e) => text_fits(e),
        DataTypeView::AddPlayer(p) => text_fits(p.model),
        DataTypeView::StaticObject(o) => text_fits(o.model),
        _ => true,
    }
}

/// Reads the payload of a message of the kind that `tag` names from the front of `s`.
pub open spec fn dec_payload(tag: u32, s: Seq<u8>) -> Option<(DataTypeView, Seq<u8>)> {
    if tag == 0 {
        match dec_u32(s) {
            Some((v, rest)) => Some((DataTypeView::TryConnect(v), rest)),
            None => None,
        }
    } else if tag == 1 {
        match dec_u32(s) {
            Some((v, rest)) => Some((DataTypeView::ConfirmConnect(v), rest)),
            None => None,
        }
    } else if tag == 2 {
        match dec_text(s) {
            Some((e, rest)) => Some((DataTypeView::Error(e), rest)),
            None => None,
        }
    } else if tag == 3 {
        Some((DataTypeView::Exit, s))
    } else if tag == 4 {
        match dec_usize(s) {
            Some((i, rest)) => Some((DataTypeView::PlayerNum(i), rest)),
            None => None,
        }
    } else if tag == 5 {
        match dec_dynamic(s) {
            Some((p, rest)) => Some((DataTypeView::AddPlayer(p), rest)),
            None => None,
        }
    } else if tag == 6 {
        match dec_usize(s) {
            Some((i, rest)) => Some((DataTypeView::RemovePlayer(i), rest)),
            None => None,
        }
    } else if tag == 7 {
        match dec_player_update(s) {
            Some((u, s1)) => match dec_usize(s1) {
                Some((i, rest)) => Some((DataTypeView::Player(u, i), rest)),
                None => None,
            },
            None => None,
        }
    } else if tag == 8 {
        match dec_i64(s) {
            Some((r, s1)) => match dec_usize(s1) {
                Some((i, rest)) => Some((DataTypeView::PlayerRotation(r, i), rest)),
                None => None,
            },
            None => None,
        }
    } else if tag == 9 {
        match dec_static(s) {
            Some((o, rest)) => Some((DataTypeView::StaticObject(o), rest)),
            None => None,
        }
    } else if tag == 10 {
        match dec_input(s) {
            Some((input, rest)) => Some((DataTypeView::Input(input), rest)),
            None => None,
        }
    } else {
        None
    }
}

/// Reads one message from the front of `s` and returns it with the bytes
/// that follow it; `None` if the tag is incomplete or unknown, or the payload
/// is incomplete or malformed.
pub open spec fn dec_message(s: Seq<u8>) -> Option<(DataTypeView, Seq<u8>)> {
    match dec_u32(s) {
        Some((tag, rest)) => dec_payload(tag, rest),
        None => None,
    }
}

/// The message at the front of a datagram, if there is one.
pub open spec fn decode(s: Seq<u8>) -> Option<DataTypeView> {
    match dec_message(s) {
        Some((m, _)) => Some(m),
        None => None,
    }
}

/// A decoder that is given the wire form of a message followed by `rest`
/// returns the message and `rest`.
pub proof fn lemma_dec_enc_message(m: DataTypeView, rest: Seq<u8>)
    requires
        encodable(m),
    ensures
        dec_message(encode(m) + rest) == Some((m, rest)),
{
    broadcast use
        lemma_dec_enc_u32,
        lemma_dec_enc_usize,
        lemma_dec_enc_i64,
        lemma_dec_enc_text,
        lemma_dec_enc_input,
        lemma_dec_enc_static,
        lemma_dec_enc_dynamic,
        lemma_dec_enc_player_update,
    ;

    assert(encode(m) + rest =~= enc_u32(tag(m)) + (payload(m) + rest));
    match m {
        DataTypeView::Exit => {
            assert(payload(m) + rest =~= rest);
        },
        DataTypeView::Player(u, i) => {
            assert(payload(m) + rest =~= enc_player_update(u) + (enc_usize(i) + rest));
        },
        DataTypeView::PlayerRotation(r, i) => {
            assert(payload(m) + rest =~= enc_i64(r) + (enc_usize(i) + rest));
        },
        _ => {},
    }
}

/// Whatever a decoder reads, the input was the wire form of that message
/// followed by what is left.
pub proof fn lemma_enc_dec_message(s: Seq<u8>)
    ensures
        dec_message(s) matches Some((m, rest)) ==> encodable(m) && s == encode(m) + rest,
{
    broadcast use
        lemma_enc_dec_u32,
        lemma_enc_dec_usize,
        lemma_enc_dec_i64,
        lemma_enc_dec_text,
        lemma_enc_dec_input,
        lemma_enc_dec_static,
        lemma_enc_dec_dynamic,
        lemma_enc_dec_player_update,
    ;

    if let Some((m, rest)) = dec_message(s) {
        let (_, body) = dec_u32(s).unwrap();
        assert(s == enc_u32(tag(m)) + body);
        assert(body =~= payload(m) + rest);
        assert(s =~= encode(m) + rest);
    }
}

/// Decoding undoes encoding: the wire form of any message decodes to that message.
pub proof fn lemma_round_trip(m: DataTypeView)
    requires
        encodable(m),
    ensures
        decode(encode(m)) == Some(m),
{
    lemma_dec_enc_message(m, Seq::empty());
    assert(encode(m) + Seq::<u8>::empty() =~= encode(m));
}

/// The encoding is unambiguous: a datagram that begins with the wire form of
/// a message decodes to that message and to no other.
pub proof fn lemma_decode_unique(m: DataTypeView, s: Seq<u8>)
    requires
        encodable(m),
        encode(m).is_prefix_of(s),
    ensures
        decode(s) == Some(m),
{
    let rest = s.skip(encode(m).len() as int);
    assert(s =~= encode(m) + rest);
    lemma_dec_enc_message(m, rest);
}

impl DataType {
    /// The wire form of the message.
    pub fn serialise(&self) -> (r: Vec<u8>)
        ensures
            encodable(self@),
            r@ == encode(self@),
    {
        let mut buf: Vec<u8> = Vec::new();
        match self {
            DataType::TryConnect(v) => {
                put_u32(&mut buf, 0);
                put_u32(&mut buf, *v);
            },
            DataType::ConfirmConnect(v) => {
                put_u32(&mut buf, 1);
                put_u32(&mut buf, *v);
            },
            DataType::Error(e) => {
                put_u32(&mut buf, 2);
                put_text(&mut buf, e.as_str());
            },
            DataType::Exit => {
                put_u32(&mut buf, 3);
            },
            DataType::PlayerNum(i) => {
                put_u32(&mut buf, 4);
                put_usize(&mut buf, *i);
            },
            DataType::AddPlayer(p) => {
                put_u32(&mut buf, 5);
                put_dynamic(&mut buf, p);
            },
            DataType::RemovePlayer(i) => {
                put_u32(&mut buf, 6);
                put_usize(&mut buf, *i);
            },
            DataType::Player(u, i) => {
                put_u32(&mut buf, 7);
                put_player_update(&mut buf, u);
                put_usize(&mut buf, *i);
            },
            DataType::PlayerRotation(r, i) => {
                put_u32(&mut buf, 8);
                put_i64(&mut buf, *r);
                put_usize(&mut buf, *i);
            },
            DataType::StaticObject(o) => {
                put_u32(&mut buf, 9);
                put_static(&mut buf, o);
            },
            DataType::Input(input) => {
                put_u32(&mut buf, 10);
                put_input(&mut buf, *input);
            },
        }
        assert(buf@ =~= encode(self@));
        buf
    }

    /// The message at the front of a datagram. Bytes that follow the message
    /// are ignored; a datagram that is cut short, names an unknown kind of
    /// message or holds a malformed payload gives `None`.
    pub fn deserialise(serialised: &[u8]) -> (r: Option<DataType>)
        ensures
            match r {
                Some(m) => decode(serialised@) == Some(m@) && encodable(m@) && encode(
                    m@,
                ).is_prefix_of(serialised@),
                None => decode(serialised@) is None && forall|m: DataTypeView|
                    encodable(m) ==> !(#[trigger] encode(m)).is_prefix_of(serialised@),
            },
    {
        proof {
            assert(serialised@.skip(0) =~= serialised@);
            lemma_enc_dec_message(serialised@);
            assert forall|m: DataTypeView|
                encodable(m) && (#[trigger] encode(m)).is_prefix_of(serialised@) implies decode(
                serialised@,
            ) == Some(m) by {
                lemma_decode_unique(m, serialised@);
            }
        }
        let (tag, p) = match take_u32(serialised, 0) {
            Some(pair) => pair,
            None => { return None; },
        };
        if tag == 0 {
            match take_u32(serialised, p) {
                Some((v, _)) => Some(DataType::TryConnect(v)),
                None => None,
            }
        } else if tag == 1 {
            match take_u32(serialised, p) {
                Some((v, _)) => Some(DataType::ConfirmConnect(v)),
                None => None,
            }
        } else if tag == 2 {
            match take_text(serialised, p) {
                Some((e, _)) => Some(DataType::Error(e)),
                None => None,
            }
        } else if tag == 3 {
            Some(DataType::Exit)
        } else if tag == 4 {
            match take_usize(serialised, p) {
                Some((i, _)) => Some(DataType::PlayerNum(i)),
                None => None,
            }
        } else if tag == 5 {
            match take_dynamic(serialised, p) {
                Some((o, _)) => Some(DataType::AddPlayer(o)),
                None => None,
            }
        } else if tag == 6 {
            match take_usize(serialised, p) {
                Some((i, _)) => Some(DataType::RemovePlayer(i)),
                None => None,
            }
        } else if tag == 7 {
            match take_player_update(serialised, p) {
                Some((u, p1)) => match take_usize(serialised, p1) {
                    Some((i, _)) => Some(DataType::Player(u, i)),
                    None => None,
                },
                None => None,
            }
        } else if tag == 8 {
            match take_i64(serialised, p) {
                Some((r, p1)) => match take_usize(serialised, p1) {
                    Some((i, _)) => Some(DataType::PlayerRotation(r, i)),
                    None => None,
                },
                None => None,
            }
        } else if tag == 9 {
            match take_static(serialised, p) {
                Some((o, _)) => Some(DataType::StaticObject(o)),
                None => None,
            }
        } else if tag == 10 {
            match take_input(serialised, p) {
                Some((input, _)) => Some(DataType::Input(input)),
                None => None,
            }
        } else {
            None
        }
    }
}

} // verus!

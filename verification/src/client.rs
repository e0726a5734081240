//! The client's end of a connection: a two-state machine that decides what
//! is sent and how a received datagram changes the connection.
//!
//! The endpoint owns no socket. Each operation returns the datagram that the
//! caller has to send, if any, and is told what the socket delivered.

use vstd::prelude::*;
use crate::data_type::{decode, encodable, encode, DataType, DataTypeView};
use crate::transport::Incoming;
use crate::VERSION;

verus! {

/// What an endpoint makes of one read on its socket.
#[derive(Debug, PartialEq, Eq)]
pub enum Received {
    /// Nothing arrived, or what arrived is no message.
    Nothing,
    /// A message arrived.
    Message(DataType),
    /// The peer reported a fatal condition: the connection attempt must be abandoned.
    Fatal(String),
}

/// The probe that `send` emits on an established connection.
pub open spec fn probe() -> Seq<u8> {
    seq![10u8, 9u8, 8u8, 7u8, 6u8, 5u8, 4u8, 3u8, 2u8, 1u8]
}

/// The message that an endpoint delivers for what a read returned, if any.
pub open spec fn delivered(incoming: Incoming) -> Option<DataTypeView> {
    match incoming {
        Incoming::Datagram(_, data) => decode(data@),
        _ => None,
    }
}

/// Whether an endpoint is disconnected after a read, given whether it was before:
/// only a confirmation from the server connects it.
pub open spec fn disconnected_after(before: bool, incoming: Incoming) -> bool {
    before && !(delivered(incoming) is Some && delivered(incoming)->0 is ConfirmConnect)
}

/// What `disconnect` does to an endpoint that was or was not disconnected:
/// whether it is disconnected afterwards, and the datagram to send. A
/// connected endpoint says farewell; a disconnected one sends nothing. Either
/// way the endpoint ends up disconnected.
pub open spec fn disconnect_step(was_disconnected: bool) -> (bool, Option<Seq<u8>>) {
    if was_disconnected {
        (true, None)
    } else {
        (true, Some(encode(DataTypeView::Exit)))
    }
}

/// Disconnecting is idempotent: a second `disconnect` right after a first
/// changes nothing and sends nothing, whatever state the endpoint was in before.
pub proof fn lemma_disconnect_idempotent(was_disconnected: bool)
    ensures
        disconnect_step(disconnect_step(was_disconnected).0) == (
            disconnect_step(was_disconnected).0,
            None::<Seq<u8>>,
        ),
{
}

/// The client's end of a connection to the server at `server`.
pub struct TwinstickClient {
    server: String,
    disconnected: bool,
}

impl TwinstickClient {
    /// The address of the server, as text.
    pub closed spec fn server_name(&self) -> Seq<char> {
        self.server@
    }

    /// Whether the endpoint is disconnected.
    pub closed spec fn is_disconnected(&self) -> bool {
        self.disconnected
    }

    /// A disconnected endpoint for the server at `ip`.
    pub fn new(ip: &str) -> (r: TwinstickClient)
        ensures
            r.server_name() == ip@,
            r.is_disconnected(),
    {
        TwinstickClient { server: ip.to_owned(), disconnected: true }
    }

    /// The address of the server, as text.
    pub fn server(&self) -> (r: &String)
        ensures
            r@ == self.server_name(),
    {
        &self.server
    }

    /// Whether the endpoint is disconnected.
    pub fn disconnected(&self) -> (r: bool)
        ensures
            r == self.is_disconnected(),
    {
        self.disconnected
    }

    /// Starts a connection attempt. A connected endpoint makes none and gets
    /// `None`. A disconnected one gets the handshake: the caller associates
    /// its socket with the server and, if that succeeds, sends it. The
    /// endpoint stays disconnected until the server confirms.
    pub fn connect(&self) -> (r: Option<Vec<u8>>)
        ensures
            r is Some <==> self.is_disconnected(),
            r matches Some(handshake) ==> handshake@ == encode(DataTypeView::TryConnect(VERSION)),
    {
        if !self.disconnected {
            return None;
        }
        Some(DataType::TryConnect(VERSION).serialise())
    }

    /// The datagram that carries `data_type`. It is sent whatever the state of the endpoint.
    pub fn send_datatype(&self, data_type: &DataType) -> (r: Vec<u8>)
        ensures
            encodable(data_type@),
            r@ == encode(data_type@),
    {
        data_type.serialise()
    }

    /// The probe to send on an established connection; `None` while disconnected.
    /// The caller reports to `sent` whether the socket took it.
    pub fn send(&self) -> (r: Option<Vec<u8>>)
        ensures
            r is Some <==> !self.is_disconnected(),
            r matches Some(data) ==> data@ == probe(),
    {
        if self.disconnected {
            return None;
        }
        let data: Vec<u8> = vec![10u8, 9u8, 8u8, 7u8, 6u8, 5u8, 4u8, 3u8, 2u8, 1u8];
        assert(data@ =~= probe());
        Some(data)
    }

    /// Takes note of how sending the probe went: a failure disconnects the endpoint.
    pub fn sent(&mut self, ok: bool)
        ensures
            final(self).server_name() == old(self).server_name(),
            final(self).is_disconnected() == (old(self).is_disconnected() || !ok),
    {
        if !ok {
            self.disconnected = true;
        }
    }

    /// Handles the outcome of one read. A datagram that holds a message
    /// delivers it; a confirmation from the server also connects the
    /// endpoint; an error message is fatal. Nothing waiting, a failed read
    /// and a datagram that holds no message all deliver nothing.
    pub fn recieve(&mut self, incoming: &Incoming) -> (r: Received)
        ensures
            final(self).server_name() == old(self).server_name(),
            final(self).is_disconnected() == disconnected_after(
                old(self).is_disconnected(),
                *incoming,
            ),
            match delivered(*incoming) {
                None => r is Nothing,
                Some(DataTypeView::Error(e)) => r matches Received::Fatal(text) && text@ == e,
                Some(m) => r matches Received::Message(message) && message@ == m,
            },
    {
        let data = match incoming {
            Incoming::Datagram(_, data) => data,
            _ => { return Received::Nothing; },
        };
        match DataType::deserialise(data.as_slice()) {
            Some(DataType::ConfirmConnect(v)) => {
                self.disconnected = false;
                Received::Message(DataType::ConfirmConnect(v))
            },
            Some(DataType::Error(e)) => Received::Fatal(e),
            Some(m) => Received::Message(m),
            None => Received::Nothing,
        }
    }

    /// Ends the connection: a connected endpoint gets the farewell to send
    /// and becomes disconnected; a disconnected one gets `None` and stays as it is.
    pub fn disconnect(&mut self) -> (r: Option<Vec<u8>>)
        ensures
            final(self).server_name() == old(self).server_name(),
            final(self).is_disconnected() == disconnect_step(old(self).is_disconnected()).0,
            match r {
                Some(data) => Some(data@) == disconnect_step(old(self).is_disconnected()).1,
                None => disconnect_step(old(self).is_disconnected()).1 is None,
            },
    {
        if self.disconnected {
            return None;
        }
        self.disconnected = true;
        Some(DataType::Exit.serialise())
    }
}

} // verus!

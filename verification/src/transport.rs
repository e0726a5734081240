//! What the library and the socket that carries its datagrams hand to each
//! other: addresses, datagrams to send, and the outcome of a read.

use vstd::prelude::*;

verus! {

/// The network address of a peer: its IP address as a number (an IPv4
/// address in its IPv6-mapped form) and its port.
#[derive(Clone, Copy, Debug, PartialEq, Eq, Hash, Structural)]
pub struct Address {
    pub ip: u128,
    pub port: u16,
}

/// A datagram to send, and the peer to send it to.
#[derive(Debug, PartialEq, Eq)]
pub struct Packet {
    pub addr: Address,
    pub data: Vec<u8>,
}

/// What a [`Packet`] holds, with the datagram as a sequence of bytes.
pub struct PacketView {
    pub addr: Address,
    pub data: Seq<u8>,
}

impl View for Packet {
    type V = PacketView;

    open spec fn view(&self) -> PacketView {
        PacketView { addr: self.addr, data: self.data@ }
    }
}

/// What a list of packets holds, in the order of the list.
pub open spec fn packet_views(packets: Seq<Packet>) -> Seq<PacketView> {
    Seq::new(packets.len(), |i: int| packets[i]@)
}

/// The same datagram for each of `clients`, in their order.
pub open spec fn to_all(clients: Seq<Address>, data: Seq<u8>) -> Seq<PacketView> {
    Seq::new(clients.len(), |i: int| PacketView { addr: clients[i], data })
}

/// The outcome of one non-blocking read on a socket.
#[derive(Debug, PartialEq, Eq)]
pub enum Incoming {
    /// A datagram arrived from the given peer.
    Datagram(Address, Vec<u8>),
    /// No datagram is waiting.
    WouldBlock,
    /// The read failed for another reason.
    Failed,
}

/// A copy of a datagram.
pub fn copy_bytes(bytes: &[u8]) -> (r: Vec<u8>)
    ensures
        r@ == bytes@,
{
    let mut copy: Vec<u8> = Vec::new();
    let mut i: usize = 0;
    while i < bytes.len()
        invariant
            i <= bytes@.len(),
            copy@ == bytes@.take(i as int),
        decreases bytes@.len() - i,
    {
        copy.push(bytes[i]);
        assert(bytes@.take(i + 1) =~= bytes@.take(i as int).push(bytes@[i as int]));
        i += 1;
    }
    assert(bytes@.take(i as int) =~= bytes@);
    copy
}

/// Appends to `out` a packet with a copy of `data` for each of `clients`, in their order.
pub fn push_to_all(out: &mut Vec<Packet>, clients: &Vec<Address>, data: &[u8])
    ensures
        packet_views(final(out)@) == packet_views(old(out)@) + to_all(clients@, data@),
{
    let mut i: usize = 0;
    assert(packet_views(out@) =~= packet_views(old(out)@) + to_all(clients@.take(0), data@));
    while i < clients.len()
        invariant
            i <= clients@.len(),
            packet_views(out@) == packet_views(old(out)@) + to_all(
                clients@.take(i as int),
                data@,
            ),
        decreases clients@.len() - i,
    {
        let ghost before = out@;
        out.push(Packet { addr: clients[i], data: copy_bytes(data) });
        assert(packet_views(out@) =~= packet_views(old(out)@) + to_all(
            clients@.take(i + 1),
            data@,
        )) by {
            assert(packet_views(out@) =~= packet_views(before).push(
                PacketView { addr: clients@[i as int], data: data@ },
            ));
            assert(to_all(clients@.take(i + 1), data@) =~= to_all(clients@.take(i as int), data@).push(
                PacketView { addr: clients@[i as int], data: data@ },
            ));
        }
        i += 1;
    }
    assert(clients@.take(i as int) =~= clients@);
}

} // verus!

//! The forwarding decisions of the userland learning bridge that joins the
//! guests' shared LAN. Peers are the guests' local UDP ports on the loopback
//! interface; each datagram carries one raw Ethernet frame.
use vstd::prelude::*;
use std::collections::HashMap;

verus! {

broadcast use vstd::std_specs::hash::group_hash_axioms;

/// The 48-bit MAC address at `off` in `frame`, as a number.
pub open spec fn mac_at(frame: Seq<u8>, off: int) -> u64 {
    (frame[off] as int * 0x10000000000 + frame[off + 1] as int * 0x100000000 + frame[off + 2] as int
        * 0x1000000 + frame[off + 3] as int * 0x10000 + frame[off + 4] as int * 0x100 + frame[off
        + 5] as int) as u64
}

pub open spec fn is_broadcast(frame: Seq<u8>) -> bool {
    forall|i: int| 0 <= i < 6 ==> frame[i] == 0xff
}

pub open spec fn is_multicast(frame: Seq<u8>) -> bool {
    frame[0] % 2 == 1
}

/// `peers` without `from`, in order.
pub open spec fn peers_except(peers: Seq<u16>, from: u16) -> Seq<u16>
    decreases peers.len(),
{
    if peers.len() == 0 {
        Seq::empty()
    } else {
        let rest = peers_except(peers.drop_last(), from);
        if peers.last() != from {
            rest.push(peers.last())
        } else {
            rest
        }
    }
}

/// What the bridge does with `frame` arriving from `from`: the learning table
/// afterwards, and the peers the frame is sent to, in order.
///
/// Frames shorter than an Ethernet header are dropped. Otherwise the source
/// address is learned; broadcast and multicast frames go to every peer but the
/// sender; a unicast frame goes to the learned port of its destination unless
/// that is the sender, and to every peer but the sender when the destination
/// is unknown.
pub open spec fn forward_spec(table: Map<u64, u16>, peers: Seq<u16>, frame: Seq<u8>, from: u16) -> (
    Map<u64, u16>,
    Seq<u16>,
) {
    if frame.len() < 14 {
        (table, Seq::empty())
    } else {
        let learned = table.insert(mac_at(frame, 6), from);
        let dst = mac_at(frame, 0);
        if is_broadcast(frame) || is_multicast(frame) {
            (learned, peers_except(peers, from))
        } else if learned.contains_key(dst) {
            (
                learned,
                if learned[dst] != from {
                    seq![learned[dst]]
                } else {
                    Seq::empty()
                },
            )
        } else {
            (learned, peers_except(peers, from))
        }
    }
}

/// The state of the bridge: its fixed peer set and what it has learned.
#[derive(Debug)]
pub struct L2Switch {
    pub peers: Vec<u16>,
    pub table: HashMap<u64, u16>,
}

fn mac_value(frame: &[u8], off: usize) -> (r: u64)
    requires
        off + 6 <= frame@.len(),
    ensures
        r == mac_at(frame@, off as int),
{
    (frame[off] as u64) * 0x10000000000 + (frame[off + 1] as u64) * 0x100000000 + (frame[off
        + 2] as u64) * 0x1000000 + (frame[off + 3] as u64) * 0x10000 + (frame[off + 4] as u64)
        * 0x100 + (frame[off + 5] as u64)
}

fn all_peers_except(peers: &Vec<u16>, from: u16) -> (r: Vec<u16>)
    ensures
        r@ == peers_except(peers@, from),
{
    let mut out: Vec<u16> = Vec::new();
    let mut i: usize = 0;
    while i < peers.len()
        invariant
            i <= peers@.len(),
            out@ == peers_except(peers@.subrange(0, i as int), from),
        decreases peers@.len() - i,
    {
        proof {
            let pre = peers@.subrange(0, i as int + 1);
            assert(pre.drop_last() =~= peers@.subrange(0, i as int));
            assert(pre.last() == peers@[i as int]);
        }
        if peers[i] != from {
            out.push(peers[i]);
        }
        i += 1;
    }
    assert(peers@.subrange(0, peers@.len() as int) =~= peers@);
    out
}

impl L2Switch {
    /// A bridge over `peers` that has learned nothing yet.
    pub fn new(peers: Vec<u16>) -> (r: Self)
        ensures
            r.peers@ == peers@,
            r.table@ == Map::<u64, u16>::empty(),
    {
        L2Switch { peers, table: HashMap::new() }
    }

    /// Handle one frame from the peer `from`: learn its source and return
    /// the peers it must be sent to.
    pub fn forward(&mut self, frame: &[u8], from: u16) -> (r: Vec<u16>)
        ensures
            final(self).peers@ == old(self).peers@,
            (final(self).table@, r@) == forward_spec(
                old(self).table@,
                old(self).peers@,
                frame@,
                from,
            ),
    {
        if frame.len() < 14 {
            return Vec::new();
        }
        let dst = mac_value(frame, 0);
        let src = mac_value(frame, 6);
        self.table.insert(src, from);
        let broadcast = frame[0] == 0xff && frame[1] == 0xff && frame[2] == 0xff && frame[3]
            == 0xff && frame[4] == 0xff && frame[5] == 0xff;
        proof {
            if is_broadcast(frame@) {
                assert(frame@[0] == 0xff && frame@[1] == 0xff && frame@[2] == 0xff);
                assert(frame@[3] == 0xff && frame@[4] == 0xff && frame@[5] == 0xff);
            }
            if broadcast {
                assert forall|i: int| 0 <= i < 6 implies frame@[i] == 0xff by {
                    assert(i == 0 || i == 1 || i == 2 || i == 3 || i == 4 || i == 5);
                }
            }
        }
        if broadcast || frame[0] % 2 == 1 {
            return all_peers_except(&self.peers, from);
        }
        match self.table.get(&dst) {
            Some(target) => {
                if *target != from {
                    vec![*target]
                } else {
                    Vec::new()
                }
            },
            None => all_peers_except(&self.peers, from),
        }
    }
}

} // verus!

verus! {

proof fn lemma_peers_except_members(peers: Seq<u16>, from: u16, p: u16)
    ensures
        peers_except(peers, from).contains(p) <==> (peers.contains(p) && p != from),
    decreases peers.len(),
{
    if peers.len() > 0 {
        let rest = peers.drop_last();
        lemma_peers_except_members(rest, from, p);
        assert(peers =~= rest.push(peers.last()));
        if peers.contains(p) {
            let i = choose|i: int| 0 <= i < peers.len() && peers[i] == p;
            if i < peers.len() - 1 {
                assert(rest[i] == p);
            }
        }
        if rest.contains(p) {
            let i = choose|i: int| 0 <= i < rest.len() && rest[i] == p;
            assert(peers[i] == p);
        }
        if peers.last() != from {
            let s = peers_except(rest, from).push(peers.last());
            assert(s[s.len() - 1] == peers.last());
            assert(peers[peers.len() - 1] == peers.last());
            if peers_except(rest, from).contains(p) {
                let i = choose|i: int|
                    0 <= i < peers_except(rest, from).len() && peers_except(rest, from)[i] == p;
                assert(s[i] == p);
            }
            if s.contains(p) {
                let i = choose|i: int| 0 <= i < s.len() && s[i] == p;
                if i < s.len() - 1 {
                    assert(peers_except(rest, from)[i] == p);
                }
            }
        }
    }
}

/// A broadcast frame from `from` reaches exactly the peers other than `from`.
pub proof fn broadcast_reaches_every_other_peer(
    table: Map<u64, u16>,
    peers: Seq<u16>,
    frame: Seq<u8>,
    from: u16,
    p: u16,
)
    requires
        frame.len() >= 14,
        is_broadcast(frame),
    ensures
        forward_spec(table, peers, frame, from).1.contains(p) <==> (peers.contains(p) && p != from),
{
    lemma_peers_except_members(peers, from, p);
}

/// Once a frame with source address `A` arrived from peer `P_A`, a unicast
/// frame addressed to `A` from any other peer and with another source is sent
/// to `P_A` alone.
pub proof fn learned_address_gets_unicast(
    table: Map<u64, u16>,
    peers: Seq<u16>,
    first: Seq<u8>,
    p_a: u16,
    second: Seq<u8>,
    p_b: u16,
)
    requires
        first.len() >= 14,
        second.len() >= 14,
        mac_at(second, 0) == mac_at(first, 6),
        mac_at(second, 6) != mac_at(first, 6),
        !is_multicast(second),
        p_b != p_a,
    ensures
        forward_spec(forward_spec(table, peers, first, p_a).0, peers, second, p_b).1 == seq![p_a],
{
    assert(!is_broadcast(second)) by {
        if is_broadcast(second) {
            assert(second[0] == 0xff);
        }
    }
    let learned = forward_spec(table, peers, first, p_a).0;
    assert(learned.contains_key(mac_at(first, 6)) && learned[mac_at(first, 6)] == p_a);
    let again = learned.insert(mac_at(second, 6), p_b);
    assert(again.contains_key(mac_at(second, 0)) && again[mac_at(second, 0)] == p_a);
}

} // verus!

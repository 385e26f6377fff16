//! Addresses and the single-use address sequence that a lookup yields.

use vstd::prelude::*;

verus! {

/// An IP address as its bits: 32 for version 4, 128 for version 6.
#[derive(Clone, Copy, Debug, PartialEq, Eq, Structural)]
pub enum IpAddress {
    V4(u32),
    V6(u128),
}

/// An address to dial: an IP address and a port.
#[derive(Clone, Copy, Debug, PartialEq, Eq, Structural)]
pub struct SocketAddress {
    pub ip: IpAddress,
    pub port: u16,
}

/// The socket address that stands for a bare lookup result: the port is
/// zero, to be filled in by whoever dials.
pub open spec fn unported(ip: IpAddress) -> SocketAddress {
    SocketAddress { ip, port: 0 }
}

/// The addresses that a sequence of lookup results stands for, in order.
pub open spec fn unported_all(ips: Seq<IpAddress>) -> Seq<SocketAddress> {
    Seq::new(ips.len(), |i: int| unported(ips[i]))
}

/// Iterator over DNS lookup results.
///
/// The sequence is finite and single-use: an address that `next` has handed
/// out is gone. Its view is what is still to come.
pub struct SocketAddrs {
    ips: Vec<IpAddress>,
    taken: usize,
}

impl View for SocketAddrs {
    type V = Seq<SocketAddress>;

    closed spec fn view(&self) -> Seq<SocketAddress> {
        if self.taken <= self.ips@.len() {
            unported_all(self.ips@.skip(self.taken as int))
        } else {
            Seq::empty()
        }
    }
}

impl SocketAddrs {
    /// Wraps the records of one lookup, keeping their order.
    pub fn new(ips: Vec<IpAddress>) -> (addrs: Self)
        ensures
            addrs@ == unported_all(ips@),
    {
        let addrs = SocketAddrs { ips, taken: 0 };
        proof {
            assert(addrs.ips@.skip(0) =~= addrs.ips@);
        }
        addrs
    }

    /// How many addresses are still to come.
    pub fn remaining(&self) -> (n: usize)
        ensures
            n == self@.len(),
    {
        if self.taken <= self.ips.len() {
            self.ips.len() - self.taken
        } else {
            0
        }
    }

    /// Hands out the next address, if any is left.
    pub fn next(&mut self) -> (item: Option<SocketAddress>)
        ensures
            old(self)@.len() == 0 ==> item.is_none() && final(self)@ == old(self)@,
            old(self)@.len() > 0 ==> item == Some(old(self)@[0]) && final(self)@ == old(
                self,
            )@.skip(1),
    {
        if self.taken < self.ips.len() {
            let ip = self.ips[self.taken];
            proof {
                let before = self.ips@.skip(self.taken as int);
                let after = self.ips@.skip(self.taken as int + 1);
                assert(after =~= before.skip(1));
                assert(unported_all(after) =~= unported_all(before).skip(1));
            }
            self.taken = self.taken + 1;
            Some(SocketAddress { ip, port: 0 })
        } else {
            None
        }
    }
}

/// Every address of a lookup carries port zero, and the addresses stand in
/// the order in which the resolver gave them.
pub proof fn lemma_lookup_addresses_unported(ips: Seq<IpAddress>)
    ensures
        unported_all(ips).len() == ips.len(),
        forall|i: int|
            0 <= i < ips.len() ==> (#[trigger] unported_all(ips)[i]).port == 0 && unported_all(
                ips,
            )[i].ip == ips[i],
{
}

} // verus!

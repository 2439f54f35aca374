//! Network interfaces, modelled as plain values: the interface name, its
//! raw address bytes, and the kernel's interface-flag word, whose
//! documented bits the accessors read.

use vstd::prelude::*;

verus! {

/// Interface-flag bit: the interface is up.
pub const IFF_UP: u32 = 0x1;

/// Interface-flag bit: broadcast capable.
pub const IFF_BROADCAST: u32 = 0x2;

/// Interface-flag bit: a loopback interface.
pub const IFF_LOOPBACK: u32 = 0x8;

/// Interface-flag bit: a point-to-point link.
pub const IFF_POINTOPOINT: u32 = 0x10;

/// Interface-flag bit: multicast capable.
pub const IFF_MULTICAST: u32 = 0x1000;

/// One network interface, as plain values: its name, the raw bytes of
/// its addresses where present, and its flag word.
#[derive(Clone, Debug, PartialEq, Eq)]
pub struct Nic {
    pub name: String,
    pub address: Option<Vec<u8>>,
    pub netmask: Option<Vec<u8>>,
    pub broadcast: Option<Vec<u8>>,
    pub destination: Option<Vec<u8>>,
    pub flags: u32,
}

impl Nic {
    pub fn name(&self) -> (r: &String)
        ensures
            r == &self.name,
    {
        &self.name
    }

    pub fn address(&self) -> (r: &Option<Vec<u8>>)
        ensures
            r == &self.address,
    {
        &self.address
    }

    pub fn netmask(&self) -> (r: &Option<Vec<u8>>)
        ensures
            r == &self.netmask,
    {
        &self.netmask
    }

    pub fn broadcast(&self) -> (r: &Option<Vec<u8>>)
        ensures
            r == &self.broadcast,
    {
        &self.broadcast
    }

    pub fn destination(&self) -> (r: &Option<Vec<u8>>)
        ensures
            r == &self.destination,
    {
        &self.destination
    }

    pub fn is_up(&self) -> (r: bool)
        ensures
            r == (self.flags & IFF_UP != 0),
    {
        self.flags & IFF_UP != 0
    }

    pub fn is_broadcast(&self) -> (r: bool)
        ensures
            r == (self.flags & IFF_BROADCAST != 0),
    {
        self.flags & IFF_BROADCAST != 0
    }

    pub fn is_loopback(&self) -> (r: bool)
        ensures
            r == (self.flags & IFF_LOOPBACK != 0),
    {
        self.flags & IFF_LOOPBACK != 0
    }

    pub fn is_point_to_point(&self) -> (r: bool)
        ensures
            r == (self.flags & IFF_POINTOPOINT != 0),
    {
        self.flags & IFF_POINTOPOINT != 0
    }

    pub fn is_multicast(&self) -> (r: bool)
        ensures
            r == (self.flags & IFF_MULTICAST != 0),
    {
        self.flags & IFF_MULTICAST != 0
    }
}

/// The interfaces that carry an address: entries of unsupported address
/// families, which report none, are skipped.
pub open spec fn with_address(s: Seq<Nic>) -> Seq<Nic>
    decreases s.len(),
{
    if s.len() == 0 {
        Seq::empty()
    } else {
        with_address(s.drop_last()) + (if s.last().address is Some {
            seq![s.last()]
        } else {
            Seq::empty()
        })
    }
}

/// Keeps the interfaces whose entries carry an address.
pub fn nic(entries: Vec<Nic>) -> (r: Vec<Nic>)
    ensures
        r@ == with_address(entries@),
{
    let ghost orig = entries@;
    let mut stack = entries;
    let mut rev: Vec<Nic> = Vec::new();
    proof {
        assert(with_address(stack@) + rev@.reverse() =~= with_address(orig));
    }
    while stack.len() > 0
        invariant
            with_address(orig) == with_address(stack@) + rev@.reverse(),
        decreases stack@.len(),
    {
        let ghost old_stack = stack@;
        let ghost old_rev = rev@;
        let n = stack.pop().unwrap();
        let keep = match &n.address {
            Some(_) => true,
            None => false,
        };
        if keep {
            rev.push(n);
            proof {
                assert(with_address(old_stack) =~= with_address(stack@) + seq![
                    old_stack.last(),
                ]);
                assert(rev@.reverse() =~= seq![old_stack.last()] + old_rev.reverse());
                assert(with_address(stack@) + (seq![old_stack.last()] + old_rev.reverse()) =~= (
                with_address(stack@) + seq![old_stack.last()]) + old_rev.reverse());
            }
        } else {
            proof {
                assert(with_address(old_stack) =~= with_address(stack@));
            }
        }
    }
    proof {
        assert(with_address(stack@) + rev@.reverse() =~= rev@.reverse());
    }
    let mut out: Vec<Nic> = Vec::new();
    proof {
        assert(out@ + rev@.reverse() =~= rev@.reverse());
    }
    while rev.len() > 0
        invariant
            with_address(orig) == out@ + rev@.reverse(),
        decreases rev@.len(),
    {
        let ghost old_rev = rev@;
        let ghost old_out = out@;
        let n = rev.pop().unwrap();
        out.push(n);
        proof {
            assert(old_rev.reverse() =~= seq![old_rev.last()] + rev@.reverse());
            assert(out@ + rev@.reverse() =~= old_out + old_rev.reverse());
        }
    }
    proof {
        assert(out@ + rev@.reverse() =~= out@);
    }
    out
}

} // verus!

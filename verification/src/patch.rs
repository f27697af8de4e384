//! Patches: values substituted for what a CPU read would otherwise return, such as the ones a
//! Game Genie code applies.
use vstd::prelude::*;

use crate::genie::GenieCode;

verus! {

/// A value substituted for reads of one address: always, or only while the byte there equals
/// `compare`.
#[derive(Debug, Copy, Clone, PartialEq, Eq, Structural)]
pub struct Patch {
    /// The CPU address the patch applies to.
    pub addr: u16,
    /// The value a patched read returns.
    pub data: u8,
    /// When set, the read is patched only while the byte there holds this value.
    pub compare: Option<u8>,
}

impl Patch {
    /// What a read of a byte holding `val` returns under this patch.
    pub open spec fn applied(self, val: u8) -> u8 {
        match self.compare {
            Some(c) => if c == val { self.data } else { val },
            None => self.data,
        }
    }

    /// A patch of `addr` to `data`, only while the byte there is `compare` when it is given.
    pub fn new(addr: u16, data: u8, compare: Option<u8>) -> (p: Self)
        ensures
            p == (Patch { addr, data, compare }),
    {
        Patch { addr, data, compare }
    }

    /// The patch a Game Genie code applies.
    pub fn from_genie(code: &GenieCode) -> (p: Self)
        ensures
            p == (Patch { addr: code.spec_addr(), data: code.spec_data(), compare: code.spec_compare() }),
    {
        Patch { addr: code.addr(), data: code.data(), compare: code.compare() }
    }

    /// What a read of a byte holding `val` returns under this patch.
    pub fn apply(&self, val: u8) -> (r: u8)
        ensures
            r == self.applied(val),
    {
        match self.compare {
            Some(c) => if c == val { self.data } else { val },
            None => self.data,
        }
    }
}

/// The last patch of `addr` in `s`, if any.
pub open spec fn patch_at(s: Seq<Patch>, addr: u16) -> Option<Patch>
    decreases s.len(),
{
    if s.len() == 0 {
        None
    } else if s.last().addr == addr {
        Some(s.last())
    } else {
        patch_at(s.drop_last(), addr)
    }
}

/// What a read of `addr`, where the byte is `val`, returns under the patches `m`.
pub open spec fn patched(m: Map<u16, Patch>, addr: u16, val: u8) -> u8 {
    if m.dom().contains(addr) { m[addr].applied(val) } else { val }
}

/// The patches in force, at most one per address.
#[derive(Debug, Clone)]
pub struct Patches {
    patches: Vec<Patch>,
}

impl View for Patches {
    type V = Map<u16, Patch>;

    closed spec fn view(&self) -> Map<u16, Patch> {
        Map::new(|a: u16| patch_at(self.patches@, a) is Some, |a: u16| patch_at(self.patches@, a)->0)
    }
}

impl Default for Patches {
    fn default() -> (p: Self)
        ensures
            p@ == Map::<u16, Patch>::empty(),
    {
        Patches::new()
    }
}

impl Patches {
    /// No patches.
    pub fn new() -> (p: Self)
        ensures
            p@ == Map::<u16, Patch>::empty(),
    {
        let p = Patches { patches: Vec::new() };
        proof {
            assert(p@ =~= Map::<u16, Patch>::empty());
        }
        p
    }

    /// Adds `patch`, replacing any patch already at its address.
    pub fn insert(&mut self, patch: Patch)
        ensures
            final(self)@ == old(self)@.insert(patch.addr, patch),
    {
        self.remove(patch.addr);
        let ghost before = self.patches@;
        let ghost mid = self@;
        self.patches.push(patch);
        proof {
            assert(self.patches@.drop_last() =~= before);
            assert forall|a: u16| #[trigger] patch_at(self.patches@, a)
                == (if a == patch.addr { Some(patch) } else { patch_at(before, a) }) by {
                assert(self.patches@.last() == patch);
            }
            assert forall|a: u16| #[trigger] mid.dom().contains(a) == (patch_at(before, a) is Some)
                && (mid.dom().contains(a) ==> mid[a] == patch_at(before, a)->0) by {}
            assert(mid =~= old(self)@.remove(patch.addr));
            let fin = self@;
            let want = old(self)@.insert(patch.addr, patch);
            assert forall|a: u16| #[trigger] fin.dom().contains(a) == want.dom().contains(a) by {
                assert(fin.dom().contains(a) == (patch_at(self.patches@, a) is Some));
                if a != patch.addr {
                    assert(mid.dom().contains(a) == (patch_at(before, a) is Some));
                    assert(mid.dom().contains(a) == old(self)@.dom().contains(a));
                }
            }
            assert forall|a: u16| fin.dom().contains(a) implies #[trigger] fin[a] == want[a] by {
                assert(fin.dom().contains(a) == (patch_at(self.patches@, a) is Some));
                assert(fin[a] == patch_at(self.patches@, a)->0);
                if a != patch.addr {
                    assert(mid.dom().contains(a) == (patch_at(before, a) is Some));
                    assert(mid[a] == patch_at(before, a)->0);
                    assert(mid[a] == old(self)@[a]);
                }
            }
            assert(fin =~= want);
        }
    }

    /// Removes the patch at `addr`, if there is one.
    pub fn remove(&mut self, addr: u16)
        ensures
            final(self)@ == old(self)@.remove(addr),
    {
        let ghost old_s = self.patches@;
        let mut kept: Vec<Patch> = Vec::new();
        let mut i: usize = 0;
        while i < self.patches.len()
            invariant
                self.patches@ == old_s,
                i <= old_s.len(),
                forall|a: u16| a != addr ==> #[trigger] patch_at(kept@, a) == patch_at(old_s.take(i as int), a),
                patch_at(kept@, addr) is None,
            decreases old_s.len() - i,
        {
            let p = self.patches[i];
            let ghost prev = kept@;
            if p.addr != addr {
                kept.push(p);
            }
            proof {
                let t = old_s.take(i + 1);
                assert(t.drop_last() =~= old_s.take(i as int));
                assert(t.last() == p);
                if p.addr != addr {
                    assert(kept@.drop_last() =~= prev);
                    assert(kept@.last() == p);
                }
                assert forall|a: u16| a != addr implies #[trigger] patch_at(kept@, a) == patch_at(t, a) by {
                    assert(patch_at(prev, a) == patch_at(old_s.take(i as int), a));
                }
            }
            i = i + 1;
        }
        proof {
            assert(old_s.take(old_s.len() as int) =~= old_s);
        }
        self.patches = kept;
        proof {
            assert(self@ =~= old(self)@.remove(addr));
        }
    }

    /// Removes every patch.
    pub fn clear(&mut self)
        ensures
            final(self)@ == Map::<u16, Patch>::empty(),
    {
        self.patches = Vec::new();
        proof {
            assert(self@ =~= Map::<u16, Patch>::empty());
        }
    }

    /// What a read of `addr` returns where the byte there is `val`.
    pub fn read(&self, addr: u16, val: u8) -> (r: u8)
        ensures
            r == patched(self@, addr, val),
    {
        let mut i: usize = self.patches.len();
        proof {
            assert(self.patches@.take(i as int) =~= self.patches@);
        }
        while i > 0
            invariant
                i <= self.patches@.len(),
                patch_at(self.patches@, addr) == patch_at(self.patches@.take(i as int), addr),
            decreases i,
        {
            let p = self.patches[i - 1];
            proof {
                assert(self.patches@.take(i as int).drop_last() =~= self.patches@.take(i - 1));
            }
            if p.addr == addr {
                return p.apply(val);
            }
            i = i - 1;
        }
        val
    }
}

} // verus!

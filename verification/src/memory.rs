//! A word-addressed memory and the responder side of the bus handshake.
//!
//! The memory stands on the far side of a bus channel: each cycle it
//! observes the signals the core drives and, for this responder, answers
//! every valid request in the same cycle — the protocol allows it to delay
//! `ready`, and this one never does, which trivially meets the liveness
//! requirement. Reads outside the backing store yield 0 and writes outside
//! it are discarded.

use vstd::prelude::*;
use vstd::pervasive::VecAdditionalExecFns;

use crate::bus::BusChannel;

verus! {

pub struct Memory {
    words: Vec<u32>,
}

impl View for Memory {
    type V = Seq<u32>;

    closed spec fn view(&self) -> Seq<u32> {
        self.words@
    }
}

impl Memory {
    /// A memory of `n` words, all 0.
    pub fn new(n: usize) -> (r: Memory)
        ensures
            r@ == Seq::new(n as nat, |i: int| 0u32),
    {
        let mut words: Vec<u32> = Vec::new();
        let mut k: usize = 0;
        while k < n
            invariant
                k <= n,
                words@ == Seq::new(k as nat, |i: int| 0u32),
            decreases n - k,
        {
            words.push(0);
            k = k + 1;
            proof {
                assert(words@ =~= Seq::new(k as nat, |i: int| 0u32));
            }
        }
        Memory { words }
    }

    pub fn read(&self, addr: u32) -> (v: u32)
        ensures
            v == (if addr < self@.len() {
                self@[addr as int]
            } else {
                0u32
            }),
    {
        if (addr as usize) < self.words.len() {
            self.words[addr as usize]
        } else {
            0u32
        }
    }

    pub fn write(&mut self, addr: u32, v: u32)
        ensures
            final(self)@ == (if addr < old(self)@.len() {
                old(self)@.update(addr as int, v)
            } else {
                old(self)@
            }),
    {
        if (addr as usize) < self.words.len() {
            self.words.set(addr as usize, v);
        }
    }

    pub fn len(&self) -> (n: usize)
        ensures
            n == self@.len(),
    {
        self.words.len()
    }

    /// Serve one cycle of the bus: observe the signals the core drives and
    /// answer. Returns `(ready, read_data)`: `ready` exactly when the
    /// request is valid; for a write the addressed word is captured, for a
    /// read the addressed word is returned.
    pub fn respond(&mut self, req: BusChannel) -> (r: (bool, u32))
        ensures
            r.0 == req.valid,
            final(self)@ == (if req.valid && req.write_strobe && req.address < old(self)@.len() {
                old(self)@.update(req.address as int, req.write_data)
            } else {
                old(self)@
            }),
            r.1 == (if req.valid && !req.write_strobe && req.address < old(self)@.len() {
                old(self)@[req.address as int]
            } else {
                0u32
            }),
    {
        if req.valid {
            if req.write_strobe {
                self.write(req.address, req.write_data);
                (true, 0u32)
            } else {
                (true, self.read(req.address))
            }
        } else {
            (false, 0u32)
        }
    }
}

/// Law: memory round-trips. Writing a value at an address inside the
/// store and reading the same address back yields that value, and no
/// other address changes.
pub proof fn lemma_memory_round_trip(m: Seq<u32>, a: int, v: u32)
    requires
        0 <= a < m.len(),
    ensures
        m.update(a, v)[a] == v,
        forall|b: int| 0 <= b < m.len() && b != a ==> m.update(a, v)[b] == m[b],
{
}

} // verus!

//! The register file: flat indexed storage of 32-bit words.
//!
//! Reads outside the file yield 0 and writes outside it are discarded, so
//! every access is total and an unassigned index acts as a no-op
//! transport.

use vstd::prelude::*;
use vstd::pervasive::VecAdditionalExecFns;

verus! {

pub struct RegisterFile {
    regs: Vec<u32>,
}

impl View for RegisterFile {
    type V = Seq<u32>;

    closed spec fn view(&self) -> Seq<u32> {
        self.regs@
    }
}

impl RegisterFile {
    /// A file of `n` registers, all holding 0.
    pub fn new(n: usize) -> (r: RegisterFile)
        ensures
            r@ == Seq::new(n as nat, |i: int| 0u32),
    {
        let mut regs: Vec<u32> = Vec::new();
        let mut k: usize = 0;
        while k < n
            invariant
                k <= n,
                regs@ == Seq::new(k as nat, |i: int| 0u32),
            decreases n - k,
        {
            regs.push(0);
            k = k + 1;
            proof {
                assert(regs@ =~= Seq::new(k as nat, |i: int| 0u32));
            }
        }
        RegisterFile { regs }
    }

    pub fn read(&self, i: usize) -> (v: u32)
        ensures
            v == (if i < self@.len() {
                self@[i as int]
            } else {
                0u32
            }),
    {
        if i < self.regs.len() {
            self.regs[i]
        } else {
            0u32
        }
    }

    pub fn write(&mut self, i: usize, v: u32)
        ensures
            final(self)@ == (if i < old(self)@.len() {
                old(self)@.update(i as int, v)
            } else {
                old(self)@
            }),
    {
        if i < self.regs.len() {
            self.regs.set(i, v);
        }
    }

    pub fn len(&self) -> (n: usize)
        ensures
            n == self@.len(),
    {
        self.regs.len()
    }
}

/// Law: moving a register to itself changes nothing: writing back the
/// value just read leaves the whole file as it was.
pub proof fn lemma_register_move_to_self(regs: Seq<u32>, i: int)
    requires
        0 <= i < regs.len(),
    ensures
        regs.update(i, regs[i]) == regs,
{
    assert(regs.update(i, regs[i]) =~= regs);
}

/// Law: registers are independent. A write to one index leaves the value
/// at every other index exactly as it was.
pub proof fn lemma_register_independence(regs: Seq<u32>, i: int, j: int, v: u32)
    requires
        0 <= i < regs.len(),
        0 <= j < regs.len(),
        i != j,
    ensures
        regs.update(i, v)[j] == regs[j],
{
}

} // verus!

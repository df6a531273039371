//! The stack bank: an indexed set of independent LIFO stacks of 32-bit
//! words.
//!
//! A stack grows and shrinks only at its top. `peek` and `poke` address
//! elements by their offset from the top (offset 0 is the most recently
//! pushed element) without changing the depth. Popping an empty stack
//! yields 0 rather than failing, and accesses outside the bank or past the
//! bottom of a stack act as a no-op transport: reads yield 0, writes are
//! discarded.

use vstd::prelude::*;
use vstd::pervasive::VecAdditionalExecFns;

verus! {

pub struct StackBank {
    stacks: Vec<Vec<u32>>,
}

impl View for StackBank {
    type V = Seq<Seq<u32>>;

    closed spec fn view(&self) -> Seq<Seq<u32>> {
        self.stacks@.map_values(|s: Vec<u32>| s@)
    }
}

impl StackBank {
    /// A bank of `n` stacks, all empty.
    pub fn new(n: usize) -> (r: StackBank)
        ensures
            r@ == Seq::new(n as nat, |i: int| Seq::<u32>::empty()),
    {
        let mut stacks: Vec<Vec<u32>> = Vec::new();
        let mut k: usize = 0;
        while k < n
            invariant
                k <= n,
                stacks@.len() == k as nat,
                forall|i: int| 0 <= i < k ==> (#[trigger] stacks@[i])@ == Seq::<u32>::empty(),
            decreases n - k,
        {
            stacks.push(Vec::new());
            k = k + 1;
        }
        let r = StackBank { stacks };
        proof {
            assert(r@ =~~= Seq::new(n as nat, |i: int| Seq::<u32>::empty()));
        }
        r
    }

    /// How many stacks the bank holds.
    pub fn len(&self) -> (n: usize)
        ensures
            n == self@.len(),
    {
        self.stacks.len()
    }

    /// The depth of one stack.
    pub fn depth(&self, id: usize) -> (n: usize)
        ensures
            n == (if id < self@.len() {
                self@[id as int].len()
            } else {
                0nat
            }),
    {
        if id < self.stacks.len() {
            self.stacks[id].len()
        } else {
            0usize
        }
    }

    /// Append a value at the top of stack `id`.
    pub fn push(&mut self, id: usize, v: u32)
        ensures
            final(self)@ == (if id < old(self)@.len() {
                old(self)@.update(id as int, old(self)@[id as int].push(v))
            } else {
                old(self)@
            }),
    {
        if id < self.stacks.len() {
            let mut s: Vec<u32> = Vec::new();
            self.stacks.set_and_swap(id, &mut s);
            s.push(v);
            self.stacks.set(id, s);
            proof {
                assert(self@ =~= old(self)@.update(id as int, old(self)@[id as int].push(v)));
            }
        }
    }

    /// Remove and return the top of stack `id`; an empty or unassigned
    /// stack yields 0 and stays as it is.
    pub fn pop(&mut self, id: usize) -> (v: u32)
        ensures
            v == (if id < old(self)@.len() && old(self)@[id as int].len() > 0 {
                old(self)@[id as int].last()
            } else {
                0u32
            }),
            final(self)@ == (if id < old(self)@.len() && old(self)@[id as int].len() > 0 {
                old(self)@.update(id as int, old(self)@[id as int].drop_last())
            } else {
                old(self)@
            }),
    {
        if id < self.stacks.len() {
            let mut s: Vec<u32> = Vec::new();
            self.stacks.set_and_swap(id, &mut s);
            let v: u32 = match s.pop() {
                Some(x) => x,
                None => 0u32,
            };
            self.stacks.set(id, s);
            proof {
                if old(self)@[id as int].len() > 0 {
                    assert(self@ =~= old(self)@.update(
                        id as int,
                        old(self)@[id as int].drop_last(),
                    ));
                } else {
                    assert(self@ =~= old(self)@);
                }
            }
            v
        } else {
            0u32
        }
    }

    /// Read the element `offset` below the top of stack `id`, without
    /// changing anything.
    pub fn peek(&self, id: usize, offset: usize) -> (v: u32)
        ensures
            v == (if id < self@.len() && offset < self@[id as int].len() {
                self@[id as int][self@[id as int].len() - 1 - offset]
            } else {
                0u32
            }),
    {
        if id < self.stacks.len() {
            let d: usize = self.stacks[id].len();
            if offset < d {
                self.stacks[id][d - 1 - offset]
            } else {
                0u32
            }
        } else {
            0u32
        }
    }

    /// Overwrite the element `offset` below the top of stack `id`, without
    /// changing the depth.
    pub fn poke(&mut self, id: usize, offset: usize, v: u32)
        ensures
            final(self)@ == (if id < old(self)@.len() && offset < old(self)@[id as int].len() {
                old(self)@.update(
                    id as int,
                    old(self)@[id as int].update(old(self)@[id as int].len() - 1 - offset, v),
                )
            } else {
                old(self)@
            }),
    {
        if id < self.stacks.len() {
            let mut s: Vec<u32> = Vec::new();
            self.stacks.set_and_swap(id, &mut s);
            let d: usize = s.len();
            if offset < d {
                s.set(d - 1 - offset, v);
            }
            self.stacks.set(id, s);
            proof {
                if offset < old(self)@[id as int].len() {
                    assert(self@ =~= old(self)@.update(
                        id as int,
                        old(self)@[id as int].update(
                            old(self)@[id as int].len() - 1 - offset,
                            v,
                        ),
                    ));
                } else {
                    assert(self@ =~= old(self)@);
                }
            }
        }
    }
}

/// Law: strict LIFO order. After pushing the values `vs` in order onto a
/// stack holding `s`, the element `peek` sees at offset `k` is the
/// (k+1)-th most recent push, the top is the most recent push, and a pop
/// removes exactly that most recent push, leaving the earlier ones.
pub proof fn lemma_stack_lifo(s: Seq<u32>, vs: Seq<u32>)
    requires
        vs.len() > 0,
    ensures
        forall|k: int|
            0 <= k < vs.len() ==> (s + vs)[(s + vs).len() - 1 - k] == #[trigger] vs[vs.len() - 1
                - k],
        (s + vs).last() == vs.last(),
        (s + vs).drop_last() == s + vs.drop_last(),
{
    assert((s + vs).drop_last() =~= s + vs.drop_last());
}

/// Law: overwriting the top of a nonempty stack with `poke` at offset 0
/// makes the next pop return exactly the poked value, and leaves the rest
/// of the stack as it was.
pub proof fn lemma_stack_poke_then_pop(s: Seq<u32>, x: u32)
    requires
        s.len() > 0,
    ensures
        s.update(s.len() - 1, x).last() == x,
        s.update(s.len() - 1, x).drop_last() == s.drop_last(),
{
    assert(s.update(s.len() - 1, x).drop_last() =~= s.drop_last());
}

} // verus!

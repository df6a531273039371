//! The arithmetic/logic units: 32-bit operations with wraparound, and an
//! indexed bank of independent instances.
//!
//! Each instance holds a left operand, a right operand, an operation
//! selector and a result. The result is a pure function of the other three
//! fields and is recomputed on every write, so it is never stale. Division
//! and remainder by zero yield 0: the unit has no fault path. Shift amounts
//! of 32 or more shift every bit out (the arithmetic right shift keeps
//! filling with the sign).

use vstd::prelude::*;
use vstd::arithmetic::power2::{
    pow2,
    lemma_pow2_pos,
    lemma_pow2_adds,
    lemma_pow2_strictly_increases,
    lemma2_to64,
};
use vstd::arithmetic::div_mod::{
    lemma_fundamental_div_mod,
    lemma_fundamental_div_mod_converse,
    lemma_mod_division_less_than_divisor,
    lemma_div_nonincreasing,
    lemma_basic_div,
    lemma_add_mod_noop,
    lemma_sub_mod_noop,
    lemma_small_mod,
    lemma_mod_add_multiples_vanish,
    lemma_mod_multiples_basic,
};
use vstd::arithmetic::mul::{lemma_mul_is_commutative, lemma_mul_is_associative};
use vstd::bits::{lemma_u32_shr_is_div, lemma_u64_shl_is_mul};
use vstd::pervasive::VecAdditionalExecFns;

use crate::assembler::ALUOp;

verus! {

/// The operation a 4-bit selector code stands for; all 16 codes are
/// assigned.
pub open spec fn alu_op_of_code(c: u32) -> ALUOp {
    let k = c & 0xF;
    if k == 0 {
        ALUOp::ALU_NOP
    } else if k == 1 {
        ALUOp::ALU_ADD
    } else if k == 2 {
        ALUOp::ALU_SUB
    } else if k == 3 {
        ALUOp::ALU_MUL
    } else if k == 4 {
        ALUOp::ALU_DIV
    } else if k == 5 {
        ALUOp::ALU_MOD
    } else if k == 6 {
        ALUOp::ALU_EQL
    } else if k == 7 {
        ALUOp::ALU_SL
    } else if k == 8 {
        ALUOp::ALU_SR
    } else if k == 9 {
        ALUOp::ALU_SRA
    } else if k == 10 {
        ALUOp::ALU_NOT
    } else if k == 11 {
        ALUOp::ALU_AND
    } else if k == 12 {
        ALUOp::ALU_OR
    } else if k == 13 {
        ALUOp::ALU_XOR
    } else if k == 14 {
        ALUOp::ALU_GT
    } else {
        ALUOp::ALU_LT
    }
}

impl ALUOp {
    /// The operation selected by the low 4 bits of a transported word.
    pub fn from_code(c: u32) -> (r: ALUOp)
        ensures
            r == alu_op_of_code(c),
    {
        let k: u32 = c & 0xF;
        proof {
            assert(c & 0xF < 16) by (bit_vector);
        }
        if k == 0 {
            ALUOp::ALU_NOP
        } else if k == 1 {
            ALUOp::ALU_ADD
        } else if k == 2 {
            ALUOp::ALU_SUB
        } else if k == 3 {
            ALUOp::ALU_MUL
        } else if k == 4 {
            ALUOp::ALU_DIV
        } else if k == 5 {
            ALUOp::ALU_MOD
        } else if k == 6 {
            ALUOp::ALU_EQL
        } else if k == 7 {
            ALUOp::ALU_SL
        } else if k == 8 {
            ALUOp::ALU_SR
        } else if k == 9 {
            ALUOp::ALU_SRA
        } else if k == 10 {
            ALUOp::ALU_NOT
        } else if k == 11 {
            ALUOp::ALU_AND
        } else if k == 12 {
            ALUOp::ALU_OR
        } else if k == 13 {
            ALUOp::ALU_XOR
        } else if k == 14 {
            ALUOp::ALU_GT
        } else {
            ALUOp::ALU_LT
        }
    }
}

/// The effective amount of an arithmetic right shift: amounts past 31
/// saturate, which keeps filling with the sign bit.
pub open spec fn sra_shift(n: u32) -> u32 {
    if n >= 31 {
        31u32
    } else {
        n
    }
}

/// Arithmetic (sign-extending) right shift of a 32-bit value.
pub open spec fn alu_sra(v: u32, n: u32) -> u32 {
    if v < 0x8000_0000 {
        v >> sra_shift(n)
    } else {
        !((!v) >> sra_shift(n))
    }
}

/// What one unit computes from its operands: 32-bit arithmetic with
/// wraparound, total on every input.
pub open spec fn alu_eval(op: ALUOp, l: u32, r: u32) -> u32 {
    match op {
        ALUOp::ALU_NOP => 0u32,
        ALUOp::ALU_ADD => (((l + r) % 0x1_0000_0000) as u32),
        ALUOp::ALU_SUB => (((l - r) % 0x1_0000_0000) as u32),
        ALUOp::ALU_MUL => (((l * r) % 0x1_0000_0000) as u32),
        ALUOp::ALU_DIV => if r == 0 {
            0u32
        } else {
            ((l as int / r as int) as u32)
        },
        ALUOp::ALU_MOD => if r == 0 {
            0u32
        } else {
            ((l as int % r as int) as u32)
        },
        ALUOp::ALU_EQL => if l == r {
            1u32
        } else {
            0u32
        },
        ALUOp::ALU_SL => if r >= 32 {
            0u32
        } else {
            l << r
        },
        ALUOp::ALU_SR => if r >= 32 {
            0u32
        } else {
            l >> r
        },
        ALUOp::ALU_SRA => alu_sra(l, r),
        ALUOp::ALU_NOT => !l,
        ALUOp::ALU_AND => l & r,
        ALUOp::ALU_OR => l | r,
        ALUOp::ALU_XOR => l ^ r,
        ALUOp::ALU_GT => if l > r {
            1u32
        } else {
            0u32
        },
        ALUOp::ALU_LT => if l < r {
            1u32
        } else {
            0u32
        },
    }
}

/// Compute one operation, exactly as `alu_eval` states it.
pub fn alu_compute(op: ALUOp, l: u32, r: u32) -> (res: u32)
    ensures
        res == alu_eval(op, l, r),
{
    match op {
        ALUOp::ALU_NOP => 0u32,
        ALUOp::ALU_ADD => {
            let s: u64 = l as u64 + r as u64;
            (s % 0x1_0000_0000u64) as u32
        },
        ALUOp::ALU_SUB => {
            let s: u64 = (l as u64 + 0x1_0000_0000u64) - r as u64;
            proof {
                lemma_mod_add_multiples_vanish(l - r, 0x1_0000_0000int);
            }
            (s % 0x1_0000_0000u64) as u32
        },
        ALUOp::ALU_MUL => {
            proof {
                assert((l as u64) * (r as u64) <= 0xFFFF_FFFFu64 * 0xFFFF_FFFFu64)
                    by (nonlinear_arith)
                    requires
                        l <= 0xFFFF_FFFFu64,
                        r <= 0xFFFF_FFFFu64,
                ;
            }
            let p: u64 = l as u64 * r as u64;
            (p % 0x1_0000_0000u64) as u32
        },
        ALUOp::ALU_DIV => {
            if r == 0 {
                0u32
            } else {
                l / r
            }
        },
        ALUOp::ALU_MOD => {
            if r == 0 {
                0u32
            } else {
                l % r
            }
        },
        ALUOp::ALU_EQL => {
            if l == r {
                1u32
            } else {
                0u32
            }
        },
        ALUOp::ALU_SL => {
            if r >= 32 {
                0u32
            } else {
                l << r
            }
        },
        ALUOp::ALU_SR => {
            if r >= 32 {
                0u32
            } else {
                l >> r
            }
        },
        ALUOp::ALU_SRA => {
            let s: u32 = if r >= 31 {
                31u32
            } else {
                r
            };
            if l < 0x8000_0000 {
                l >> s
            } else {
                !((!l) >> s)
            }
        },
        ALUOp::ALU_NOT => !l,
        ALUOp::ALU_AND => l & r,
        ALUOp::ALU_OR => l | r,
        ALUOp::ALU_XOR => l ^ r,
        ALUOp::ALU_GT => {
            if l > r {
                1u32
            } else {
                0u32
            }
        },
        ALUOp::ALU_LT => {
            if l < r {
                1u32
            } else {
                0u32
            }
        },
    }
}

/// Law: addition and multiplication are commutative.
pub proof fn lemma_alu_add_mul_commute(a: u32, b: u32)
    ensures
        alu_eval(ALUOp::ALU_ADD, a, b) == alu_eval(ALUOp::ALU_ADD, b, a),
        alu_eval(ALUOp::ALU_MUL, a, b) == alu_eval(ALUOp::ALU_MUL, b, a),
{
    lemma_mul_is_commutative(a as int, b as int);
}

/// Law: subtraction is anti-commutative. The two differences of a pair sum
/// to zero in the unit's wraparound arithmetic, so each is the wraparound
/// negation (0 minus the other) of the other.
pub proof fn lemma_alu_sub_anticommute(a: u32, b: u32)
    ensures
        alu_eval(ALUOp::ALU_ADD, alu_eval(ALUOp::ALU_SUB, a, b), alu_eval(ALUOp::ALU_SUB, b, a))
            == 0,
        alu_eval(ALUOp::ALU_SUB, 0, alu_eval(ALUOp::ALU_SUB, b, a)) == alu_eval(
            ALUOp::ALU_SUB,
            a,
            b,
        ),
{
    let m = 0x1_0000_0000int;
    lemma_add_mod_noop(a - b, b - a, m);
    lemma_small_mod(0nat, 0x1_0000_0000nat);
    lemma_sub_mod_noop(0, b - a, m);
}

/// Law: AND with all ones, OR with zero and XOR with zero leave the other
/// operand unchanged, on either side.
pub proof fn lemma_alu_bitwise_identities(a: u32)
    ensures
        alu_eval(ALUOp::ALU_AND, a, 0xFFFF_FFFF) == a,
        alu_eval(ALUOp::ALU_AND, 0xFFFF_FFFF, a) == a,
        alu_eval(ALUOp::ALU_OR, a, 0) == a,
        alu_eval(ALUOp::ALU_OR, 0, a) == a,
        alu_eval(ALUOp::ALU_XOR, a, 0) == a,
        alu_eval(ALUOp::ALU_XOR, 0, a) == a,
{
    assert(a & 0xFFFF_FFFFu32 == a && 0xFFFF_FFFFu32 & a == a && (a | 0u32) == a && (0u32 | a)
        == a && (a ^ 0u32) == a && (0u32 ^ a) == a) by (bit_vector);
}

/// Law: for any pair, exactly one of the three comparisons yields 1, and
/// each agrees with the natural (unsigned) order.
pub proof fn lemma_alu_comparison_trichotomy(a: u32, b: u32)
    ensures
        alu_eval(ALUOp::ALU_LT, a, b) + alu_eval(ALUOp::ALU_EQL, a, b) + alu_eval(
            ALUOp::ALU_GT,
            a,
            b,
        ) == 1,
        alu_eval(ALUOp::ALU_LT, a, b) == 1 <==> a < b,
        alu_eval(ALUOp::ALU_EQL, a, b) == 1 <==> a == b,
        alu_eval(ALUOp::ALU_GT, a, b) == 1 <==> a > b,
{
}

/// Law: the left shift multiplies by a power of two, modulo 2^32.
pub proof fn lemma_alu_shift_left(v: u32, n: u32)
    ensures
        alu_eval(ALUOp::ALU_SL, v, n) == ((v * pow2(n as nat)) % 0x1_0000_0000) as u32,
{
    if n < 32 {
        lemma2_to64();
        if n < 31 {
            lemma_pow2_strictly_increases(n as nat, 31nat);
        }
        assert((v as u64) * pow2(n as nat) <= 0xFFFF_FFFFu64 * 0x8000_0000u64) by (nonlinear_arith)
            requires
                v <= 0xFFFF_FFFFu64,
                pow2(n as nat) <= 0x8000_0000u64,
        ;
        lemma_u64_shl_is_mul(v as u64, n as u64);
        assert(v << n == (((v as u64) << (n as u64)) % 0x1_0000_0000u64) as u32) by (bit_vector)
            requires
                n < 32,
        ;
    } else {
        lemma_pow2_adds((n - 32) as nat, 32nat);
        lemma2_to64();
        lemma_pow2_pos((n - 32) as nat);
        assert(v * (pow2((n - 32) as nat) * pow2(32nat)) == (v * pow2((n - 32) as nat)) * pow2(
            32nat,
        )) by {
            lemma_mul_is_associative(v as int, pow2((n - 32) as nat) as int, pow2(32nat) as int);
        }
        lemma_mod_multiples_basic((v * pow2((n - 32) as nat)) as int, 0x1_0000_0000int);
    }
}

/// Law: the logical right shift divides by a power of two, rounding down.
pub proof fn lemma_alu_shift_right(v: u32, n: u32)
    ensures
        alu_eval(ALUOp::ALU_SR, v, n) == ((v as nat) / pow2(n as nat)) as u32,
{
    if n < 32 {
        lemma_u32_shr_is_div(v, n);
    } else {
        lemma2_to64();
        if n > 32 {
            lemma_pow2_strictly_increases(32nat, n as nat);
        }
        lemma_basic_div(v as int, pow2(n as nat) as int);
    }
}

/// The signed reading of a 32-bit word, in two's complement.
pub open spec fn to_signed(v: u32) -> int {
    if v < 0x8000_0000 {
        v as int
    } else {
        v - 0x1_0000_0000
    }
}

/// Law: the arithmetic right shift divides the signed reading by a power
/// of two, rounding towards minus infinity; amounts past 31 behave as 31,
/// which leaves only the sign.
pub proof fn lemma_alu_shift_right_arithmetic(v: u32, n: u32)
    ensures
        to_signed(alu_eval(ALUOp::ALU_SRA, v, n)) == to_signed(v) / (pow2(
            sra_shift(n) as nat,
        ) as int),
{
    let s = sra_shift(n);
    let d = pow2(s as nat) as int;
    lemma_pow2_pos(s as nat);
    lemma2_to64();
    if s < 31 {
        lemma_pow2_strictly_increases(s as nat, 31nat);
    }
    if v < 0x8000_0000 {
        lemma_u32_shr_is_div(v, s);
        assert(v >> s <= v) by (bit_vector);
    } else {
        let nv = !v;
        assert(v + !v == 0xFFFF_FFFFu32) by (bit_vector);
        lemma_u32_shr_is_div(nv, s);
        let q = (nv as nat / pow2(s as nat)) as int;
        assert((nv >> s) + !(nv >> s) == 0xFFFF_FFFFu32) by (bit_vector);
        lemma_div_nonincreasing(nv as int, d);
        let res = alu_eval(ALUOp::ALU_SRA, v, n);
        assert(res == 0xFFFF_FFFF - q);
        let w = to_signed(v);
        lemma_fundamental_div_mod(nv as int, d);
        let r = nv as int % d;
        lemma_mod_division_less_than_divisor(nv as int, d);
        assert(d * (-q - 1) == -(d * q) - d) by (nonlinear_arith);
        assert(w == d * (-q - 1) + (d - 1 - r));
        lemma_fundamental_div_mod_converse(w, d, -q - 1, d - 1 - r);
    }
}

/// Law: quotient and remainder reassemble the dividend, and the remainder
/// is below the divisor, whenever the divisor is nonzero.
pub proof fn lemma_alu_div_mod(a: u32, b: u32)
    requires
        b > 0,
    ensures
        alu_eval(ALUOp::ALU_DIV, a, b) * b + alu_eval(ALUOp::ALU_MOD, a, b) == a,
        alu_eval(ALUOp::ALU_MOD, a, b) < b,
{
    lemma_fundamental_div_mod(a as int, b as int);
    lemma_mod_division_less_than_divisor(a as int, b as int);
    lemma_div_nonincreasing(a as int, b as int);
    lemma_mul_is_commutative((a as int / b as int), b as int);
}

/// One arithmetic/logic unit instance: two operands, the selected
/// operation, and the computed result.
#[derive(Debug, Clone, Copy, PartialEq, Eq, Structural)]
pub struct AluInstance {
    pub left: u32,
    pub right: u32,
    pub op: ALUOp,
    pub result: u32,
}

/// The state an instance resets to.
pub open spec fn alu_reset_state() -> AluInstance {
    AluInstance { left: 0, right: 0, op: ALUOp::ALU_NOP, result: 0 }
}

impl AluInstance {
    /// The result field is exactly what the operation computes from the
    /// operands: it is never stale.
    pub open spec fn wf(self) -> bool {
        self.result == alu_eval(self.op, self.left, self.right)
    }
}

/// An instance after its left operand is written.
pub open spec fn alu_with_left(a: AluInstance, v: u32) -> AluInstance {
    AluInstance { left: v, right: a.right, op: a.op, result: alu_eval(a.op, v, a.right) }
}

/// An instance after its right operand is written.
pub open spec fn alu_with_right(a: AluInstance, v: u32) -> AluInstance {
    AluInstance { left: a.left, right: v, op: a.op, result: alu_eval(a.op, a.left, v) }
}

/// An instance after its operation selector is written (low 4 bits of the
/// transported word).
pub open spec fn alu_with_op(a: AluInstance, code: u32) -> AluInstance {
    let op = alu_op_of_code(code);
    AluInstance { left: a.left, right: a.right, op, result: alu_eval(op, a.left, a.right) }
}

/// An indexed bank of independent unit instances. Reads outside the bank
/// yield 0 and writes outside it are discarded: unassigned instance ids
/// act as a no-op transport.
pub struct ALUBank {
    alus: Vec<AluInstance>,
}

impl View for ALUBank {
    type V = Seq<AluInstance>;

    closed spec fn view(&self) -> Seq<AluInstance> {
        self.alus@
    }
}

impl ALUBank {
    /// Every instance's result is current.
    pub open spec fn wf(self) -> bool {
        forall|i: int| 0 <= i < self@.len() ==> (#[trigger] self@[i]).wf()
    }

    pub fn new(n: usize) -> (r: ALUBank)
        ensures
            r@ == Seq::new(n as nat, |i: int| alu_reset_state()),
            r.wf(),
    {
        let mut alus: Vec<AluInstance> = Vec::new();
        let mut k: usize = 0;
        while k < n
            invariant
                k <= n,
                alus@ == Seq::new(k as nat, |i: int| alu_reset_state()),
            decreases n - k,
        {
            alus.push(AluInstance { left: 0, right: 0, op: ALUOp::ALU_NOP, result: 0 });
            k = k + 1;
            proof {
                assert(alus@ =~= Seq::new(k as nat, |i: int| alu_reset_state()));
            }
        }
        ALUBank { alus }
    }

    pub fn write_left(&mut self, id: usize, v: u32)
        ensures
            final(self)@ == (if id < old(self)@.len() {
                old(self)@.update(id as int, alu_with_left(old(self)@[id as int], v))
            } else {
                old(self)@
            }),
    {
        if id < self.alus.len() {
            let mut a: AluInstance = self.alus[id];
            a.left = v;
            a.result = alu_compute(a.op, a.left, a.right);
            self.alus.set(id, a);
        }
    }

    pub fn write_right(&mut self, id: usize, v: u32)
        ensures
            final(self)@ == (if id < old(self)@.len() {
                old(self)@.update(id as int, alu_with_right(old(self)@[id as int], v))
            } else {
                old(self)@
            }),
    {
        if id < self.alus.len() {
            let mut a: AluInstance = self.alus[id];
            a.right = v;
            a.result = alu_compute(a.op, a.left, a.right);
            self.alus.set(id, a);
        }
    }

    pub fn write_operator(&mut self, id: usize, code: u32)
        ensures
            final(self)@ == (if id < old(self)@.len() {
                old(self)@.update(id as int, alu_with_op(old(self)@[id as int], code))
            } else {
                old(self)@
            }),
    {
        if id < self.alus.len() {
            let mut a: AluInstance = self.alus[id];
            a.op = ALUOp::from_code(code);
            a.result = alu_compute(a.op, a.left, a.right);
            self.alus.set(id, a);
        }
    }

    pub fn read_left(&self, id: usize) -> (v: u32)
        ensures
            v == (if id < self@.len() {
                self@[id as int].left
            } else {
                0u32
            }),
    {
        if id < self.alus.len() {
            self.alus[id].left
        } else {
            0u32
        }
    }

    pub fn read_right(&self, id: usize) -> (v: u32)
        ensures
            v == (if id < self@.len() {
                self@[id as int].right
            } else {
                0u32
            }),
    {
        if id < self.alus.len() {
            self.alus[id].right
        } else {
            0u32
        }
    }

    pub fn read_result(&self, id: usize) -> (v: u32)
        ensures
            v == (if id < self@.len() {
                self@[id as int].result
            } else {
                0u32
            }),
    {
        if id < self.alus.len() {
            self.alus[id].result
        } else {
            0u32
        }
    }
}

/// Law: instances are independent. A write to one instance leaves every
/// other instance of the bank exactly as it was.
pub proof fn lemma_alu_instance_independence(bank: Seq<AluInstance>, i: int, j: int, a: AluInstance)
    requires
        0 <= i < bank.len(),
        0 <= j < bank.len(),
        i != j,
    ensures
        bank.update(i, a)[j] == bank[j],
{
}

} // verus!

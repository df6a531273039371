//! Instruction codec: the 1–3 word wire format of the move architecture.
//!
//! Word 0 packs the transport in four fields: bits [3:0] select the source
//! unit, bits [15:4] a 12-bit source immediate, bits [19:16] the destination
//! unit and bits [31:20] a 12-bit destination immediate. A source or
//! destination unit that needs a full-width operand contributes one extra
//! 32-bit word, source operand first, destination operand last.

use vstd::prelude::*;

verus! {

/// Opcode selector for one arithmetic/logic unit instance.
#[allow(non_camel_case_types)]
#[derive(Debug, Clone, Copy, PartialEq, Eq, Structural)]
pub enum ALUOp {
    ALU_NOP,
    ALU_ADD,
    ALU_SUB,
    ALU_MUL,
    ALU_DIV,
    ALU_MOD,
    ALU_EQL,
    ALU_SL,
    ALU_SR,
    ALU_SRA,
    ALU_NOT,
    ALU_AND,
    ALU_OR,
    ALU_XOR,
    ALU_GT,
    ALU_LT,
}

/// A functional-unit port that an instruction can name as its source or
/// destination.
#[allow(non_camel_case_types)]
#[derive(Debug, Clone, Copy, PartialEq, Eq, Structural)]
pub enum Unit {
    UNIT_NONE,
    UNIT_STACK_PUSH_POP,
    UNIT_STACK_INDEX,
    UNIT_REGISTER,
    UNIT_ALU_LEFT,
    UNIT_ALU_RIGHT,
    UNIT_ALU_OPERATOR,
    UNIT_ALU_RESULT,
    UNIT_MEMORY_IMMEDIATE,
    UNIT_MEMORY_OPERAND,
    UNIT_PC,
    UNIT_ABS_IMMEDIATE,
    UNIT_ABS_OPERAND,
    UNIT_REGISTER_POINTER,
}

/// The 4-bit wire code of each unit.
pub open spec fn unit_code(u: Unit) -> u32 {
    match u {
        Unit::UNIT_NONE => 0,
        Unit::UNIT_STACK_PUSH_POP => 1,
        Unit::UNIT_STACK_INDEX => 2,
        Unit::UNIT_REGISTER => 3,
        Unit::UNIT_ALU_LEFT => 4,
        Unit::UNIT_ALU_RIGHT => 5,
        Unit::UNIT_ALU_OPERATOR => 6,
        Unit::UNIT_ALU_RESULT => 7,
        Unit::UNIT_MEMORY_IMMEDIATE => 8,
        Unit::UNIT_MEMORY_OPERAND => 9,
        Unit::UNIT_PC => 10,
        Unit::UNIT_ABS_IMMEDIATE => 11,
        Unit::UNIT_ABS_OPERAND => 12,
        Unit::UNIT_REGISTER_POINTER => 13,
    }
}

/// The unit a 4-bit wire code stands for; codes 14 and 15 are unassigned.
pub open spec fn unit_of_code(c: u32) -> Option<Unit> {
    if c == 0 {
        Some(Unit::UNIT_NONE)
    } else if c == 1 {
        Some(Unit::UNIT_STACK_PUSH_POP)
    } else if c == 2 {
        Some(Unit::UNIT_STACK_INDEX)
    } else if c == 3 {
        Some(Unit::UNIT_REGISTER)
    } else if c == 4 {
        Some(Unit::UNIT_ALU_LEFT)
    } else if c == 5 {
        Some(Unit::UNIT_ALU_RIGHT)
    } else if c == 6 {
        Some(Unit::UNIT_ALU_OPERATOR)
    } else if c == 7 {
        Some(Unit::UNIT_ALU_RESULT)
    } else if c == 8 {
        Some(Unit::UNIT_MEMORY_IMMEDIATE)
    } else if c == 9 {
        Some(Unit::UNIT_MEMORY_OPERAND)
    } else if c == 10 {
        Some(Unit::UNIT_PC)
    } else if c == 11 {
        Some(Unit::UNIT_ABS_IMMEDIATE)
    } else if c == 12 {
        Some(Unit::UNIT_ABS_OPERAND)
    } else if c == 13 {
        Some(Unit::UNIT_REGISTER_POINTER)
    } else {
        None
    }
}

/// True of the units whose immediate field cannot carry their full-width
/// address or value, so that the instruction carries an extra operand word.
pub open spec fn spec_needs_operand(u: Unit) -> bool {
    u == Unit::UNIT_MEMORY_OPERAND || u == Unit::UNIT_ABS_OPERAND
}

impl Unit {
    /// Whether this unit requires the extra 32-bit operand word.
    pub fn needs_operand(self) -> (b: bool)
        ensures
            b == spec_needs_operand(self),
    {
        matches!(self, Unit::UNIT_MEMORY_OPERAND | Unit::UNIT_ABS_OPERAND)
    }

    /// The 4-bit wire code of this unit.
    pub fn to_code(self) -> (c: u32)
        ensures
            c == unit_code(self),
    {
        match self {
            Unit::UNIT_NONE => 0,
            Unit::UNIT_STACK_PUSH_POP => 1,
            Unit::UNIT_STACK_INDEX => 2,
            Unit::UNIT_REGISTER => 3,
            Unit::UNIT_ALU_LEFT => 4,
            Unit::UNIT_ALU_RIGHT => 5,
            Unit::UNIT_ALU_OPERATOR => 6,
            Unit::UNIT_ALU_RESULT => 7,
            Unit::UNIT_MEMORY_IMMEDIATE => 8,
            Unit::UNIT_MEMORY_OPERAND => 9,
            Unit::UNIT_PC => 10,
            Unit::UNIT_ABS_IMMEDIATE => 11,
            Unit::UNIT_ABS_OPERAND => 12,
            Unit::UNIT_REGISTER_POINTER => 13,
        }
    }

    /// The unit a 4-bit wire code stands for, if the code is assigned.
    pub fn from_code(c: u32) -> (r: Option<Unit>)
        ensures
            r == unit_of_code(c),
    {
        if c == 0 {
            Some(Unit::UNIT_NONE)
        } else if c == 1 {
            Some(Unit::UNIT_STACK_PUSH_POP)
        } else if c == 2 {
            Some(Unit::UNIT_STACK_INDEX)
        } else if c == 3 {
            Some(Unit::UNIT_REGISTER)
        } else if c == 4 {
            Some(Unit::UNIT_ALU_LEFT)
        } else if c == 5 {
            Some(Unit::UNIT_ALU_RIGHT)
        } else if c == 6 {
            Some(Unit::UNIT_ALU_OPERATOR)
        } else if c == 7 {
            Some(Unit::UNIT_ALU_RESULT)
        } else if c == 8 {
            Some(Unit::UNIT_MEMORY_IMMEDIATE)
        } else if c == 9 {
            Some(Unit::UNIT_MEMORY_OPERAND)
        } else if c == 10 {
            Some(Unit::UNIT_PC)
        } else if c == 11 {
            Some(Unit::UNIT_ABS_IMMEDIATE)
        } else if c == 12 {
            Some(Unit::UNIT_ABS_OPERAND)
        } else if c == 13 {
            Some(Unit::UNIT_REGISTER_POINTER)
        } else {
            None
        }
    }
}

/// One instruction of the move architecture, before encoding.
#[derive(Debug, Clone)]
pub struct Instr {
    pub src_unit: Unit,
    pub si: u16,
    pub dst_unit: Unit,
    pub di: u16,
    pub soperand: Option<u32>,
    pub doperand: Option<u32>,
}

impl Instr {
    /// Both immediates fit their 12-bit fields. Every value built through
    /// the public constructors satisfies this.
    pub open spec fn wf(self) -> bool {
        self.si < 4096 && self.di < 4096
    }

    /// An operand word is present exactly where the unit requires one.
    pub open spec fn operands_match(self) -> bool {
        &&& self.soperand.is_some() == spec_needs_operand(self.src_unit)
        &&& self.doperand.is_some() == spec_needs_operand(self.dst_unit)
    }

    /// The instruction every builder chain starts from: a transport from
    /// no source to no destination.
    pub open spec fn blank() -> Instr {
        Instr {
            src_unit: Unit::UNIT_NONE,
            si: 0,
            dst_unit: Unit::UNIT_NONE,
            di: 0,
            soperand: None,
            doperand: None,
        }
    }

    /// How many 32-bit words the instruction encodes to.
    pub open spec fn encoded_len(self) -> int {
        1 + (if spec_needs_operand(self.src_unit) {
            1int
        } else {
            0int
        }) + (if spec_needs_operand(self.dst_unit) {
            1int
        } else {
            0int
        })
    }

    pub fn new() -> (r: Instr)
        ensures
            r == Instr::blank(),
    {
        Instr {
            src_unit: Unit::UNIT_NONE,
            si: 0,
            dst_unit: Unit::UNIT_NONE,
            di: 0,
            soperand: None,
            doperand: None,
        }
    }

    pub fn src(self, unit: Unit) -> (r: Instr)
        ensures
            r == (Instr { src_unit: unit, ..self }),
    {
        Instr { src_unit: unit, ..self }
    }

    pub fn dst(self, unit: Unit) -> (r: Instr)
        ensures
            r == (Instr { dst_unit: unit, ..self }),
    {
        Instr { dst_unit: unit, ..self }
    }

    pub fn si(self, immediate: u16) -> (r: Instr)
        requires
            immediate < 4096,
        ensures
            r == (Instr { si: immediate, ..self }),
    {
        Instr { si: immediate, ..self }
    }

    pub fn di(self, immediate: u16) -> (r: Instr)
        requires
            immediate < 4096,
        ensures
            r == (Instr { di: immediate, ..self }),
    {
        Instr { di: immediate, ..self }
    }

    pub fn soperand(self, operand: u32) -> (r: Instr)
        requires
            spec_needs_operand(self.src_unit),
        ensures
            r == (Instr { soperand: Some(operand), ..self }),
    {
        Instr { soperand: Some(operand), ..self }
    }

    pub fn doperand(self, operand: u32) -> (r: Instr)
        requires
            spec_needs_operand(self.dst_unit),
        ensures
            r == (Instr { doperand: Some(operand), ..self }),
    {
        Instr { doperand: Some(operand), ..self }
    }

    pub fn uses_soperand(&self) -> (b: bool)
        ensures
            b == spec_needs_operand(self.src_unit),
    {
        self.src_unit.needs_operand()
    }

    pub fn uses_doperand(&self) -> (b: bool)
        ensures
            b == spec_needs_operand(self.dst_unit),
    {
        self.dst_unit.needs_operand()
    }
}

impl Default for Instr {
    fn default() -> (r: Instr)
        ensures
            r == Instr::blank(),
    {
        Instr::new()
    }
}

impl Instr {
    /// Push a literal onto a stack: the value travels from the absolute
    /// immediate (or, when it exceeds 12 bits, the absolute operand word)
    /// into the push/pop port of stack `stack`.
    pub fn push_immediate(self, stack: u8, value: u32) -> (r: Instr)
        ensures
            r == (Instr {
                src_unit: if value < 4096 {
                    Unit::UNIT_ABS_IMMEDIATE
                } else {
                    Unit::UNIT_ABS_OPERAND
                },
                si: if value < 4096 {
                    value as u16
                } else {
                    0u16
                },
                dst_unit: Unit::UNIT_STACK_PUSH_POP,
                di: stack as u16,
                soperand: if value < 4096 {
                    None
                } else {
                    Some(value)
                },
                doperand: None,
            }),
    {
        if value < 4096 {
            Instr {
                src_unit: Unit::UNIT_ABS_IMMEDIATE,
                si: value as u16,
                dst_unit: Unit::UNIT_STACK_PUSH_POP,
                di: stack as u16,
                soperand: None,
                doperand: None,
            }
        } else {
            Instr {
                src_unit: Unit::UNIT_ABS_OPERAND,
                si: 0,
                dst_unit: Unit::UNIT_STACK_PUSH_POP,
                di: stack as u16,
                soperand: Some(value),
                doperand: None,
            }
        }
    }

    /// Pop the top of stack `stack` into register `reg`.
    pub fn pop_to_reg(self, stack: u8, reg: u16) -> (r: Instr)
        requires
            reg < 4096,
        ensures
            r == (Instr {
                src_unit: Unit::UNIT_STACK_PUSH_POP,
                si: stack as u16,
                dst_unit: Unit::UNIT_REGISTER,
                di: reg,
                soperand: None,
                doperand: None,
            }),
    {
        Instr {
            src_unit: Unit::UNIT_STACK_PUSH_POP,
            si: stack as u16,
            dst_unit: Unit::UNIT_REGISTER,
            di: reg,
            soperand: None,
            doperand: None,
        }
    }

    /// Read the element `offset` below the top of stack `stack` into
    /// register `reg`, without changing the stack. The 12-bit immediate of
    /// the indexed-stack port packs the stack id into bits [11:8] and the
    /// offset into bits [7:0].
    pub fn stack_peek(self, stack: u8, offset: u8, reg: u16) -> (r: Instr)
        requires
            stack < 16,
            reg < 4096,
        ensures
            r == (Instr {
                src_unit: Unit::UNIT_STACK_INDEX,
                si: (((stack as u16) << 8u16) | (offset as u16)),
                dst_unit: Unit::UNIT_REGISTER,
                di: reg,
                soperand: None,
                doperand: None,
            }),
    {
        Instr {
            src_unit: Unit::UNIT_STACK_INDEX,
            si: ((stack as u16) << 8u16) | (offset as u16),
            dst_unit: Unit::UNIT_REGISTER,
            di: reg,
            soperand: None,
            doperand: None,
        }
    }

    /// Overwrite the element `offset` below the top of stack `stack` with
    /// the value of register `reg`, without changing the depth. The
    /// destination immediate packs the stack id and offset as `stack_peek`
    /// does.
    pub fn stack_poke(self, stack: u8, offset: u8, reg: u16) -> (r: Instr)
        requires
            stack < 16,
            reg < 4096,
        ensures
            r == (Instr {
                src_unit: Unit::UNIT_REGISTER,
                si: reg,
                dst_unit: Unit::UNIT_STACK_INDEX,
                di: (((stack as u16) << 8u16) | (offset as u16)),
                soperand: None,
                doperand: None,
            }),
    {
        Instr {
            src_unit: Unit::UNIT_REGISTER,
            si: reg,
            dst_unit: Unit::UNIT_STACK_INDEX,
            di: ((stack as u16) << 8u16) | (offset as u16),
            soperand: None,
            doperand: None,
        }
    }
}

/// The packed stack-id/offset immediate stays inside its 12-bit field.
pub proof fn lemma_stack_index_immediate_fits(stack: u16, offset: u16)
    requires
        stack < 16,
        offset < 256,
    ensures
        ((stack << 8u16) | offset) < 4096,
        (((stack << 8u16) | offset) >> 8u16) & 0xF == stack,
        ((stack << 8u16) | offset) & 0xFF == offset,
{
    assert(((stack << 8u16) | offset) < 4096 && (((stack << 8u16) | offset) >> 8u16) & 0xF
        == stack && ((stack << 8u16) | offset) & 0xFF == offset) by (bit_vector)
        requires
            stack < 16,
            offset < 256,
    ;
}

/// Convenience function: a blank instruction to chain the builders on.
pub fn instr() -> (r: Instr)
    ensures
        r == Instr::blank(),
{
    Instr::new()
}

/// Word 0 of the wire format: source unit code in bits [3:0], source
/// immediate in bits [15:4], destination unit code in bits [19:16],
/// destination immediate in bits [31:20].
pub open spec fn pack_word(s: u32, si: u32, d: u32, di: u32) -> u32 {
    (s & 0xF) | ((si & 0xFFF) << 4u32) | ((d & 0xF) << 16u32) | ((di & 0xFFF) << 20u32)
}

/// The full encoding of an instruction: word 0, then the source operand
/// word if present, then the destination operand word if present.
pub open spec fn encode_spec(i: Instr) -> Seq<u32> {
    let w0 = pack_word(unit_code(i.src_unit), i.si as u32, unit_code(i.dst_unit), i.di as u32);
    let with_s = if i.soperand.is_some() {
        seq![w0].push(i.soperand.unwrap())
    } else {
        seq![w0]
    };
    if i.doperand.is_some() {
        with_s.push(i.doperand.unwrap())
    } else {
        with_s
    }
}

/// The instruction a word sequence encodes, if it encodes one: the unit
/// codes of word 0 must be assigned and the length must match exactly the
/// operand words those units require.
pub open spec fn decode_spec(ws: Seq<u32>) -> Option<Instr> {
    if ws.len() == 0 {
        None
    } else {
        let w0 = ws[0];
        let sc = w0 & 0xF;
        let dc = (w0 >> 16u32) & 0xF;
        if unit_of_code(sc).is_some() && unit_of_code(dc).is_some() {
            let su = unit_of_code(sc).unwrap();
            let du = unit_of_code(dc).unwrap();
            let n = 1 + (if spec_needs_operand(su) {
                1int
            } else {
                0int
            }) + (if spec_needs_operand(du) {
                1int
            } else {
                0int
            });
            if ws.len() == n {
                Some(
                    Instr {
                        src_unit: su,
                        si: ((w0 >> 4u32) & 0xFFF) as u16,
                        dst_unit: du,
                        di: ((w0 >> 20u32) & 0xFFF) as u16,
                        soperand: if spec_needs_operand(su) {
                            Some(ws[1])
                        } else {
                            None
                        },
                        doperand: if spec_needs_operand(du) {
                            Some(ws[n - 1])
                        } else {
                            None
                        },
                    },
                )
            } else {
                None
            }
        } else {
            None
        }
    }
}

/// Each field of a packed word reads back unchanged.
pub proof fn lemma_unpack(s: u32, si: u32, d: u32, di: u32)
    requires
        s < 16,
        si < 4096,
        d < 16,
        di < 4096,
    ensures
        pack_word(s, si, d, di) & 0xF == s,
        (pack_word(s, si, d, di) >> 4u32) & 0xFFF == si,
        (pack_word(s, si, d, di) >> 16u32) & 0xF == d,
        (pack_word(s, si, d, di) >> 20u32) & 0xFFF == di,
{
    assert(pack_word(s, si, d, di) & 0xF == s && (pack_word(s, si, d, di) >> 4u32) & 0xFFF == si
        && (pack_word(s, si, d, di) >> 16u32) & 0xF == d && (pack_word(s, si, d, di) >> 20u32)
        & 0xFFF == di) by (bit_vector)
        requires
            s < 16,
            si < 4096,
            d < 16,
            di < 4096,
    ;
}

/// Re-packing the four fields of any word yields the word: the fields
/// cover all 32 bits.
pub proof fn lemma_repack(w: u32)
    ensures
        pack_word(w & 0xF, (w >> 4u32) & 0xFFF, (w >> 16u32) & 0xF, (w >> 20u32) & 0xFFF) == w,
{
    assert(pack_word(w & 0xF, (w >> 4u32) & 0xFFF, (w >> 16u32) & 0xF, (w >> 20u32) & 0xFFF)
        == w) by (bit_vector);
}

/// Every unit code is 4 bits wide and decodes back to its unit.
pub proof fn lemma_unit_code_round_trip(u: Unit)
    ensures
        unit_code(u) < 16,
        unit_of_code(unit_code(u)) == Some(u),
{
}

impl Instr {
    /// Encode the instruction into its 1–3 wire words.
    pub fn assemble(&self) -> (words: Vec<u32>)
        requires
            self.wf(),
            self.operands_match(),
        ensures
            words@ == encode_spec(*self),
            words@.len() == self.encoded_len(),
    {
        let packed: u32 = (self.src_unit.to_code() & 0xF) | (((self.si as u32) & 0xFFF) << 4u32)
            | ((self.dst_unit.to_code() & 0xF) << 16u32) | (((self.di as u32) & 0xFFF) << 20u32);
        let mut words: Vec<u32> = Vec::new();
        words.push(packed);
        if let Some(sop) = self.soperand {
            words.push(sop);
        }
        if let Some(dop) = self.doperand {
            words.push(dop);
        }
        proof {
            assert(words@ =~= encode_spec(*self));
        }
        words
    }
}

/// Decode a word sequence, accepting exactly the encodings `assemble`
/// produces: `decode` returns an instruction if and only if the words are
/// its encoding.
pub fn decode(words: &Vec<u32>) -> (r: Option<Instr>)
    ensures
        r == decode_spec(words@),
{
    if words.len() == 0 {
        return None;
    }
    let w0: u32 = words[0];
    let src_u = Unit::from_code(w0 & 0xF);
    let dst_u = Unit::from_code((w0 >> 16u32) & 0xF);
    if src_u.is_none() || dst_u.is_none() {
        return None;
    }
    let su = src_u.unwrap();
    let du = dst_u.unwrap();
    let expected: usize = 1 + (if su.needs_operand() {
        1usize
    } else {
        0usize
    }) + (if du.needs_operand() {
        1usize
    } else {
        0usize
    });
    if words.len() != expected {
        return None;
    }
    let si_bits: u32 = (w0 >> 4u32) & 0xFFF;
    let di_bits: u32 = (w0 >> 20u32) & 0xFFF;
    proof {
        assert((w0 >> 4u32) & 0xFFF < 4096 && (w0 >> 20u32) & 0xFFF < 4096) by (bit_vector);
    }
    let soperand: Option<u32> = if su.needs_operand() {
        Some(words[1])
    } else {
        None
    };
    let doperand: Option<u32> = if du.needs_operand() {
        Some(words[expected - 1])
    } else {
        None
    };
    Some(
        Instr {
            src_unit: su,
            si: si_bits as u16,
            dst_unit: du,
            di: di_bits as u16,
            soperand,
            doperand,
        },
    )
}

/// Law: encoding then decoding returns the original instruction, and the
/// encoded length is one word plus one per required operand.
pub proof fn lemma_encode_decode_round_trip(i: Instr)
    requires
        i.wf(),
        i.operands_match(),
    ensures
        decode_spec(encode_spec(i)) == Some(i),
        encode_spec(i).len() == i.encoded_len(),
{
    let ws = encode_spec(i);
    lemma_unit_code_round_trip(i.src_unit);
    lemma_unit_code_round_trip(i.dst_unit);
    lemma_unpack(unit_code(i.src_unit), i.si as u32, unit_code(i.dst_unit), i.di as u32);
    assert(decode_spec(ws) == Some(i));
}

/// Law: decoding is exact in the other direction too: any word sequence
/// that decodes re-encodes to itself, and the decoded instruction is a
/// well-formed one with matching operands.
pub proof fn lemma_decode_encode_round_trip(ws: Seq<u32>)
    requires
        decode_spec(ws).is_some(),
    ensures
        decode_spec(ws).unwrap().wf(),
        decode_spec(ws).unwrap().operands_match(),
        encode_spec(decode_spec(ws).unwrap()) == ws,
{
    let i = decode_spec(ws).unwrap();
    let w0 = ws[0];
    lemma_unit_code_round_trip(i.src_unit);
    lemma_unit_code_round_trip(i.dst_unit);
    assert((w0 >> 4u32) & 0xFFF < 4096 && (w0 >> 20u32) & 0xFFF < 4096) by (bit_vector);
    assert(unit_code(i.src_unit) == w0 & 0xF);
    assert(unit_code(i.dst_unit) == (w0 >> 16u32) & 0xF);
    lemma_repack(w0);
    assert(encode_spec(i)[0] == w0);
    assert(encode_spec(i) =~= ws);
}

} // verus!

//! The sequencer: the state machine that fetches an instruction over the
//! instruction bus, decodes it, resolves the source value and commits it
//! to the destination, pulsing `done` for one cycle per instruction.
//!
//! One call of [`Processor::step`] is one rising clock edge. The whole
//! cycle-level behaviour is a single transition function on the abstract
//! state, [`next`], and `step` is proved to follow it exactly. While reset
//! is asserted the core does nothing, and releasing reset always starts
//! from the same cleared state. A bus transaction is issued by driving the
//! channel's signals and completes on the first step that sees `ready`;
//! until then the signals are held stable.
//!
//! Unit selection inside the 12-bit immediates: the register port uses the
//! whole immediate as a register index; the arithmetic/logic ports select
//! one of the [`ALU_COUNT`] instances by the low 4 bits; the push/pop
//! stack port selects one of the [`STACK_COUNT`] stacks by the low 4 bits;
//! the indexed stack port packs the stack id into bits [11:8] and the
//! element offset into bits [7:0]. A write to a read-only or unassigned
//! port is discarded, and a read from a write-only or unassigned port
//! yields 0: reserved encodings act as a no-op transport.

use vstd::prelude::*;

use crate::alu::{ALUBank, AluInstance, alu_reset_state, alu_with_left, alu_with_op, alu_with_right};
use crate::assembler::{spec_needs_operand, unit_of_code, Unit};
use crate::bus::{bus_idle, bus_read, bus_write, BusChannel, BusInputs};
use crate::regfile::RegisterFile;
use crate::stack::StackBank;

verus! {

/// How many registers the core instantiates: every 12-bit index is backed.
pub const REG_COUNT: usize = 4096;

/// How many independent arithmetic/logic unit instances the core
/// instantiates.
pub const ALU_COUNT: usize = 16;

/// How many independent stacks the core instantiates.
pub const STACK_COUNT: usize = 16;

/// The micro-step the sequencer is in.
#[derive(Debug, Clone, Copy, PartialEq, Eq, Structural)]
pub enum SeqState {
    /// Held in reset; nothing happens until the reset line drops.
    Reset,
    /// About to drive the instruction-bus read for word 0.
    FetchIssue,
    /// Instruction-bus read for word 0 outstanding.
    FetchWait,
    /// Instruction-bus read for the source operand word outstanding.
    SrcOperandWait,
    /// Instruction-bus read for the destination operand word outstanding.
    DstOperandWait,
    /// Produce the source value from the source unit.
    Resolve,
    /// Data-bus read for a memory source outstanding.
    MemReadWait,
    /// Consume the resolved value into an internal destination unit.
    Commit,
    /// Data-bus write for a memory destination outstanding.
    CommitWait,
    /// Pulse `done`, advance the program counter, start the next fetch.
    Done,
}

/// The decoded fields of the instruction in flight.
#[derive(Debug, Clone, Copy, PartialEq, Eq, Structural)]
pub struct CurInstr {
    pub src_unit: Unit,
    pub si: u16,
    pub dst_unit: Unit,
    pub di: u16,
    pub sop: u32,
    pub dop: u32,
    pub words: u32,
}

/// No instruction in flight.
pub open spec fn blank_cur() -> CurInstr {
    CurInstr {
        src_unit: Unit::UNIT_NONE,
        si: 0,
        dst_unit: Unit::UNIT_NONE,
        di: 0,
        sop: 0,
        dop: 0,
        words: 1,
    }
}

/// Runtime reading of a 4-bit unit code: the two unassigned codes act as
/// the no-op unit rather than faulting.
pub open spec fn unit_of_code_total(c: u32) -> Unit {
    match unit_of_code(c) {
        Some(u) => u,
        None => Unit::UNIT_NONE,
    }
}

/// Decode word 0 into the in-flight instruction fields, counting how many
/// words the instruction occupies.
pub open spec fn decode_fields(w0: u32) -> CurInstr {
    let su = unit_of_code_total(w0 & 0xF);
    let du = unit_of_code_total((w0 >> 16u32) & 0xF);
    CurInstr {
        src_unit: su,
        si: ((w0 >> 4u32) & 0xFFF) as u16,
        dst_unit: du,
        di: ((w0 >> 20u32) & 0xFFF) as u16,
        sop: 0,
        dop: 0,
        words: (1 + (if spec_needs_operand(su) {
            1int
        } else {
            0int
        }) + (if spec_needs_operand(du) {
            1int
        } else {
            0int
        })) as u32,
    }
}

/// 32-bit program-counter addition, wrapping around like the hardware
/// counter.
pub open spec fn wrap_add32(a: u32, k: u32) -> u32 {
    (((a + k) % 0x1_0000_0000) as u32)
}

/// The whole architectural state of one processor instance, as the
/// contracts speak of it.
#[verifier::ext_equal]
pub struct ProcView {
    pub state: SeqState,
    pub pc: u32,
    pub done: bool,
    pub jumped: bool,
    pub regs: Seq<u32>,
    pub alus: Seq<AluInstance>,
    pub stacks: Seq<Seq<u32>>,
    pub ibus: BusChannel,
    pub dbus: BusChannel,
    pub cur: CurInstr,
    pub value: u32,
}

/// The state the core holds while reset is asserted: everything cleared.
pub open spec fn reset_view() -> ProcView {
    ProcView {
        state: SeqState::Reset,
        pc: 0,
        done: false,
        jumped: false,
        regs: Seq::new(REG_COUNT as nat, |i: int| 0u32),
        alus: Seq::new(ALU_COUNT as nat, |i: int| alu_reset_state()),
        stacks: Seq::new(STACK_COUNT as nat, |i: int| Seq::<u32>::empty()),
        ibus: bus_idle(),
        dbus: bus_idle(),
        cur: blank_cur(),
        value: 0,
    }
}

/// After word 0 arrives: decode it, then either fetch the operand words
/// (source first) or go resolve the source.
pub open spec fn after_fetch(v: ProcView, w0: u32) -> ProcView {
    let cur = decode_fields(w0);
    if spec_needs_operand(cur.src_unit) {
        ProcView {
            state: SeqState::SrcOperandWait,
            done: false,
            ibus: bus_read(wrap_add32(v.pc, 1)),
            cur,
            ..v
        }
    } else if spec_needs_operand(cur.dst_unit) {
        ProcView {
            state: SeqState::DstOperandWait,
            done: false,
            ibus: bus_read(wrap_add32(v.pc, 1)),
            cur,
            ..v
        }
    } else {
        ProcView { state: SeqState::Resolve, done: false, ibus: bus_idle(), cur, ..v }
    }
}

/// After the source operand word arrives.
pub open spec fn after_src_operand(v: ProcView, w: u32) -> ProcView {
    let cur = CurInstr { sop: w, ..v.cur };
    if spec_needs_operand(cur.dst_unit) {
        ProcView {
            state: SeqState::DstOperandWait,
            done: false,
            ibus: bus_read(wrap_add32(v.pc, 2)),
            cur,
            ..v
        }
    } else {
        ProcView { state: SeqState::Resolve, done: false, ibus: bus_idle(), cur, ..v }
    }
}

/// After the destination operand word arrives.
pub open spec fn after_dst_operand(v: ProcView, w: u32) -> ProcView {
    ProcView {
        state: SeqState::Resolve,
        done: false,
        ibus: bus_idle(),
        cur: CurInstr { dop: w, ..v.cur },
        ..v
    }
}

/// Route a resolved source value towards its destination: a memory
/// destination starts the data-bus write here; everything else commits
/// internally on the next step.
pub open spec fn route_value_spec(v: ProcView, value: u32) -> ProcView {
    if v.cur.dst_unit == Unit::UNIT_MEMORY_IMMEDIATE {
        ProcView {
            state: SeqState::CommitWait,
            done: false,
            value,
            dbus: bus_write(v.cur.di as u32, value),
            ..v
        }
    } else if v.cur.dst_unit == Unit::UNIT_MEMORY_OPERAND {
        ProcView {
            state: SeqState::CommitWait,
            done: false,
            value,
            dbus: bus_write(v.cur.dop, value),
            ..v
        }
    } else {
        ProcView { state: SeqState::Commit, done: false, value, ..v }
    }
}

/// What one stack pop leaves and yields, mirroring the stack bank.
pub open spec fn popped_stacks(stacks: Seq<Seq<u32>>, id: int) -> Seq<Seq<u32>> {
    if 0 <= id < stacks.len() && stacks[id].len() > 0 {
        stacks.update(id, stacks[id].drop_last())
    } else {
        stacks
    }
}

/// The value a pop yields: the top, or 0 from an empty or unassigned
/// stack.
pub open spec fn popped_value(stacks: Seq<Seq<u32>>, id: int) -> u32 {
    if 0 <= id < stacks.len() && stacks[id].len() > 0 {
        stacks[id].last()
    } else {
        0u32
    }
}

/// The value a peek yields.
pub open spec fn peeked_value(stacks: Seq<Seq<u32>>, id: int, off: int) -> u32 {
    if 0 <= id < stacks.len() && 0 <= off < stacks[id].len() {
        stacks[id][stacks[id].len() - 1 - off]
    } else {
        0u32
    }
}

/// Resolve the source unit into a 32-bit value. Register, stack and
/// arithmetic/logic reads complete in this step; a memory source starts
/// the data-bus read instead.
pub open spec fn resolve_step(v: ProcView) -> ProcView {
    match v.cur.src_unit {
        Unit::UNIT_NONE => route_value_spec(v, 0),
        Unit::UNIT_STACK_PUSH_POP => {
            let id = (v.cur.si & 0xF) as int;
            route_value_spec(
                ProcView { stacks: popped_stacks(v.stacks, id), ..v },
                popped_value(v.stacks, id),
            )
        },
        Unit::UNIT_STACK_INDEX => route_value_spec(
            v,
            peeked_value(v.stacks, ((v.cur.si >> 8u16) & 0xF) as int, (v.cur.si & 0xFF) as int),
        ),
        Unit::UNIT_REGISTER => route_value_spec(
            v,
            if v.cur.si < v.regs.len() {
                v.regs[v.cur.si as int]
            } else {
                0u32
            },
        ),
        Unit::UNIT_ALU_LEFT => route_value_spec(
            v,
            if (v.cur.si & 0xF) < v.alus.len() {
                v.alus[(v.cur.si & 0xF) as int].left
            } else {
                0u32
            },
        ),
        Unit::UNIT_ALU_RIGHT => route_value_spec(
            v,
            if (v.cur.si & 0xF) < v.alus.len() {
                v.alus[(v.cur.si & 0xF) as int].right
            } else {
                0u32
            },
        ),
        Unit::UNIT_ALU_OPERATOR => route_value_spec(v, 0),
        Unit::UNIT_ALU_RESULT => route_value_spec(
            v,
            if (v.cur.si & 0xF) < v.alus.len() {
                v.alus[(v.cur.si & 0xF) as int].result
            } else {
                0u32
            },
        ),
        Unit::UNIT_MEMORY_IMMEDIATE => ProcView {
            state: SeqState::MemReadWait,
            done: false,
            dbus: bus_read(v.cur.si as u32),
            ..v
        },
        Unit::UNIT_MEMORY_OPERAND => ProcView {
            state: SeqState::MemReadWait,
            done: false,
            dbus: bus_read(v.cur.sop),
            ..v
        },
        Unit::UNIT_PC => route_value_spec(v, v.pc),
        Unit::UNIT_ABS_IMMEDIATE => route_value_spec(v, v.cur.si as u32),
        Unit::UNIT_ABS_OPERAND => route_value_spec(v, v.cur.sop),
        Unit::UNIT_REGISTER_POINTER => ProcView {
            state: SeqState::MemReadWait,
            done: false,
            dbus: bus_read(
                if v.cur.si < v.regs.len() {
                    v.regs[v.cur.si as int]
                } else {
                    0u32
                },
            ),
            ..v
        },
    }
}

/// Consume the resolved value into an internal destination unit. Writes
/// to read-only or unassigned ports are discarded; a write to the program
/// counter is a control transfer, so the counter is not advanced again
/// when the instruction completes.
pub open spec fn commit_step(v: ProcView) -> ProcView {
    match v.cur.dst_unit {
        Unit::UNIT_STACK_PUSH_POP => {
            let id = (v.cur.di & 0xF) as int;
            ProcView {
                state: SeqState::Done,
                done: false,
                stacks: if 0 <= id < v.stacks.len() {
                    v.stacks.update(id, v.stacks[id].push(v.value))
                } else {
                    v.stacks
                },
                ..v
            }
        },
        Unit::UNIT_STACK_INDEX => {
            let id = ((v.cur.di >> 8u16) & 0xF) as int;
            let off = (v.cur.di & 0xFF) as int;
            ProcView {
                state: SeqState::Done,
                done: false,
                stacks: if 0 <= id < v.stacks.len() && 0 <= off < v.stacks[id].len() {
                    v.stacks.update(id, v.stacks[id].update(v.stacks[id].len() - 1 - off, v.value))
                } else {
                    v.stacks
                },
                ..v
            }
        },
        Unit::UNIT_REGISTER => ProcView {
            state: SeqState::Done,
            done: false,
            regs: if v.cur.di < v.regs.len() {
                v.regs.update(v.cur.di as int, v.value)
            } else {
                v.regs
            },
            ..v
        },
        Unit::UNIT_ALU_LEFT => ProcView {
            state: SeqState::Done,
            done: false,
            alus: if (v.cur.di & 0xF) < v.alus.len() {
                v.alus.update(
                    (v.cur.di & 0xF) as int,
                    alu_with_left(v.alus[(v.cur.di & 0xF) as int], v.value),
                )
            } else {
                v.alus
            },
            ..v
        },
        Unit::UNIT_ALU_RIGHT => ProcView {
            state: SeqState::Done,
            done: false,
            alus: if (v.cur.di & 0xF) < v.alus.len() {
                v.alus.update(
                    (v.cur.di & 0xF) as int,
                    alu_with_right(v.alus[(v.cur.di & 0xF) as int], v.value),
                )
            } else {
                v.alus
            },
            ..v
        },
        Unit::UNIT_ALU_OPERATOR => ProcView {
            state: SeqState::Done,
            done: false,
            alus: if (v.cur.di & 0xF) < v.alus.len() {
                v.alus.update(
                    (v.cur.di & 0xF) as int,
                    alu_with_op(v.alus[(v.cur.di & 0xF) as int], v.value),
                )
            } else {
                v.alus
            },
            ..v
        },
        Unit::UNIT_PC => ProcView {
            state: SeqState::Done,
            done: false,
            pc: v.value,
            jumped: true,
            ..v
        },
        _ => ProcView { state: SeqState::Done, done: false, ..v },
    }
}

/// Complete the instruction: pulse `done` for this one cycle, advance the
/// program counter past the words consumed (unless a control transfer
/// already set it), and start fetching the next instruction.
pub open spec fn done_step(v: ProcView) -> ProcView {
    let pc = if v.jumped {
        v.pc
    } else {
        wrap_add32(v.pc, v.cur.words)
    };
    ProcView {
        state: SeqState::FetchWait,
        done: true,
        jumped: false,
        pc,
        ibus: bus_read(pc),
        ..v
    }
}

/// The transition the core makes on one rising clock edge, given the
/// reset line and the bus answers. Asserting reset clears everything,
/// whatever was in flight. In a wait state without `ready`, the bus
/// signals are held stable and nothing else changes.
pub open spec fn next(v: ProcView, rst: bool, inp: BusInputs) -> ProcView {
    if rst {
        reset_view()
    } else {
        match v.state {
            SeqState::Reset => ProcView { state: SeqState::FetchIssue, done: false, ..v },
            SeqState::FetchIssue => ProcView {
                state: SeqState::FetchWait,
                done: false,
                ibus: bus_read(v.pc),
                ..v
            },
            SeqState::FetchWait => if inp.instr_ready {
                after_fetch(v, inp.instr_read_data)
            } else {
                ProcView { done: false, ..v }
            },
            SeqState::SrcOperandWait => if inp.instr_ready {
                after_src_operand(v, inp.instr_read_data)
            } else {
                ProcView { done: false, ..v }
            },
            SeqState::DstOperandWait => if inp.instr_ready {
                after_dst_operand(v, inp.instr_read_data)
            } else {
                ProcView { done: false, ..v }
            },
            SeqState::Resolve => resolve_step(v),
            SeqState::MemReadWait => if inp.data_ready {
                route_value_spec(
                    ProcView { dbus: bus_idle(), done: false, ..v },
                    inp.data_read_data,
                )
            } else {
                ProcView { done: false, ..v }
            },
            SeqState::Commit => commit_step(v),
            SeqState::CommitWait => if inp.data_ready {
                ProcView { state: SeqState::Done, done: false, dbus: bus_idle(), ..v }
            } else {
                ProcView { done: false, ..v }
            },
            SeqState::Done => done_step(v),
        }
    }
}

/// One processor instance: the sequencer and the functional units it
/// exclusively owns. The memory on the far side of the two bus channels
/// belongs to the environment.
pub struct Processor {
    state: SeqState,
    pc: u32,
    done: bool,
    jumped: bool,
    regs: RegisterFile,
    alus: ALUBank,
    stacks: StackBank,
    ibus: BusChannel,
    dbus: BusChannel,
    cur: CurInstr,
    value: u32,
}

impl View for Processor {
    type V = ProcView;

    closed spec fn view(&self) -> ProcView {
        ProcView {
            state: self.state,
            pc: self.pc,
            done: self.done,
            jumped: self.jumped,
            regs: self.regs@,
            alus: self.alus@,
            stacks: self.stacks@,
            ibus: self.ibus,
            dbus: self.dbus,
            cur: self.cur,
            value: self.value,
        }
    }
}

impl Processor {
    /// A fresh core, held in reset.
    pub fn new() -> (r: Processor)
        ensures
            r@ == reset_view(),
    {
        let r = Processor {
            state: SeqState::Reset,
            pc: 0,
            done: false,
            jumped: false,
            regs: RegisterFile::new(REG_COUNT),
            alus: ALUBank::new(ALU_COUNT),
            stacks: StackBank::new(STACK_COUNT),
            ibus: BusChannel::idle(),
            dbus: BusChannel::idle(),
            cur: CurInstr {
                src_unit: Unit::UNIT_NONE,
                si: 0,
                dst_unit: Unit::UNIT_NONE,
                di: 0,
                sop: 0,
                dop: 0,
                words: 1,
            },
            value: 0,
        };
        proof {
            assert(r@ =~~= reset_view());
        }
        r
    }

    /// The signals driven on the instruction channel.
    pub fn instr_bus(&self) -> (r: BusChannel)
        ensures
            r == self@.ibus,
    {
        self.ibus
    }

    /// The signals driven on the data channel.
    pub fn data_bus(&self) -> (r: BusChannel)
        ensures
            r == self@.dbus,
    {
        self.dbus
    }

    /// The one-cycle completion pulse.
    pub fn done(&self) -> (b: bool)
        ensures
            b == self@.done,
    {
        self.done
    }

    /// The program counter.
    pub fn pc(&self) -> (r: u32)
        ensures
            r == self@.pc,
    {
        self.pc
    }

    fn apply_reset(&mut self)
        ensures
            final(self)@ == reset_view(),
    {
        self.state = SeqState::Reset;
        self.pc = 0;
        self.done = false;
        self.jumped = false;
        self.regs = RegisterFile::new(REG_COUNT);
        self.alus = ALUBank::new(ALU_COUNT);
        self.stacks = StackBank::new(STACK_COUNT);
        self.ibus = BusChannel::idle();
        self.dbus = BusChannel::idle();
        self.cur = CurInstr {
            src_unit: Unit::UNIT_NONE,
            si: 0,
            dst_unit: Unit::UNIT_NONE,
            di: 0,
            sop: 0,
            dop: 0,
            words: 1,
        };
        self.value = 0;
        proof {
            assert(self@ =~~= reset_view());
        }
    }

    fn wrap_add_pc(a: u32, k: u32) -> (r: u32)
        ensures
            r == wrap_add32(a, k),
    {
        ((a as u64 + k as u64) % 0x1_0000_0000u64) as u32
    }

    fn route_value(&mut self, value: u32)
        ensures
            final(self)@ == route_value_spec(old(self)@, value),
    {
        self.value = value;
        self.done = false;
        if matches!(self.cur.dst_unit, Unit::UNIT_MEMORY_IMMEDIATE) {
            self.dbus = BusChannel::write(self.cur.di as u32, value);
            self.state = SeqState::CommitWait;
        } else if matches!(self.cur.dst_unit, Unit::UNIT_MEMORY_OPERAND) {
            self.dbus = BusChannel::write(self.cur.dop, value);
            self.state = SeqState::CommitWait;
        } else {
            self.state = SeqState::Commit;
        }
        proof {
            assert(self@ =~~= route_value_spec(old(self)@, value));
        }
    }

    fn do_fetch_wait(&mut self, inp: BusInputs)
        requires
            old(self)@.state == SeqState::FetchWait,
        ensures
            final(self)@ == next(old(self)@, false, inp),
    {
        self.done = false;
        if inp.instr_ready {
            let w0: u32 = inp.instr_read_data;
            let su: Unit = match Unit::from_code(w0 & 0xF) {
                Some(u) => u,
                None => Unit::UNIT_NONE,
            };
            let du: Unit = match Unit::from_code((w0 >> 16u32) & 0xF) {
                Some(u) => u,
                None => Unit::UNIT_NONE,
            };
            proof {
                assert((w0 >> 4u32) & 0xFFF < 4096 && (w0 >> 20u32) & 0xFFF < 4096)
                    by (bit_vector);
            }
            let needs_s: bool = su.needs_operand();
            let needs_d: bool = du.needs_operand();
            let words: u32 = 1 + (if needs_s {
                1u32
            } else {
                0u32
            }) + (if needs_d {
                1u32
            } else {
                0u32
            });
            self.cur = CurInstr {
                src_unit: su,
                si: ((w0 >> 4u32) & 0xFFF) as u16,
                dst_unit: du,
                di: ((w0 >> 20u32) & 0xFFF) as u16,
                sop: 0,
                dop: 0,
                words,
            };
            if needs_s {
                self.ibus = BusChannel::read(Self::wrap_add_pc(self.pc, 1));
                self.state = SeqState::SrcOperandWait;
            } else if needs_d {
                self.ibus = BusChannel::read(Self::wrap_add_pc(self.pc, 1));
                self.state = SeqState::DstOperandWait;
            } else {
                self.ibus = BusChannel::idle();
                self.state = SeqState::Resolve;
            }
            proof {
                assert(self@ =~~= after_fetch(old(self)@, w0));
            }
        }
    }

    fn do_src_operand_wait(&mut self, inp: BusInputs)
        requires
            old(self)@.state == SeqState::SrcOperandWait,
        ensures
            final(self)@ == next(old(self)@, false, inp),
    {
        self.done = false;
        if inp.instr_ready {
            self.cur = CurInstr { sop: inp.instr_read_data, ..self.cur };
            if self.cur.dst_unit.needs_operand() {
                self.ibus = BusChannel::read(Self::wrap_add_pc(self.pc, 2));
                self.state = SeqState::DstOperandWait;
            } else {
                self.ibus = BusChannel::idle();
                self.state = SeqState::Resolve;
            }
            proof {
                assert(self@ =~~= after_src_operand(old(self)@, inp.instr_read_data));
            }
        }
    }

    fn do_dst_operand_wait(&mut self, inp: BusInputs)
        requires
            old(self)@.state == SeqState::DstOperandWait,
        ensures
            final(self)@ == next(old(self)@, false, inp),
    {
        self.done = false;
        if inp.instr_ready {
            self.cur = CurInstr { dop: inp.instr_read_data, ..self.cur };
            self.ibus = BusChannel::idle();
            self.state = SeqState::Resolve;
            proof {
                assert(self@ =~~= after_dst_operand(old(self)@, inp.instr_read_data));
            }
        }
    }

    fn do_resolve(&mut self)
        requires
            old(self)@.state == SeqState::Resolve,
        ensures
            final(self)@ == resolve_step(old(self)@),
    {
        self.done = false;
        match self.cur.src_unit {
            Unit::UNIT_NONE => {
                self.route_value(0);
            },
            Unit::UNIT_STACK_PUSH_POP => {
                let id: usize = (self.cur.si & 0xF) as usize;
                let v: u32 = self.stacks.pop(id);
                self.route_value(v);
            },
            Unit::UNIT_STACK_INDEX => {
                let id: usize = ((self.cur.si >> 8u16) & 0xF) as usize;
                let off: usize = (self.cur.si & 0xFF) as usize;
                let v: u32 = self.stacks.peek(id, off);
                self.route_value(v);
            },
            Unit::UNIT_REGISTER => {
                let v: u32 = self.regs.read(self.cur.si as usize);
                self.route_value(v);
            },
            Unit::UNIT_ALU_LEFT => {
                let v: u32 = self.alus.read_left((self.cur.si & 0xF) as usize);
                self.route_value(v);
            },
            Unit::UNIT_ALU_RIGHT => {
                let v: u32 = self.alus.read_right((self.cur.si & 0xF) as usize);
                self.route_value(v);
            },
            Unit::UNIT_ALU_OPERATOR => {
                self.route_value(0);
            },
            Unit::UNIT_ALU_RESULT => {
                let v: u32 = self.alus.read_result((self.cur.si & 0xF) as usize);
                self.route_value(v);
            },
            Unit::UNIT_MEMORY_IMMEDIATE => {
                self.dbus = BusChannel::read(self.cur.si as u32);
                self.state = SeqState::MemReadWait;
            },
            Unit::UNIT_MEMORY_OPERAND => {
                self.dbus = BusChannel::read(self.cur.sop);
                self.state = SeqState::MemReadWait;
            },
            Unit::UNIT_PC => {
                let v: u32 = self.pc;
                self.route_value(v);
            },
            Unit::UNIT_ABS_IMMEDIATE => {
                let v: u32 = self.cur.si as u32;
                self.route_value(v);
            },
            Unit::UNIT_ABS_OPERAND => {
                let v: u32 = self.cur.sop;
                self.route_value(v);
            },
            Unit::UNIT_REGISTER_POINTER => {
                let a: u32 = self.regs.read(self.cur.si as usize);
                self.dbus = BusChannel::read(a);
                self.state = SeqState::MemReadWait;
            },
        }
        proof {
            assert(self@ =~~= resolve_step(old(self)@));
        }
    }

    fn do_commit(&mut self)
        requires
            old(self)@.state == SeqState::Commit,
        ensures
            final(self)@ == commit_step(old(self)@),
    {
        self.done = false;
        match self.cur.dst_unit {
            Unit::UNIT_STACK_PUSH_POP => {
                self.stacks.push((self.cur.di & 0xF) as usize, self.value);
            },
            Unit::UNIT_STACK_INDEX => {
                self.stacks.poke(
                    ((self.cur.di >> 8u16) & 0xF) as usize,
                    (self.cur.di & 0xFF) as usize,
                    self.value,
                );
            },
            Unit::UNIT_REGISTER => {
                self.regs.write(self.cur.di as usize, self.value);
            },
            Unit::UNIT_ALU_LEFT => {
                self.alus.write_left((self.cur.di & 0xF) as usize, self.value);
            },
            Unit::UNIT_ALU_RIGHT => {
                self.alus.write_right((self.cur.di & 0xF) as usize, self.value);
            },
            Unit::UNIT_ALU_OPERATOR => {
                self.alus.write_operator((self.cur.di & 0xF) as usize, self.value);
            },
            Unit::UNIT_PC => {
                self.pc = self.value;
                self.jumped = true;
            },
            _ => {},
        }
        self.state = SeqState::Done;
        proof {
            assert(self@ =~~= commit_step(old(self)@));
        }
    }

    fn do_done(&mut self)
        requires
            old(self)@.state == SeqState::Done,
        ensures
            final(self)@ == done_step(old(self)@),
    {
        if !self.jumped {
            self.pc = Self::wrap_add_pc(self.pc, self.cur.words);
        }
        self.jumped = false;
        self.done = true;
        self.ibus = BusChannel::read(self.pc);
        self.state = SeqState::FetchWait;
        proof {
            assert(self@ =~~= done_step(old(self)@));
        }
    }

    /// Advance one clock edge: see [`next`] for exactly what happens.
    pub fn step(&mut self, rst: bool, inp: BusInputs)
        ensures
            final(self)@ == next(old(self)@, rst, inp),
    {
        if rst {
            self.apply_reset();
            return ;
        }
        match self.state {
            SeqState::Reset => {
                self.done = false;
                self.state = SeqState::FetchIssue;
                proof {
                    assert(self@ =~~= next(old(self)@, false, inp));
                }
            },
            SeqState::FetchIssue => {
                self.done = false;
                self.ibus = BusChannel::read(self.pc);
                self.state = SeqState::FetchWait;
                proof {
                    assert(self@ =~~= next(old(self)@, false, inp));
                }
            },
            SeqState::FetchWait => {
                self.do_fetch_wait(inp);
            },
            SeqState::SrcOperandWait => {
                self.do_src_operand_wait(inp);
            },
            SeqState::DstOperandWait => {
                self.do_dst_operand_wait(inp);
            },
            SeqState::Resolve => {
                self.do_resolve();
            },
            SeqState::MemReadWait => {
                self.done = false;
                if inp.data_ready {
                    self.dbus = BusChannel::idle();
                    self.route_value(inp.data_read_data);
                }
                proof {
                    assert(self@ =~~= next(old(self)@, false, inp));
                }
            },
            SeqState::Commit => {
                self.do_commit();
            },
            SeqState::CommitWait => {
                self.done = false;
                if inp.data_ready {
                    self.dbus = BusChannel::idle();
                    self.state = SeqState::Done;
                }
                proof {
                    assert(self@ =~~= next(old(self)@, false, inp));
                }
            },
            SeqState::Done => {
                self.do_done();
            },
        }
    }
}

/// Law: reset is deterministic. Whatever two states two cores are in and
/// whatever their buses answer, asserting reset and then releasing it
/// leaves both in one and the same defined state, ready to fetch.
pub proof fn lemma_reset_determinism(
    v1: ProcView,
    v2: ProcView,
    i1: BusInputs,
    i2: BusInputs,
    j1: BusInputs,
    j2: BusInputs,
)
    ensures
        next(next(v1, true, i1), false, j1) == next(next(v2, true, i2), false, j2),
        next(next(v1, true, i1), false, j1).state == SeqState::FetchIssue,
        next(v1, true, i1) == reset_view(),
{
}

/// Law: the bus signals are held stable. In any state that waits on a
/// channel, a cycle without `ready` changes nothing but the completion
/// pulse, which stays clear; in particular `valid` is not deasserted
/// before the transaction completes.
pub proof fn lemma_bus_outputs_held(v: ProcView, inp: BusInputs)
    requires
        (v.state == SeqState::FetchWait || v.state == SeqState::SrcOperandWait || v.state
            == SeqState::DstOperandWait) && !inp.instr_ready || (v.state == SeqState::MemReadWait
            || v.state == SeqState::CommitWait) && !inp.data_ready,
    ensures
        next(v, false, inp) == (ProcView { done: false, ..v }),
{
}

/// Law: a transport from a register to the same register leaves the whole
/// register file unchanged.
pub proof fn lemma_register_transport_to_self(v: ProcView, i1: BusInputs, i2: BusInputs)
    requires
        v.state == SeqState::Resolve,
        v.cur.src_unit == Unit::UNIT_REGISTER,
        v.cur.dst_unit == Unit::UNIT_REGISTER,
        v.cur.di == v.cur.si,
    ensures
        next(next(v, false, i1), false, i2).state == SeqState::Done,
        next(next(v, false, i1), false, i2).regs == v.regs,
{
    if v.cur.si < v.regs.len() {
        assert(v.regs.update(v.cur.si as int, v.regs[v.cur.si as int]) =~= v.regs);
    }
}

} // verus!

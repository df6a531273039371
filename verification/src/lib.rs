//! A transport-triggered processor core: every instruction moves one value
//! from a source functional-unit port to a destination functional-unit port.
//!
//! The crate provides the bit-exact instruction codec, the functional-unit
//! bank (registers, arithmetic/logic units, stacks), the valid/ready bus
//! protocol state, a word-addressed memory responder for the far side of the
//! bus, and the multi-cycle fetch/decode/transport sequencer that ties them
//! together. Each component carries contracts that pin down its behaviour,
//! and the laws the architecture promises are proved alongside.

pub mod alu;
pub mod assembler;
pub mod bus;
pub mod memory;
pub mod regfile;
pub mod sequencer;
pub mod stack;

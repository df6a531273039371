//! The bus handshake: the signals one side of a valid/ready channel
//! drives.
//!
//! The core raises `valid` with an address (and, for a write, data and the
//! write strobe) and must hold them stable until the far side answers with
//! `ready` in the same cycle; the transfer happens exactly on that cycle.
//! Two independent channels exist: the instruction channel (read-only) and
//! the data channel (read/write).

use vstd::prelude::*;

verus! {

/// The signals the core drives on one channel.
#[derive(Debug, Clone, Copy, PartialEq, Eq, Structural)]
pub struct BusChannel {
    pub valid: bool,
    pub address: u32,
    pub write_strobe: bool,
    pub write_data: u32,
}

/// The signals the far side drives back, for both channels at once.
#[derive(Debug, Clone, Copy, PartialEq, Eq, Structural)]
pub struct BusInputs {
    pub instr_ready: bool,
    pub instr_read_data: u32,
    pub data_ready: bool,
    pub data_read_data: u32,
}

/// No transaction in flight.
pub open spec fn bus_idle() -> BusChannel {
    BusChannel { valid: false, address: 0, write_strobe: false, write_data: 0 }
}

/// A read outstanding at `addr`.
pub open spec fn bus_read(addr: u32) -> BusChannel {
    BusChannel { valid: true, address: addr, write_strobe: false, write_data: 0 }
}

/// A write of `data` outstanding at `addr`.
pub open spec fn bus_write(addr: u32, data: u32) -> BusChannel {
    BusChannel { valid: true, address: addr, write_strobe: true, write_data: data }
}

impl BusChannel {
    /// Build the idle channel state.
    pub fn idle() -> (r: BusChannel)
        ensures
            r == bus_idle(),
    {
        BusChannel { valid: false, address: 0, write_strobe: false, write_data: 0 }
    }

    /// Issue a read at `addr`.
    pub fn read(addr: u32) -> (r: BusChannel)
        ensures
            r == bus_read(addr),
    {
        BusChannel { valid: true, address: addr, write_strobe: false, write_data: 0 }
    }

    /// Issue a write of `data` at `addr`.
    pub fn write(addr: u32, data: u32) -> (r: BusChannel)
        ensures
            r == bus_write(addr, data),
    {
        BusChannel { valid: true, address: addr, write_strobe: true, write_data: data }
    }
}

} // verus!

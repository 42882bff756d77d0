//! The explicit model of the microcontroller that every operation of this
//! crate acts on.
//!
//! On the real device the peripheral registers live at fixed bus addresses and
//! are reached through volatile loads and stores; the global interrupt-enable
//! flag and the serial line are invisible side state. Here all of that is one
//! plain value, [`Mcu`], so that the effect of every register, pin, interrupt
//! and serial operation can be stated and proved exactly. A test builds an
//! `Mcu`, runs the same calls the firmware would run, and inspects the result.

use vstd::prelude::*;

verus! {

/// Number of cells in the modeled register file. The registers of this device
/// family live in the bus range below this bound (see the address table in
/// `registers`).
pub const REG_FILE_SIZE: usize = 0x61;

/// The state of the microcontroller that this crate's operations touch:
/// the memory-mapped register file, the global interrupt-enable flag, the
/// critical-section nesting counter, and the log of bytes sent over the
/// serial transmit line.
pub struct Mcu {
    /// One cell per memory-mapped register, indexed by bus address.
    pub regs: Vec<u8>,
    /// The global interrupt-enable flag (the `I` bit of the status register).
    pub interrupts_enabled: bool,
    /// How many critical sections are currently open.
    pub critical_depth: usize,
    /// Every byte handed to the serial transmitter so far, oldest first.
    pub tx: Vec<u8>,
}

impl Mcu {
    /// The register file has exactly one cell per modeled address.
    pub open spec fn wf(&self) -> bool {
        self.regs@.len() == REG_FILE_SIZE
    }

    /// The value currently held by the register at address `a`.
    pub open spec fn reg(&self, a: usize) -> u8 {
        self.regs@[a as int]
    }

    /// A microcontroller in its start-up state: every register cell zero, no
    /// critical section open, nothing sent, and interrupt delivery enabled,
    /// as it is for the main control flow outside any critical section.
    pub fn new() -> (m: Mcu)
        ensures
            m.wf(),
            m.interrupts_enabled,
            m.critical_depth == 0,
            m.tx@ == Seq::<u8>::empty(),
            forall|a: int| 0 <= a < REG_FILE_SIZE ==> m.regs@[a] == 0,
    {
        Mcu {
            regs: vec![0u8; REG_FILE_SIZE],
            interrupts_enabled: true,
            critical_depth: 0,
            tx: Vec::new(),
        }
    }

    /// One volatile load from the register at address `a`.
    pub fn read_cell(&self, a: usize) -> (v: u8)
        requires
            self.wf(),
            a < REG_FILE_SIZE,
        ensures
            v == self.reg(a),
    {
        self.regs[a]
    }

    /// One volatile store of `v` to the register at address `a`.
    pub fn write_cell(&mut self, a: usize, v: u8)
        requires
            old(self).wf(),
            a < REG_FILE_SIZE,
        ensures
            final(self).wf(),
            same_except_reg(*old(self), *final(self), a, v),
    {
        self.regs[a] = v;
    }
}

/// `post` is `pre` with the register at address `a` set to `v` and everything
/// else — all other register cells, the interrupt flag, the nesting counter
/// and the transmit log — unchanged.
pub open spec fn same_except_reg(pre: Mcu, post: Mcu, a: usize, v: u8) -> bool {
    &&& post.regs@ == pre.regs@.update(a as int, v)
    &&& post.interrupts_enabled == pre.interrupts_enabled
    &&& post.critical_depth == pre.critical_depth
    &&& post.tx@ == pre.tx@
}

} // verus!

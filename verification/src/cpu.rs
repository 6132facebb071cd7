//! The register state of one hart.

use vstd::prelude::*;

verus! {

/// The register state as a mathematical value: the program counter and the
/// three register files.
#[verifier::ext_equal]
pub struct CpuState {
    pub pc: u64,
    pub gpr: Seq<u64>,
    pub fpr: Seq<u64>,
    pub spr: Seq<u64>,
}

impl CpuState {
    /// The files have their fixed sizes, and general-purpose register 0
    /// holds zero.
    pub open spec fn wf(self) -> bool {
        &&& self.gpr.len() == 32
        &&& self.fpr.len() == 32
        &&& self.spr.len() == 4096
        &&& self.gpr[0] == 0
    }

    /// The state with another program counter.
    pub open spec fn with_pc(self, pc: u64) -> CpuState {
        CpuState { pc, ..self }
    }

    /// The state after `value` is written to general-purpose register
    /// `index`. A write to register 0 is discarded.
    pub open spec fn with_gpr(self, index: int, value: u64) -> CpuState {
        if index == 0 {
            self
        } else {
            CpuState { gpr: self.gpr.update(index, value), ..self }
        }
    }
}

/// The state at boot: every register zero, the program counter at
/// `boot_addr`.
pub open spec fn boot_state(boot_addr: u64) -> CpuState {
    CpuState {
        pc: boot_addr,
        gpr: Seq::new(32, |i: int| 0u64),
        fpr: Seq::new(32, |i: int| 0u64),
        spr: Seq::new(4096, |i: int| 0u64),
    }
}

/// The program counter, 32 general-purpose registers, and the reserved
/// floating-point and special-purpose register files.
pub struct CpuRegisters {
    pc: u64,
    gpr: [u64; 32],
    fpr: [u64; 32],
    spr: [u64; 4096],
}

impl View for CpuRegisters {
    type V = CpuState;

    closed spec fn view(&self) -> CpuState {
        CpuState { pc: self.pc, gpr: self.gpr@, fpr: self.fpr@, spr: self.spr@ }
    }
}

impl CpuRegisters {
    /// The state at boot.
    pub fn new(boot_addr: u64) -> (cpu: CpuRegisters)
        ensures
            cpu@ == boot_state(boot_addr),
            cpu@.wf(),
    {
        let cpu = CpuRegisters { pc: boot_addr, gpr: [0u64; 32], fpr: [0u64; 32], spr: [0u64; 4096] };
        assert(cpu@.gpr =~= boot_state(boot_addr).gpr);
        assert(cpu@.fpr =~= boot_state(boot_addr).fpr);
        assert(cpu@.spr =~= boot_state(boot_addr).spr);
        cpu
    }

    /// The program counter.
    pub fn pc(&self) -> (pc: u64)
        ensures
            pc == self@.pc,
    {
        self.pc
    }

    /// Redirects the program counter.
    pub fn set_pc(&mut self, pc: u64)
        ensures
            final(self)@ == old(self)@.with_pc(pc),
    {
        self.pc = pc;
    }

    /// The value of a general-purpose register.
    pub fn gpr(&self, index: usize) -> (value: u64)
        requires
            index < 32,
        ensures
            value == self@.gpr[index as int],
    {
        self.gpr[index]
    }

    /// Writes a general-purpose register. This is the one place where the
    /// register file changes: a write to register 0 is discarded here.
    pub fn set_gpr(&mut self, index: usize, value: u64)
        requires
            index < 32,
        ensures
            final(self)@ == old(self)@.with_gpr(index as int, value),
    {
        if index != 0 {
            self.gpr[index] = value;
        }
    }
}

} // verus!

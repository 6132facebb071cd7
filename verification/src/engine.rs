//! One step of execution: fetch, expand, dispatch, commit.
//!
//! A step is a function of the memory contents and the register state. Any
//! fault, whether raised by memory, by the expander or by dispatch, leaves
//! memory and registers as they were and redirects the program counter to
//! address 0.

use vstd::prelude::*;
use crate::compact::{expand_spec, insn_decompress, insn_is_compressed, is_compressed};
use crate::cpu::{CpuRegisters, CpuState};
use crate::decode::{
    decode_i_type, decode_s_type, decode_u_type, funct3_of, imm_i, imm_s, imm_u,
    lemma_field_ranges, rd_of, rs1_of, rs2_of,
};
use crate::extend::{extend_spec, riscv_extend};
use crate::memory::{pack8, read_spec, valid_size, write_spec, Memory, MemoryFault};
use crate::opcode::{int_to_opcode, opcode_of, RiscvOpcode};

verus! {

/// Why a step did not complete.
#[derive(Clone, Copy, Debug, PartialEq, Eq, Structural)]
pub enum Fault {
    /// A fetch, load or store was refused by memory.
    Memory(MemoryFault),
    /// A compact instruction outside the supported subset.
    UnsupportedCompactEncoding,
    /// A recognized opcode, or a function code of one, without semantics
    /// here.
    UnimplementedOpcode,
    /// An opcode field that matches no recognized opcode.
    UnknownOpcode,
}

/// The address every fault redirects the program counter to.
pub const FAULT_ADDRESS: u64 = 0;

/// `value` reduced modulo 2^64: the bit pattern of a number in 64-bit two's
/// complement.
pub open spec fn wrap64(value: int) -> u64 {
    (value % 0x1_0000_0000_0000_0000) as u64
}

/// The number that a 64-bit pattern stands for in two's complement.
pub open spec fn as_signed(x: u64) -> int {
    if x >= 0x8000_0000_0000_0000 {
        x - 0x1_0000_0000_0000_0000
    } else {
        x as int
    }
}

/// What an instruction fetch at `addr` returns: the four bytes there as a
/// little-endian word.
pub open spec fn fetch_spec(bytes: Seq<u8>, addr: u64) -> Result<u32, MemoryFault> {
    match read_spec(bytes, addr, 4) {
        Ok(word) => Ok(word as u32),
        Err(fault) => Err(fault),
    }
}

/// What a data load returns. The size is checked before memory is asked.
pub open spec fn data_load_spec(bytes: Seq<u8>, addr: u64, size: usize) -> Result<
    u64,
    MemoryFault,
> {
    if !valid_size(size) {
        Err(MemoryFault::InvalidSize)
    } else {
        read_spec(bytes, addr, size)
    }
}

/// The memory contents after a data store. The size is checked before
/// memory is asked.
pub open spec fn data_store_spec(bytes: Seq<u8>, addr: u64, data: u64, size: usize) -> Result<
    Seq<u8>,
    MemoryFault,
> {
    if !valid_size(size) {
        Err(MemoryFault::InvalidSize)
    } else {
        write_spec(bytes, addr, size, data)
    }
}

/// Access size in bytes of a load, and whether the loaded value is
/// sign-extended, by function code: `000`, `001` and `010` load one, two and
/// four bytes and extend by zeros; `100` and `101` load one and two bytes
/// and extend by sign; `110` loads four bytes and extends by zeros; `011`
/// loads eight bytes. Code `111` selects no size, which is given as size 0.
pub open spec fn load_width(funct3: u8) -> (usize, bool) {
    if funct3 == 0b000 {
        (1, false)
    } else if funct3 == 0b001 {
        (2, false)
    } else if funct3 == 0b010 {
        (4, false)
    } else if funct3 == 0b100 {
        (1, true)
    } else if funct3 == 0b101 {
        (2, true)
    } else if funct3 == 0b110 {
        (4, false)
    } else if funct3 == 0b011 {
        (8, false)
    } else {
        (0, false)
    }
}

/// Access size in bytes of a store by function code: `000`, `001`, `010`
/// and `011` store one, two, four and eight bytes. The other codes select
/// no size, which is given as size 0.
pub open spec fn store_width(funct3: u8) -> usize {
    if funct3 == 0b000 {
        1
    } else if funct3 == 0b001 {
        2
    } else if funct3 == 0b010 {
        4
    } else if funct3 == 0b011 {
        8
    } else {
        0
    }
}

/// The result of a register-immediate operation on the 64-bit value `x`:
/// add, signed less-than, unsigned less-than against the sign-extended
/// immediate, exclusive or. The other function codes have no semantics.
pub open spec fn op_imm_spec(funct3: u8, x: u64, imm: int) -> Option<u64> {
    if funct3 == 0b000 {
        Some(wrap64(x + imm))
    } else if funct3 == 0b010 {
        Some(
            if as_signed(x) < imm {
                1u64
            } else {
                0u64
            },
        )
    } else if funct3 == 0b011 {
        Some(
            if x < wrap64(imm) {
                1u64
            } else {
                0u64
            },
        )
    } else if funct3 == 0b100 {
        Some(x ^ wrap64(imm))
    } else {
        None
    }
}

/// The result of a 32-bit register-immediate operation: the sum cut down to
/// 32 bits and widened by zeros. The other function codes have no
/// semantics.
pub open spec fn op_imm32_spec(funct3: u8, x: u64, imm: int) -> Option<u64> {
    if funct3 == 0b000 {
        Some(((x + imm) % 0x1_0000_0000) as u64)
    } else {
        None
    }
}

/// Memory and registers after an instruction, or the fault that stopped it.
pub type Outcome = Result<(Seq<u8>, CpuState), Fault>;

/// A load: the value at `rs1 + imm`, of the size and signedness that the
/// function code selects, goes to `rd`.
pub open spec fn load_effect(bytes: Seq<u8>, s: CpuState, insn: u32, npc: u64) -> Outcome {
    let addr = wrap64(s.gpr[rs1_of(insn) as int] + imm_i(insn));
    let (size, sign_extend) = load_width(funct3_of(insn));
    match data_load_spec(bytes, addr, size) {
        Ok(data) => Ok(
            (
                bytes,
                s.with_gpr(rd_of(insn) as int, extend_spec(data, size, sign_extend)).with_pc(npc),
            ),
        ),
        Err(fault) => Err(Fault::Memory(fault)),
    }
}

/// A store: the low bytes of `rs2`, as many as the function code selects,
/// go to memory at `rs1 + imm`.
pub open spec fn store_effect(bytes: Seq<u8>, s: CpuState, insn: u32, npc: u64) -> Outcome {
    let addr = wrap64(s.gpr[rs1_of(insn) as int] + imm_s(insn));
    let size = store_width(funct3_of(insn));
    match data_store_spec(bytes, addr, s.gpr[rs2_of(insn) as int], size) {
        Ok(stored) => Ok((stored, s.with_pc(npc))),
        Err(fault) => Err(Fault::Memory(fault)),
    }
}

/// The upper immediate, sign-extended from 32 bits.
pub open spec fn upper_immediate(insn: u32) -> u64 {
    extend_spec(imm_u(insn) as u64, 4, true)
}

/// Load upper immediate: the sign-extended upper immediate goes to `rd`.
pub open spec fn lui_effect(s: CpuState, insn: u32, npc: u64) -> CpuState {
    s.with_gpr(rd_of(insn) as int, upper_immediate(insn)).with_pc(npc)
}

/// Add upper immediate to pc: the sum of the sign-extended upper immediate
/// and the address of the instruction goes to `rd`.
pub open spec fn auipc_effect(s: CpuState, insn: u32, npc: u64) -> CpuState {
    s.with_gpr(rd_of(insn) as int, wrap64(upper_immediate(insn) + s.pc)).with_pc(npc)
}

/// A register-immediate operation on `rs1`, its result going to `rd`.
pub open spec fn op_imm_effect(s: CpuState, insn: u32, npc: u64) -> Result<CpuState, Fault> {
    match op_imm_spec(funct3_of(insn), s.gpr[rs1_of(insn) as int], imm_i(insn)) {
        Some(value) => Ok(s.with_gpr(rd_of(insn) as int, value).with_pc(npc)),
        None => Err(Fault::UnimplementedOpcode),
    }
}

/// A 32-bit register-immediate operation on `rs1`, its result going to
/// `rd`.
pub open spec fn op_imm32_effect(s: CpuState, insn: u32, npc: u64) -> Result<CpuState, Fault> {
    match op_imm32_spec(funct3_of(insn), s.gpr[rs1_of(insn) as int], imm_i(insn)) {
        Some(value) => Ok(s.with_gpr(rd_of(insn) as int, value).with_pc(npc)),
        None => Err(Fault::UnimplementedOpcode),
    }
}

/// The outcome of an instruction that leaves memory alone.
pub open spec fn keeping_memory(bytes: Seq<u8>, registers: Result<CpuState, Fault>) -> Outcome {
    match registers {
        Ok(next) => Ok((bytes, next)),
        Err(fault) => Err(fault),
    }
}

/// The effect of one canonical instruction on memory and registers, with
/// `npc` the address of the instruction after it. Branches and jumps are
/// recognized and do nothing but move on; register-register operations and
/// the remaining recognized opcodes have no semantics here.
pub open spec fn execute_spec(bytes: Seq<u8>, s: CpuState, insn: u32, npc: u64) -> Outcome {
    match opcode_of(insn) {
        RiscvOpcode::Load => load_effect(bytes, s, insn, npc),
        RiscvOpcode::Store => store_effect(bytes, s, insn, npc),
        RiscvOpcode::Lui => Ok((bytes, lui_effect(s, insn, npc))),
        RiscvOpcode::AuiPC => Ok((bytes, auipc_effect(s, insn, npc))),
        RiscvOpcode::OpImm => keeping_memory(bytes, op_imm_effect(s, insn, npc)),
        RiscvOpcode::OpImm32 => keeping_memory(bytes, op_imm32_effect(s, insn, npc)),
        RiscvOpcode::Branch | RiscvOpcode::Jal | RiscvOpcode::Jalr => Ok((bytes, s.with_pc(npc))),
        RiscvOpcode::Unknown => Err(Fault::UnknownOpcode),
        _ => Err(Fault::UnimplementedOpcode),
    }
}

/// Whether an executable function that returned `r` and changed memory and
/// registers from `(bytes, s)` to `(bytes_after, s_after)` did what
/// `outcome` says: on success both are as given there, on a fault both are
/// unchanged.
pub open spec fn realizes(
    outcome: Outcome,
    r: Result<(), Fault>,
    bytes: Seq<u8>,
    s: CpuState,
    bytes_after: Seq<u8>,
    s_after: CpuState,
) -> bool {
    match outcome {
        Ok((next_bytes, next)) => r == Ok::<(), Fault>(()) && bytes_after =~= next_bytes && s_after
            =~= next,
        Err(fault) => r == Err::<(), Fault>(fault) && bytes_after =~= bytes && s_after =~= s,
    }
}

/// The canonical instruction that a fetched word stands for and the address
/// of the instruction after it. A compact instruction is the low half of
/// the word and two bytes long.
pub open spec fn next_instruction(word: u32, pc: u64) -> Result<(u32, u64), Fault> {
    if is_compressed(word) {
        match expand_spec(word & 0xffff) {
            Some(insn) => Ok((insn, wrap64(pc + 2))),
            None => Err(Fault::UnsupportedCompactEncoding),
        }
    } else {
        Ok((word, wrap64(pc + 4)))
    }
}

/// What a step does where no fault stops it, and else the fault.
pub open spec fn step_outcome(bytes: Seq<u8>, s: CpuState) -> Outcome {
    match fetch_spec(bytes, s.pc) {
        Err(fault) => Err(Fault::Memory(fault)),
        Ok(word) => match next_instruction(word, s.pc) {
            Err(fault) => Err(fault),
            Ok((insn, npc)) => execute_spec(bytes, s, insn, npc),
        },
    }
}

/// Memory and registers after one step.
pub open spec fn step_spec(bytes: Seq<u8>, s: CpuState) -> (Seq<u8>, CpuState) {
    match step_outcome(bytes, s) {
        Ok(next) => next,
        Err(_) => (bytes, s.with_pc(FAULT_ADDRESS)),
    }
}

/// Register 0 is beyond the reach of every instruction: whatever the opcode
/// and the destination field, its content after the instruction is its
/// content before. Where the destination field is 0, no general-purpose
/// register changes at all. The reserved register files and the capacity of
/// memory never change, and a well-formed state stays well-formed.
pub proof fn lemma_execute_keeps_register_zero(bytes: Seq<u8>, s: CpuState, insn: u32, npc: u64)
    requires
        s.gpr.len() == 32,
    ensures
        match execute_spec(bytes, s, insn, npc) {
            Ok((next_bytes, next)) => {
                &&& next.gpr[0] == s.gpr[0]
                &&& rd_of(insn) == 0 ==> next.gpr == s.gpr
                &&& next.gpr.len() == 32
                &&& next.fpr == s.fpr
                &&& next.spr == s.spr
                &&& next.pc == npc
                &&& next_bytes.len() == bytes.len()
                &&& s.wf() ==> next.wf()
            },
            Err(_) => true,
        },
{
    lemma_field_ranges(insn);
}

/// The same of a whole step: register 0, the reserved register files and
/// the capacity of memory are as before, and a well-formed state stays
/// well-formed.
pub proof fn lemma_step_keeps_register_zero(bytes: Seq<u8>, s: CpuState)
    requires
        s.gpr.len() == 32,
    ensures
        step_spec(bytes, s).1.gpr[0] == s.gpr[0],
        step_spec(bytes, s).1.gpr.len() == 32,
        step_spec(bytes, s).1.fpr == s.fpr,
        step_spec(bytes, s).1.spr == s.spr,
        step_spec(bytes, s).0.len() == bytes.len(),
        s.wf() ==> step_spec(bytes, s).1.wf(),
{
    match fetch_spec(bytes, s.pc) {
        Ok(word) => match next_instruction(word, s.pc) {
            Ok((insn, npc)) => {
                lemma_execute_keeps_register_zero(bytes, s, insn, npc);
            },
            Err(_) => {},
        },
        Err(_) => {},
    }
}

/// The fault policy: a step that faults, be it at the fetch, in the
/// expansion of a compact instruction or in dispatch, changes nothing but
/// the program counter, which it sets to the fault address. A refused fetch
/// is such a fault, and so is a compact instruction that does not expand:
/// its word is never dispatched.
pub proof fn lemma_fault_redirects(bytes: Seq<u8>, s: CpuState)
    ensures
        step_outcome(bytes, s) is Err ==> step_spec(bytes, s) == (bytes, s.with_pc(FAULT_ADDRESS)),
        fetch_spec(bytes, s.pc) matches Err(fault) ==> step_outcome(bytes, s) == Err::<
            (Seq<u8>, CpuState),
            Fault,
        >(Fault::Memory(fault)),
        fetch_spec(bytes, s.pc) matches Ok(word) && is_compressed(word) && expand_spec(
            word & 0xffff,
        ) is None ==> step_outcome(bytes, s) == Err::<(Seq<u8>, CpuState), Fault>(
            Fault::UnsupportedCompactEncoding,
        ),
{
}

proof fn lemma_word_fits(b0: u8, b1: u8, b2: u8, b3: u8)
    by (bit_vector)
    ensures
        pack8(b0, b1, b2, b3, 0, 0, 0, 0) <= 0xffff_ffff,
{
}

/// Fetches the instruction word at `addr`.
pub fn instr_load<T: Memory>(mem: &T, addr: u64) -> (r: Result<u32, MemoryFault>)
    ensures
        r == fetch_spec(mem@, addr),
{
    match mem.read(addr, 4) {
        Ok(data) => {
            proof {
                let sub = mem@.subrange(addr as int, addr + 4);
                lemma_word_fits(sub[0], sub[1], sub[2], sub[3]);
            }
            Ok(data as u32)
        },
        Err(err) => Err(err),
    }
}

/// Stores the low `size` bytes of `data` at `addr`.
pub fn data_store<T: Memory>(mem: &mut T, addr: u64, data: u64, size: usize) -> (r: Result<
    (),
    MemoryFault,
>)
    ensures
        match data_store_spec(old(mem)@, addr, data, size) {
            Ok(bytes) => r == Ok::<(), MemoryFault>(()) && final(mem)@ == bytes,
            Err(fault) => r == Err::<(), MemoryFault>(fault) && final(mem)@ == old(mem)@,
        },
{
    if size != 1 && size != 2 && size != 4 && size != 8 {
        return Err(MemoryFault::InvalidSize);
    }
    mem.write(addr, size, data)
}

/// Loads the `size`-byte value at `addr`, zero-extended.
pub fn data_load<T: Memory>(mem: &T, addr: u64, size: usize) -> (r: Result<u64, MemoryFault>)
    ensures
        r == data_load_spec(mem@, addr, size),
{
    if size != 1 && size != 2 && size != 4 && size != 8 {
        return Err(MemoryFault::InvalidSize);
    }
    mem.read(addr, size)
}

proof fn lemma_signed_casts(x: u64, imm: i16)
    by (bit_vector)
    ensures
        (x as i64) == (if x >= 0x8000_0000_0000_0000 {
            x - 0x1_0000_0000_0000_0000
        } else {
            x as int
        }),
        ((imm as i64) as u64) == (if imm < 0 {
            imm + 0x1_0000_0000_0000_0000
        } else {
            imm as int
        }),
        x & 0xffff_ffff == x % 0x1_0000_0000,
{
}

/// The register-immediate operations.
fn op_imm(funct3: u8, x: u64, imm: i16) -> (r: Option<u64>)
    ensures
        r == op_imm_spec(funct3, x, imm as int),
{
    proof {
        lemma_signed_casts(x, imm);
    }
    let operand = (imm as i64) as u64;
    match funct3 {
        0b000 => Some(x.wrapping_add(operand)),
        0b010 => Some(
            if (x as i64) < (imm as i64) {
                1
            } else {
                0
            },
        ),
        0b011 => Some(
            if x < operand {
                1
            } else {
                0
            },
        ),
        0b100 => Some(x ^ operand),
        _ => None,
    }
}

/// The 32-bit register-immediate operations.
fn op_imm32(funct3: u8, x: u64, imm: i16) -> (r: Option<u64>)
    ensures
        r == op_imm32_spec(funct3, x, imm as int),
{
    match funct3 {
        0b000 => {
            let sum = x.wrapping_add_signed(imm as i64);
            proof {
                lemma_signed_casts(sum, imm);
            }
            Some(sum & 0xFFFF_FFFF)
        },
        _ => None,
    }
}

/// Executes a load.
fn execute_load<T: Memory>(mem: &T, state: &mut CpuRegisters, insn: u32, npc: u64) -> (r: Result<
    (),
    Fault,
>)
    requires
        old(state)@.wf(),
    ensures
        realizes(load_effect(mem@, old(state)@, insn, npc), r, mem@, old(state)@, mem@, final(state)@),
{
    let (offset, base, width, dst) = decode_i_type(insn);
    let addr = state.gpr(base).wrapping_add_signed(offset as i64);
    let (size, sext): (usize, bool) = match width {
        0b000 => (1, false),
        0b001 => (2, false),
        0b010 => (4, false),
        0b100 => (1, true),
        0b101 => (2, true),
        0b110 => (4, false),
        0b011 => (8, false),
        _ => (0, false),
    };
    match data_load(mem, addr, size) {
        Ok(data) => {
            state.set_gpr(dst, riscv_extend(data, size, sext));
            state.set_pc(npc);
            Ok(())
        },
        Err(fault) => Err(Fault::Memory(fault)),
    }
}

/// Executes a store.
fn execute_store<T: Memory>(mem: &mut T, state: &mut CpuRegisters, insn: u32, npc: u64) -> (r:
    Result<(), Fault>)
    requires
        old(state)@.wf(),
    ensures
        realizes(
            store_effect(old(mem)@, old(state)@, insn, npc),
            r,
            old(mem)@,
            old(state)@,
            final(mem)@,
            final(state)@,
        ),
{
    let (offset, src, base, width) = decode_s_type(insn);
    let addr = state.gpr(base).wrapping_add_signed(offset as i64);
    let size: usize = match width {
        0b000 => 1,
        0b001 => 2,
        0b010 => 4,
        0b011 => 8,
        _ => 0,
    };
    let data = state.gpr(src);
    match data_store(mem, addr, data, size) {
        Ok(()) => {
            state.set_pc(npc);
            Ok(())
        },
        Err(fault) => Err(Fault::Memory(fault)),
    }
}

/// Executes a load upper immediate.
fn execute_lui(state: &mut CpuRegisters, insn: u32, npc: u64)
    requires
        old(state)@.wf(),
    ensures
        final(state)@ =~= lui_effect(old(state)@, insn, npc),
{
    let (imm, rd) = decode_u_type(insn);
    state.set_gpr(rd, riscv_extend(imm as u64, 4, true));
    state.set_pc(npc);
}

/// Executes an add upper immediate to pc.
fn execute_auipc(state: &mut CpuRegisters, insn: u32, npc: u64)
    requires
        old(state)@.wf(),
    ensures
        final(state)@ =~= auipc_effect(old(state)@, insn, npc),
{
    let (imm, rd) = decode_u_type(insn);
    let value = riscv_extend(imm as u64, 4, true).wrapping_add(state.pc());
    state.set_gpr(rd, value);
    state.set_pc(npc);
}

/// Executes a register-immediate operation.
fn execute_op_imm(state: &mut CpuRegisters, insn: u32, npc: u64) -> (r: Result<(), Fault>)
    requires
        old(state)@.wf(),
    ensures
        match op_imm_effect(old(state)@, insn, npc) {
            Ok(next) => r == Ok::<(), Fault>(()) && final(state)@ =~= next,
            Err(fault) => r == Err::<(), Fault>(fault) && final(state)@ =~= old(state)@,
        },
{
    let (imm, rs1, funct3, rd) = decode_i_type(insn);
    match op_imm(funct3, state.gpr(rs1), imm) {
        Some(value) => {
            state.set_gpr(rd, value);
            state.set_pc(npc);
            Ok(())
        },
        None => Err(Fault::UnimplementedOpcode),
    }
}

/// Executes a 32-bit register-immediate operation.
fn execute_op_imm32(state: &mut CpuRegisters, insn: u32, npc: u64) -> (r: Result<(), Fault>)
    requires
        old(state)@.wf(),
    ensures
        match op_imm32_effect(old(state)@, insn, npc) {
            Ok(next) => r == Ok::<(), Fault>(()) && final(state)@ =~= next,
            Err(fault) => r == Err::<(), Fault>(fault) && final(state)@ =~= old(state)@,
        },
{
    let (imm, rs1, funct3, rd) = decode_i_type(insn);
    match op_imm32(funct3, state.gpr(rs1), imm) {
        Some(value) => {
            state.set_gpr(rd, value);
            state.set_pc(npc);
            Ok(())
        },
        None => Err(Fault::UnimplementedOpcode),
    }
}

/// Dispatches one canonical instruction and commits its effect, the program
/// counter moving to `npc`. On a fault nothing is changed.
pub fn riscv_execute<T: Memory>(
    mem: &mut T,
    state: &mut CpuRegisters,
    insn: u32,
    npc: u64,
) -> (r: Result<(), Fault>)
    requires
        old(state)@.wf(),
    ensures
        final(state)@.wf(),
        final(state)@.gpr[0] == old(state)@.gpr[0],
        final(state)@.fpr == old(state)@.fpr,
        final(state)@.spr == old(state)@.spr,
        match execute_spec(old(mem)@, old(state)@, insn, npc) {
            Ok((bytes, next)) => r == Ok::<(), Fault>(()) && final(mem)@ == bytes && final(state)@
                == next,
            Err(fault) => r == Err::<(), Fault>(fault) && final(mem)@ == old(mem)@ && final(state)@
                == old(state)@,
        },
{
    proof {
        lemma_field_ranges(insn);
    }
    match int_to_opcode(insn) {
        RiscvOpcode::Load => execute_load(&*mem, state, insn, npc),
        RiscvOpcode::Store => execute_store(mem, state, insn, npc),
        RiscvOpcode::Lui => {
            execute_lui(state, insn, npc);
            Ok(())
        },
        RiscvOpcode::AuiPC => {
            execute_auipc(state, insn, npc);
            Ok(())
        },
        RiscvOpcode::OpImm => execute_op_imm(state, insn, npc),
        RiscvOpcode::OpImm32 => execute_op_imm32(state, insn, npc),
        RiscvOpcode::Branch | RiscvOpcode::Jal | RiscvOpcode::Jalr => {
            state.set_pc(npc);
            Ok(())
        },
        RiscvOpcode::Unknown => Err(Fault::UnknownOpcode),
        _ => Err(Fault::UnimplementedOpcode),
    }
}

/// Executes one step: fetches at the program counter, expands a compact
/// instruction, dispatches, and commits the new program counter. Every
/// fault redirects the program counter to address 0 and changes nothing
/// else.
pub fn riscv_decode<T: Memory>(mem: &mut T, state: &mut CpuRegisters)
    requires
        old(state)@.wf(),
    ensures
        final(state)@.wf(),
        final(state)@.gpr[0] == old(state)@.gpr[0],
        final(state)@.fpr == old(state)@.fpr,
        final(state)@.spr == old(state)@.spr,
        final(mem)@ == step_spec(old(mem)@, old(state)@).0,
        final(state)@ == step_spec(old(mem)@, old(state)@).1,
{
    let pc = state.pc();
    let insn_loaded = match instr_load(&*mem, pc) {
        Ok(word) => word,
        Err(_) => {
            state.set_pc(FAULT_ADDRESS);
            return;
        },
    };
    let (insn, npc) = if insn_is_compressed(insn_loaded) {
        match insn_decompress(insn_loaded & 0xFFFF) {
            Ok(expanded) => (expanded, pc.wrapping_add(2)),
            Err(_) => {
                state.set_pc(FAULT_ADDRESS);
                return;
            },
        }
    } else {
        (insn_loaded, pc.wrapping_add(4))
    };
    match riscv_execute(mem, state, insn, npc) {
        Ok(()) => {},
        Err(_) => {
            state.set_pc(FAULT_ADDRESS);
        },
    }
}

} // verus!

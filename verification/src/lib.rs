//! An instruction-level simulator core for a 64-bit RISC-V style machine:
//! word-packed byte-addressable memory, instruction decoding and one-step
//! execution, each function carrying a machine-checked contract.

pub mod compact;
pub mod cpu;
pub mod decode;
pub mod encode;
pub mod engine;
pub mod extend;
pub mod image;
pub mod memory;
pub mod opcode;

pub use compact::{
    decode_cb_type, decode_ci_type, decode_ciw_type, decode_cj_type, decode_cl_type, decode_cr_type,
    decode_cs_type, decode_css_type, insn_decompress, insn_is_compressed,
};
pub use cpu::{CpuRegisters, CpuState};
pub use decode::{
    decode_i_type, decode_r_type, decode_s_type, decode_sb_type, decode_u_type, decode_uj_type,
};
pub use engine::{data_load, data_store, instr_load, riscv_decode, riscv_execute, Fault};
pub use extend::riscv_extend;
pub use image::{load, Image, LoadError, Section};
pub use memory::{Memory, MemoryFault, SimpleRam};
pub use opcode::{int_to_opcode, RiscvOpcode};

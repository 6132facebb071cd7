//! Classification of a canonical instruction by its low seven bits.

use vstd::prelude::*;

verus! {

/// The instruction groups told apart by the opcode field, and `Unknown` for
/// every other bit pattern.
#[derive(Clone, Copy, Debug, PartialEq, Eq, Structural)]
pub enum RiscvOpcode {
    Load,
    Store,
    Madd,
    Msub,
    Branch,
    Jal,
    Jalr,
    AuiPC,
    Lui,
    System,
    MiscMem,
    OpImm32,
    Op32,
    OpImm,
    Op,
    OpFp,
    LoadFp,
    StoreFp,
    Amo,
    Nmadd,
    Nmsub,
    Unknown,
}

impl RiscvOpcode {
    /// The seven-bit pattern of a recognized opcode; zero for `Unknown`.
    pub open spec fn spec_code(self) -> u32 {
        match self {
            RiscvOpcode::Load => 0b000_0011,
            RiscvOpcode::Store => 0b010_0011,
            RiscvOpcode::Madd => 0b100_0011,
            RiscvOpcode::Msub => 0b100_0111,
            RiscvOpcode::Branch => 0b110_0011,
            RiscvOpcode::Jal => 0b110_1111,
            RiscvOpcode::Jalr => 0b110_0111,
            RiscvOpcode::AuiPC => 0b001_0111,
            RiscvOpcode::Lui => 0b011_0111,
            RiscvOpcode::System => 0b111_0011,
            RiscvOpcode::MiscMem => 0b000_1111,
            RiscvOpcode::OpImm32 => 0b001_1011,
            RiscvOpcode::Op32 => 0b011_1011,
            RiscvOpcode::OpImm => 0b001_0011,
            RiscvOpcode::Op => 0b011_0011,
            RiscvOpcode::OpFp => 0b101_0011,
            RiscvOpcode::LoadFp => 0b000_0111,
            RiscvOpcode::StoreFp => 0b010_0111,
            RiscvOpcode::Amo => 0b010_1111,
            RiscvOpcode::Nmadd => 0b100_1111,
            RiscvOpcode::Nmsub => 0b100_1011,
            RiscvOpcode::Unknown => 0,
        }
    }

    /// The seven-bit pattern of a recognized opcode; zero for `Unknown`.
    #[verifier::when_used_as_spec(spec_code)]
    pub fn code(self) -> (c: u32)
        ensures
            c == self.spec_code(),
            c < 128,
    {
        match self {
            RiscvOpcode::Load => 0b000_0011,
            RiscvOpcode::Store => 0b010_0011,
            RiscvOpcode::Madd => 0b100_0011,
            RiscvOpcode::Msub => 0b100_0111,
            RiscvOpcode::Branch => 0b110_0011,
            RiscvOpcode::Jal => 0b110_1111,
            RiscvOpcode::Jalr => 0b110_0111,
            RiscvOpcode::AuiPC => 0b001_0111,
            RiscvOpcode::Lui => 0b011_0111,
            RiscvOpcode::System => 0b111_0011,
            RiscvOpcode::MiscMem => 0b000_1111,
            RiscvOpcode::OpImm32 => 0b001_1011,
            RiscvOpcode::Op32 => 0b011_1011,
            RiscvOpcode::OpImm => 0b001_0011,
            RiscvOpcode::Op => 0b011_0011,
            RiscvOpcode::OpFp => 0b101_0011,
            RiscvOpcode::LoadFp => 0b000_0111,
            RiscvOpcode::StoreFp => 0b010_0111,
            RiscvOpcode::Amo => 0b010_1111,
            RiscvOpcode::Nmadd => 0b100_1111,
            RiscvOpcode::Nmsub => 0b100_1011,
            RiscvOpcode::Unknown => 0,
        }
    }
}

/// The opcode field of an instruction.
pub open spec fn opcode_bits(insn: u32) -> u32 {
    insn & 0x7f
}

/// Whether `op` is a recognized opcode with the seven-bit pattern `bits`.
pub open spec fn has_code(op: RiscvOpcode, bits: u32) -> bool {
    op != RiscvOpcode::Unknown && op.spec_code() == bits
}

/// The class of an instruction: the recognized opcode whose pattern is the
/// instruction's opcode field, and `Unknown` where there is none.
pub open spec fn opcode_of(insn: u32) -> RiscvOpcode {
    if exists|op: RiscvOpcode| has_code(op, opcode_bits(insn)) {
        choose|op: RiscvOpcode| has_code(op, opcode_bits(insn))
    } else {
        RiscvOpcode::Unknown
    }
}

/// No two recognized opcodes share a pattern.
pub proof fn lemma_codes_distinct(a: RiscvOpcode, b: RiscvOpcode)
    requires
        a != RiscvOpcode::Unknown,
        b != RiscvOpcode::Unknown,
        a.spec_code() == b.spec_code(),
    ensures
        a == b,
{
}

/// An instruction whose opcode field is the pattern of a recognized opcode
/// is classified as that opcode.
pub proof fn lemma_opcode_of_code(insn: u32, op: RiscvOpcode)
    requires
        has_code(op, opcode_bits(insn)),
    ensures
        opcode_of(insn) == op,
{
    let found = choose|o: RiscvOpcode| has_code(o, opcode_bits(insn));
    lemma_codes_distinct(found, op);
}

/// Classification undoes `code`: the pattern of an opcode, with any bits
/// above the opcode field, is classified as that opcode.
pub proof fn lemma_code_round_trip(op: RiscvOpcode, upper: u32)
    requires
        upper & 0x7f == 0,
    ensures
        opcode_of(upper | op.spec_code()) == op,
{
    let bits = op.spec_code();
    assert((upper | bits) & 0x7f == bits) by (bit_vector)
        requires
            upper & 0x7f == 0,
            bits < 128,
    ;
    if op != RiscvOpcode::Unknown {
        lemma_opcode_of_code(upper | bits, op);
    } else {
        assert forall|o: RiscvOpcode| !has_code(o, opcode_bits(upper | bits)) by {}
    }
}

/// Classifies an instruction by its low seven bits.
pub fn int_to_opcode(insn: u32) -> (op: RiscvOpcode)
    ensures
        op == opcode_of(insn),
        op != RiscvOpcode::Unknown ==> op.spec_code() == opcode_bits(insn),
{
    let bits = insn & 0x7F;
    let op = match bits {
        0b000_0011 => RiscvOpcode::Load,
        0b010_0011 => RiscvOpcode::Store,
        0b100_0011 => RiscvOpcode::Madd,
        0b100_0111 => RiscvOpcode::Msub,
        0b110_0011 => RiscvOpcode::Branch,
        0b110_1111 => RiscvOpcode::Jal,
        0b110_0111 => RiscvOpcode::Jalr,
        0b001_0111 => RiscvOpcode::AuiPC,
        0b011_0111 => RiscvOpcode::Lui,
        0b111_0011 => RiscvOpcode::System,
        0b000_1111 => RiscvOpcode::MiscMem,
        0b001_1011 => RiscvOpcode::OpImm32,
        0b011_1011 => RiscvOpcode::Op32,
        0b001_0011 => RiscvOpcode::OpImm,
        0b011_0011 => RiscvOpcode::Op,
        0b101_0011 => RiscvOpcode::OpFp,
        0b000_0111 => RiscvOpcode::LoadFp,
        0b010_0111 => RiscvOpcode::StoreFp,
        0b010_1111 => RiscvOpcode::Amo,
        0b100_1111 => RiscvOpcode::Nmadd,
        0b100_1011 => RiscvOpcode::Nmsub,
        _ => RiscvOpcode::Unknown,
    };
    proof {
        if op != RiscvOpcode::Unknown {
            lemma_opcode_of_code(insn, op);
        } else {
            assert forall|o: RiscvOpcode| !has_code(o, opcode_bits(insn)) by {}
        }
    }
    op
}

} // verus!

//! Placing the loadable sections of an executable image into memory.
//!
//! The image is given as plain values: the machine it was built for, its
//! entry address, and its sections with their contents. Reading and parsing
//! the container file is left to the caller.

use vstd::prelude::*;
use crate::memory::{byte_of, store_bytes, Memory};

verus! {

/// The machine identifier of this instruction set in an image's header.
pub const MACHINE_RISCV: u16 = 0xf3;

/// The section type of code and data that the program defines.
pub const SECTION_PROGBITS: u32 = 1;

/// The section flag of a section that occupies memory while the program
/// runs.
pub const SECTION_ALLOC: u64 = 2;

/// One section of an executable image.
pub struct Section {
    /// The section type.
    pub kind: u32,
    /// The section flags.
    pub flags: u64,
    /// The address of the section's first byte in memory.
    pub addr: u64,
    /// The section's contents.
    pub data: Vec<u8>,
}

/// An executable image.
pub struct Image {
    /// The machine that the image was built for.
    pub machine: u16,
    /// The address at which execution starts.
    pub entry: u64,
    /// The sections, in the order of the section table.
    pub sections: Vec<Section>,
}

/// Why an image was not loaded.
#[derive(Clone, Copy, Debug, PartialEq, Eq, Structural)]
pub enum LoadError {
    /// The image was built for another machine.
    WrongMachine,
}

impl LoadError {
    /// A short description of the error.
    pub fn message(&self) -> (s: &'static str)
        ensures
            s@ == "Wrong machine"@,
    {
        "Wrong machine"
    }
}

impl Section {
    /// Whether the section is copied to memory: it holds program-defined
    /// contents and occupies memory at run time.
    pub open spec fn spec_is_loadable(&self) -> bool {
        self.kind == SECTION_PROGBITS && self.flags & SECTION_ALLOC != 0
    }

    /// Whether the section is copied to memory: it holds program-defined
    /// contents and occupies memory at run time.
    #[verifier::when_used_as_spec(spec_is_loadable)]
    pub fn is_loadable(&self) -> (r: bool)
        ensures
            r == self.spec_is_loadable(),
    {
        self.kind == SECTION_PROGBITS && self.flags & SECTION_ALLOC != 0
    }
}

/// Whether a single byte can be written at address `i` of a memory of `len`
/// bytes: the address fits in 64 bits and its storage word lies within the
/// capacity.
pub open spec fn writable(len: nat, i: int) -> bool {
    0 <= i <= u64::MAX && i / 8 < len / 8
}

/// `bytes` with `data` laid over it from address `addr` on. Bytes of `data`
/// that fall on an address that cannot be written are dropped.
pub open spec fn overlay(bytes: Seq<u8>, addr: u64, data: Seq<u8>) -> Seq<u8> {
    Seq::new(
        bytes.len(),
        |i: int|
            if addr <= i < addr + data.len() && writable(bytes.len(), i) {
                data[i - addr]
            } else {
                bytes[i]
            },
    )
}

/// Memory after the loadable ones among `sections` were laid over `bytes`,
/// first to last, so that where two overlap the later one shows.
pub open spec fn load_sections(sections: Seq<Section>, bytes: Seq<u8>) -> Seq<u8>
    decreases sections.len(),
{
    if sections.len() == 0 {
        bytes
    } else {
        let before = load_sections(sections.drop_last(), bytes);
        if sections.last().is_loadable() {
            overlay(before, sections.last().addr, sections.last().data@)
        } else {
            before
        }
    }
}

proof fn lemma_low_byte(b: u8)
    by (bit_vector)
    ensures
        byte_of(b as u64, 0) == b,
{
}

/// Copies `data` to memory from `addr` on, byte by byte. A byte that memory
/// refuses is skipped.
fn load_section<T: Memory>(mem: &mut T, addr: u64, data: &Vec<u8>)
    ensures
        final(mem)@ == overlay(old(mem)@, addr, data@),
{
    let mut i: usize = 0;
    while i < data.len()
        invariant
            i <= data.len(),
            mem@ == overlay(old(mem)@, addr, data@.take(i as int)),
        decreases data.len() - i,
    {
        let ghost before = mem@;
        let byte = data[i];
        match addr.checked_add(i as u64) {
            Some(target) => {
                let _ = mem.write(target, 1, byte as u64);
                proof {
                    lemma_low_byte(byte);
                    if writable(before.len(), target as int) {
                        assert(mem@ =~= store_bytes(before, target, 1, byte as u64));
                    }
                }
            },
            None => {},
        }
        i += 1;
        assert(mem@ =~= overlay(old(mem)@, addr, data@.take(i as int)));
    }
    assert(data@.take(i as int) =~= data@);
}

/// Loads an image: checks that it was built for this machine, copies every
/// loadable section to its address, and returns the entry address. An image
/// for another machine is refused and leaves memory untouched.
pub fn load<T: Memory>(image: &Image, mem: &mut T) -> (r: Result<u64, LoadError>)
    ensures
        image.machine != MACHINE_RISCV ==> r == Err::<u64, LoadError>(LoadError::WrongMachine)
            && final(mem)@ == old(mem)@,
        image.machine == MACHINE_RISCV ==> r == Ok::<u64, LoadError>(image.entry) && final(mem)@
            == load_sections(image.sections@, old(mem)@),
{
    if image.machine != MACHINE_RISCV {
        return Err(LoadError::WrongMachine);
    }
    let mut n: usize = 0;
    while n < image.sections.len()
        invariant
            n <= image.sections.len(),
            mem@ == load_sections(image.sections@.take(n as int), old(mem)@),
        decreases image.sections.len() - n,
    {
        let section = &image.sections[n];
        if section.is_loadable() {
            load_section(mem, section.addr, &section.data);
        }
        proof {
            let upto = image.sections@.take(n + 1);
            assert(upto.drop_last() =~= image.sections@.take(n as int));
            assert(upto.last() == image.sections@[n as int]);
        }
        n += 1;
    }
    assert(image.sections@.take(n as int) =~= image.sections@);
    Ok(image.entry)
}

} // verus!

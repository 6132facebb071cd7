//! Byte-addressable memory packed into 64-bit storage words.
//!
//! The abstract state of a memory is a flat sequence of bytes. Every access
//! touches `size` bytes that lie within one 8-byte storage word; values are
//! little-endian.

use vstd::prelude::*;

verus! {

/// Why a memory access was refused.
#[derive(Clone, Copy, Debug, PartialEq, Eq, Structural)]
pub enum MemoryFault {
    /// The storage word that holds the address lies beyond the capacity.
    OutOfRange,
    /// The access would straddle two storage words.
    Misaligned,
    /// The access size is not 1, 2, 4 or 8 bytes.
    InvalidSize,
}

impl MemoryFault {
    /// A short description of the fault.
    pub fn message(&self) -> (s: &'static str)
        ensures
            s@ == (match *self {
                MemoryFault::OutOfRange => "Address out of range"@,
                MemoryFault::Misaligned => "Byte address + size makes this access unaligned"@,
                MemoryFault::InvalidSize => "Invalid size"@,
            }),
    {
        match self {
            MemoryFault::OutOfRange => "Address out of range",
            MemoryFault::Misaligned => "Byte address + size makes this access unaligned",
            MemoryFault::InvalidSize => "Invalid size",
        }
    }
}

/// The legal access granularities.
pub open spec fn valid_size(size: usize) -> bool {
    size == 1 || size == 2 || size == 4 || size == 8
}

/// The fault, if any, of an access of `size` bytes at `addr` to a memory of
/// `len` bytes. Range is checked first, then word crossing, then the size.
pub open spec fn access_fault(len: nat, addr: u64, size: usize) -> Option<MemoryFault> {
    if addr as nat / 8 >= len / 8 {
        Some(MemoryFault::OutOfRange)
    } else if addr as nat % 8 + size as nat > 8 {
        Some(MemoryFault::Misaligned)
    } else if !valid_size(size) {
        Some(MemoryFault::InvalidSize)
    } else {
        None
    }
}

/// Byte `i` of `v`, counting from the least significant.
pub open spec fn byte_of(v: u64, i: nat) -> u8 {
    ((v >> (8 * i)) & 0xff) as u8
}

/// The 64-bit value whose bytes, least significant first, are `b0` to `b7`.
pub open spec fn pack8(b0: u8, b1: u8, b2: u8, b3: u8, b4: u8, b5: u8, b6: u8, b7: u8) -> u64 {
    (b0 as u64) | (b1 as u64) << 8 | (b2 as u64) << 16 | (b3 as u64) << 24 | (b4 as u64) << 32 | (
    b5 as u64) << 40 | (b6 as u64) << 48 | (b7 as u64) << 56
}

/// Element `i` of `bytes`, or zero past its end.
pub open spec fn byte_or_zero(bytes: Seq<u8>, i: int) -> u8 {
    if 0 <= i < bytes.len() {
        bytes[i]
    } else {
        0
    }
}

/// The little-endian value of at most eight bytes, zero-extended to 64 bits.
pub open spec fn le_value(bytes: Seq<u8>) -> u64 {
    pack8(
        byte_or_zero(bytes, 0),
        byte_or_zero(bytes, 1),
        byte_or_zero(bytes, 2),
        byte_or_zero(bytes, 3),
        byte_or_zero(bytes, 4),
        byte_or_zero(bytes, 5),
        byte_or_zero(bytes, 6),
        byte_or_zero(bytes, 7),
    )
}

/// All ones in the low `size` bytes.
pub open spec fn size_mask(size: usize) -> u64 {
    if size == 1 {
        0xff
    } else if size == 2 {
        0xffff
    } else if size == 4 {
        0xffff_ffff
    } else {
        0xffff_ffff_ffff_ffff
    }
}

/// `v` truncated to its low `size` bytes.
pub open spec fn truncate(v: u64, size: usize) -> u64 {
    v & size_mask(size)
}

/// What a read of `size` bytes at `addr` returns.
pub open spec fn read_spec(bytes: Seq<u8>, addr: u64, size: usize) -> Result<u64, MemoryFault> {
    match access_fault(bytes.len(), addr, size) {
        Some(fault) => Err(fault),
        None => Ok(le_value(bytes.subrange(addr as int, addr + size))),
    }
}

/// `bytes` with the `size` bytes from `addr` on replaced by the low bytes of
/// `data`, least significant first.
pub open spec fn store_bytes(bytes: Seq<u8>, addr: u64, size: usize, data: u64) -> Seq<u8> {
    Seq::new(
        bytes.len(),
        |i: int|
            if addr <= i < addr + size {
                byte_of(data, (i - addr) as nat)
            } else {
                bytes[i]
            },
    )
}

/// The memory contents after a write of `size` bytes at `addr`.
pub open spec fn write_spec(bytes: Seq<u8>, addr: u64, size: usize, data: u64) -> Result<
    Seq<u8>,
    MemoryFault,
> {
    match access_fault(bytes.len(), addr, size) {
        Some(fault) => Err(fault),
        None => Ok(store_bytes(bytes, addr, size, data)),
    }
}

/// A flat physical address space with aligned sub-word access.
pub trait Memory {
    /// The contents, one element per byte address.
    spec fn view(&self) -> Seq<u8>;

    /// Reads the `size`-byte little-endian value at `addr`.
    fn read(&self, addr: u64, size: usize) -> (r: Result<u64, MemoryFault>)
        ensures
            r == read_spec(self@, addr, size),
    ;

    /// Replaces the `size` bytes at `addr` by the low bytes of `data`. A
    /// refused write changes nothing.
    fn write(&mut self, addr: u64, size: usize, data: u64) -> (r: Result<(), MemoryFault>)
        ensures
            match write_spec(old(self)@, addr, size, data) {
                Ok(bytes) => r == Ok::<(), MemoryFault>(()) && final(self)@ == bytes,
                Err(fault) => r == Err::<(), MemoryFault>(fault) && final(self)@ == old(self)@,
            },
    ;
}

/// Memory held as a vector of 64-bit words, byte 0 in the low bits.
pub struct SimpleRam {
    mem: Vec<u64>,
}

/// The bytes of a sequence of storage words, low byte first.
spec fn words_to_bytes(words: Seq<u64>) -> Seq<u8> {
    Seq::new(8 * words.len(), |i: int| byte_of(words[i / 8], (i % 8) as nat))
}

proof fn lemma_split_address(addr: u64)
    by (bit_vector)
    ensures
        addr >> 3 == addr / 8,
        addr & 0x7 == addr % 8,
{
}

proof fn lemma_zero_word(k: u64)
    by (bit_vector)
    requires
        k < 8,
    ensures
        byte_of(0, k as nat) == 0,
{
}

/// Masking a shifted word yields the little-endian value of the bytes from
/// offset `k` on.
proof fn lemma_word_read(w: u64, k: u64)
    by (bit_vector)
    requires
        k < 8,
    ensures
        (w >> (8 * k)) & 0xff == pack8(byte_of(w, k as nat), 0, 0, 0, 0, 0, 0, 0),
        k <= 6 ==> (w >> (8 * k)) & 0xffff == pack8(
            byte_of(w, k as nat),
            byte_of(w, (k + 1) as nat),
            0,
            0,
            0,
            0,
            0,
            0,
        ),
        k <= 4 ==> (w >> (8 * k)) & 0xffff_ffff == pack8(
            byte_of(w, k as nat),
            byte_of(w, (k + 1) as nat),
            byte_of(w, (k + 2) as nat),
            byte_of(w, (k + 3) as nat),
            0,
            0,
            0,
            0,
        ),
        k == 0 ==> (w >> (8 * k)) == pack8(
            byte_of(w, 0),
            byte_of(w, 1),
            byte_of(w, 2),
            byte_of(w, 3),
            byte_of(w, 4),
            byte_of(w, 5),
            byte_of(w, 6),
            byte_of(w, 7),
        ),
{
}

/// The bytes of a word after `size` bytes of `data` were merged in at offset
/// `k` under `mask`: byte `k + d` comes from `data`, byte `j` outside the
/// merged range is kept.
proof fn lemma_word_write(old_word: u64, data: u64, k: u64, size: u64, mask: u64, j: u64, d: u64)
    by (bit_vector)
    requires
        j < 8,
        k < 8,
        k + size <= 8,
        (size == 1 && mask == 0xff) || (size == 2 && mask == 0xffff) || (size == 4 && mask
            == 0xffff_ffff) || (size == 8 && mask == 0xffff_ffff_ffff_ffff),
    ensures
        d < size ==> byte_of(
            (old_word & !(mask << (8 * k))) | ((data << (8 * k)) & (mask << (8 * k))),
            (k + d) as nat,
        ) == byte_of(data, d as nat),
        (j < k || j >= k + size) ==> byte_of(
            (old_word & !(mask << (8 * k))) | ((data << (8 * k)) & (mask << (8 * k))),
            j as nat,
        ) == byte_of(old_word, j as nat),
{
}

impl SimpleRam {
    /// A zero-filled memory of `n` storage words, that is `8 * n` bytes.
    pub fn new(n: usize) -> (ram: SimpleRam)
        ensures
            ram@ == Seq::new(8 * n as nat, |i: int| 0u8),
    {
        let ram = SimpleRam { mem: vec![0u64; n] };
        proof {
            assert forall|i: int| 0 <= i < 8 * n implies #[trigger] ram@[i] == 0u8 by {
                lemma_zero_word((i % 8) as u64);
            }
            assert(ram@ =~= Seq::new(8 * n as nat, |i: int| 0u8));
        }
        ram
    }
}

impl Memory for SimpleRam {
    closed spec fn view(&self) -> Seq<u8> {
        words_to_bytes(self.mem@)
    }

    fn read(&self, addr: u64, size: usize) -> (r: Result<u64, MemoryFault>) {
        let index = addr >> 3;
        let byte = addr & 0x7;
        proof {
            lemma_split_address(addr);
        }
        if index >= self.mem.len() as u64 {
            return Err(MemoryFault::OutOfRange);
        }
        if size > 8 - (byte as usize) {
            return Err(MemoryFault::Misaligned);
        }
        let word = self.mem[index as usize];
        let data = word >> (8 * byte);
        proof {
            let sub = self@.subrange(addr as int, addr + size);
            assert forall|i: int| 0 <= i < size implies #[trigger] sub[i] == byte_of(
                word,
                (byte + i) as nat,
            ) by {
                assert((addr + i) / 8 == index as int);
                assert((addr + i) % 8 == byte + i);
            }
            lemma_word_read(word, byte);
        }
        match size {
            1 => Ok(data & 0xFF),
            2 => Ok(data & 0xFFFF),
            4 => Ok(data & 0xFFFF_FFFF),
            8 => Ok(data),
            _ => Err(MemoryFault::InvalidSize),
        }
    }

    fn write(&mut self, addr: u64, size: usize, data: u64) -> (r: Result<(), MemoryFault>) {
        let index = addr >> 3;
        let byte = addr & 0x7;
        proof {
            lemma_split_address(addr);
        }
        if index >= self.mem.len() as u64 {
            return Err(MemoryFault::OutOfRange);
        }
        if size > 8 - (byte as usize) {
            return Err(MemoryFault::Misaligned);
        }
        let ones: u64 = match size {
            1 => 0xFF,
            2 => 0xFFFF,
            4 => 0xFFFF_FFFF,
            8 => 0xFFFF_FFFF_FFFF_FFFF,
            _ => {
                return Err(MemoryFault::InvalidSize);
            },
        };
        let value = data << (8 * byte);
        let mask = ones << (8 * byte);
        let old_word = self.mem[index as usize];
        let new_word = (old_word & !mask) | (value & mask);
        self.mem[index as usize] = new_word;
        proof {
            let before = old(self)@;
            let after = self@;
            assert forall|i: int| 0 <= i < before.len() implies #[trigger] after[i] == store_bytes(
                before,
                addr,
                size,
                data,
            )[i] by {
                if i / 8 == index as int {
                    let j = (i % 8) as u64;
                    let d = if byte <= j { (j - byte) as u64 } else { 0 };
                    lemma_word_write(old_word, data, byte, size as u64, ones, j, d);
                }
            }
            assert(after =~= store_bytes(before, addr, size, data));
        }
        Ok(())
    }
}

/// A value written and read back with the same address and size comes back
/// truncated to that size.
pub proof fn lemma_read_after_write(bytes: Seq<u8>, addr: u64, size: usize, data: u64)
    requires
        access_fault(bytes.len(), addr, size) is None,
    ensures
        write_spec(bytes, addr, size, data) is Ok,
        read_spec(write_spec(bytes, addr, size, data)->Ok_0, addr, size) == Ok::<u64, MemoryFault>(
            truncate(data, size),
        ),
{
    let after = store_bytes(bytes, addr, size, data);
    let sub = after.subrange(addr as int, addr + size);
    assert forall|i: int| 0 <= i < size implies #[trigger] sub[i] == byte_of(data, i as nat) by {}
    lemma_word_read(data, 0);
    assert(data >> 0 == data && data & 0xffff_ffff_ffff_ffff == data) by (bit_vector);
}

/// A write changes no byte outside `[addr, addr + size)` and keeps the
/// capacity; a refused write changes nothing at all.
pub proof fn lemma_write_frame(bytes: Seq<u8>, addr: u64, size: usize, data: u64)
    ensures
        match write_spec(bytes, addr, size, data) {
            Ok(after) => {
                &&& after.len() == bytes.len()
                &&& forall|i: int|
                    0 <= i < bytes.len() && !(addr <= i < addr + size) ==> after[i] == bytes[i]
            },
            Err(_) => true,
        },
{
}

/// Every access that has an invalid size, crosses a storage word or lies
/// beyond the capacity is refused, and with the matching fault.
pub proof fn lemma_fault_kinds(len: nat, addr: u64, size: usize)
    ensures
        access_fault(len, addr, size) is None <==> (valid_size(size) && addr as nat % 8 + size <= 8
            && addr as nat / 8 < len / 8),
        access_fault(len, addr, size) == Some(MemoryFault::OutOfRange) <==> addr as nat / 8 >= len
            / 8,
        access_fault(len, addr, size) == Some(MemoryFault::Misaligned) <==> (addr as nat / 8 < len
            / 8 && addr as nat % 8 + size > 8),
        access_fault(len, addr, size) == Some(MemoryFault::InvalidSize) <==> (addr as nat / 8 < len
            / 8 && addr as nat % 8 + size <= 8 && !valid_size(size)),
{
}

} // verus!

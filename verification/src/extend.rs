//! Widening of a loaded value to the full register width.

use vstd::prelude::*;
use crate::memory::{byte_of, valid_size};

verus! {

/// Two to the power `8 * size`, for the sizes below eight bytes.
pub open spec fn size_modulus(size: usize) -> int {
    if size == 1 {
        0x100
    } else if size == 2 {
        0x1_0000
    } else {
        0x1_0000_0000
    }
}

/// `raw` cut down to its low `size` bytes and widened to 64 bits again: by
/// zeros, or, if `sign_extend` is set, by copies of the top bit of those
/// bytes, which is to read them as a two's-complement number.
pub open spec fn extend_spec(raw: u64, size: usize, sign_extend: bool) -> u64 {
    if size == 8 {
        raw
    } else {
        let modulus = size_modulus(size);
        let low = raw as int % modulus;
        if sign_extend && 2 * low >= modulus {
            (low + 0x1_0000_0000_0000_0000 - modulus) as u64
        } else {
            low as u64
        }
    }
}

proof fn lemma_casts(raw: u64)
    by (bit_vector)
    ensures
        (raw as u8) as u64 == raw % 0x100,
        (raw as u16) as u64 == raw % 0x1_0000,
        (raw as u32) as u64 == raw % 0x1_0000_0000,
        (raw as i8) as u64 == (if 2 * (raw % 0x100) >= 0x100 {
            raw % 0x100 + 0xffff_ffff_ffff_ff00
        } else {
            (raw % 0x100) as int
        }),
        (raw as i16) as u64 == (if 2 * (raw % 0x1_0000) >= 0x1_0000 {
            raw % 0x1_0000 + 0xffff_ffff_ffff_0000
        } else {
            (raw % 0x1_0000) as int
        }),
        (raw as i32) as u64 == (if 2 * (raw % 0x1_0000_0000) >= 0x1_0000_0000 {
            raw % 0x1_0000_0000 + 0xffff_ffff_0000_0000
        } else {
            (raw % 0x1_0000_0000) as int
        }),
{
}

/// Cuts `data` down to `size` bytes and widens it to 64 bits, by sign or by
/// zeros.
pub fn riscv_extend(data: u64, size: usize, sign_extend: bool) -> (r: u64)
    requires
        valid_size(size),
    ensures
        r == extend_spec(data, size, sign_extend),
{
    proof {
        lemma_casts(data);
    }
    if size == 1 {
        if sign_extend {
            (data as i8) as u64
        } else {
            (data as u8) as u64
        }
    } else if size == 2 {
        if sign_extend {
            (data as i16) as u64
        } else {
            (data as u16) as u64
        }
    } else if size == 4 {
        if sign_extend {
            (data as i32) as u64
        } else {
            (data as u32) as u64
        }
    } else {
        data
    }
}

/// An eight-byte value is its own extension.
pub proof fn lemma_extend_doubleword(raw: u64, sign_extend: bool)
    ensures
        extend_spec(raw, 8, sign_extend) == raw,
{
}

/// Extending twice is extending once.
pub proof fn lemma_extend_idempotent(raw: u64, size: usize, sign_extend: bool)
    requires
        valid_size(size),
    ensures
        extend_spec(extend_spec(raw, size, sign_extend), size, sign_extend) == extend_spec(
            raw,
            size,
            sign_extend,
        ),
{
    if size == 1 {
        let low = raw as int % 0x100;
        assert((low + 0xffff_ffff_ffff_ff00) % 0x100 == low);
    } else if size == 2 {
        let low = raw as int % 0x1_0000;
        assert((low + 0xffff_ffff_ffff_0000) % 0x1_0000 == low);
    } else if size == 4 {
        let low = raw as int % 0x1_0000_0000;
        assert((low + 0xffff_ffff_0000_0000) % 0x1_0000_0000 == low);
    }
}

proof fn lemma_extended_bytes(raw: u64, i: u64)
    by (bit_vector)
    requires
        i < 8,
    ensures
        i < 1 ==> byte_of((raw % 0x100) as u64, i as nat) == byte_of(raw, i as nat),
        i >= 1 ==> byte_of((raw % 0x100) as u64, i as nat) == 0,
        i < 1 ==> byte_of((raw % 0x100 + 0xffff_ffff_ffff_ff00) as u64, i as nat) == byte_of(
            raw,
            i as nat,
        ),
        i >= 1 ==> byte_of((raw % 0x100 + 0xffff_ffff_ffff_ff00) as u64, i as nat) == 0xff,
        i < 2 ==> byte_of((raw % 0x1_0000) as u64, i as nat) == byte_of(raw, i as nat),
        i >= 2 ==> byte_of((raw % 0x1_0000) as u64, i as nat) == 0,
        i < 2 ==> byte_of((raw % 0x1_0000 + 0xffff_ffff_ffff_0000) as u64, i as nat) == byte_of(
            raw,
            i as nat,
        ),
        i >= 2 ==> byte_of((raw % 0x1_0000 + 0xffff_ffff_ffff_0000) as u64, i as nat) == 0xff,
        i < 4 ==> byte_of((raw % 0x1_0000_0000) as u64, i as nat) == byte_of(raw, i as nat),
        i >= 4 ==> byte_of((raw % 0x1_0000_0000) as u64, i as nat) == 0,
        i < 4 ==> byte_of((raw % 0x1_0000_0000 + 0xffff_ffff_0000_0000) as u64, i as nat)
            == byte_of(raw, i as nat),
        i >= 4 ==> byte_of((raw % 0x1_0000_0000 + 0xffff_ffff_0000_0000) as u64, i as nat) == 0xff,
        2 * (raw % 0x100) >= 0x100 <==> byte_of(raw, 0) >= 0x80,
        2 * (raw % 0x1_0000) >= 0x1_0000 <==> byte_of(raw, 1) >= 0x80,
        2 * (raw % 0x1_0000_0000) >= 0x1_0000_0000 <==> byte_of(raw, 3) >= 0x80,
{
}

/// The bytes of an extended value: the low `size` bytes are those of the
/// input. Where the top bit of these is set, sign extension fills every
/// higher byte with ones; in every other case the higher bytes are zero.
pub proof fn lemma_extend_bytes(raw: u64, size: usize, sign_extend: bool, i: nat)
    requires
        valid_size(size),
        i < 8,
    ensures
        i < size ==> byte_of(extend_spec(raw, size, sign_extend), i) == byte_of(raw, i),
        i >= size ==> byte_of(extend_spec(raw, size, sign_extend), i) == (if sign_extend && byte_of(
            raw,
            (size - 1) as nat,
        ) >= 0x80 {
            0xffu8
        } else {
            0u8
        }),
{
    lemma_extended_bytes(raw, i as u64);
}

} // verus!

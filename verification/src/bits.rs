//! Pure bit-field arithmetic on 8- and 16-bit register values: extracting and
//! inserting a contiguous run of `len` bits at offset `bit`, single-bit
//! reads and read-modify-write updates, and byte/word assembly. These are the
//! computational half of the bus register helpers; the bus transactions
//! around them live in the bus module.

use vstd::prelude::*;

verus! {

/// The low `len` bits of an 8-bit register, all set.
pub open spec fn low_mask8(len: u8) -> u8 {
    (((1u16 << len) - 1) as u8)
}

/// The low `len` bits of a 16-bit register, all set.
pub open spec fn low_mask16(len: u8) -> u16 {
    (((1u32 << len) - 1) as u16)
}

/// The field of `len` bits at offset `bit` of an 8-bit register.
pub open spec fn field_of8(reg: u8, bit: u8, len: u8) -> u8 {
    (reg >> bit) & low_mask8(len)
}

/// The field of `len` bits at offset `bit` of a 16-bit register.
pub open spec fn field_of16(reg: u16, bit: u8, len: u8) -> u16 {
    (reg >> bit) & low_mask16(len)
}

/// The register with the field of `len` bits at offset `bit` replaced by
/// `value`, all other bits kept.
pub open spec fn with_field8(reg: u8, bit: u8, len: u8, value: u8) -> u8 {
    (reg & !(low_mask8(len) << bit)) | (value << bit)
}

/// The register with the field of `len` bits at offset `bit` replaced by
/// `value`, all other bits kept.
pub open spec fn with_field16(reg: u16, bit: u8, len: u8, value: u16) -> u16 {
    (reg & !(low_mask16(len) << bit)) | (value << bit)
}

/// Whether the bit at offset `bit` of an 8-bit register is set.
pub open spec fn bit_of8(reg: u8, bit: u8) -> bool {
    (reg >> bit) & 1 == 1
}

/// Whether the bit at offset `bit` of a 16-bit register is set.
pub open spec fn bit_of16(reg: u16, bit: u8) -> bool {
    (reg >> bit) & 1 == 1
}

/// Extract the field of `len` bits at offset `bit` of an 8-bit register.
pub fn read_field8(reg: u8, bit: u8, len: u8) -> (r: u8)
    requires
        1 <= len,
        bit + len <= 8,
    ensures
        r == field_of8(reg, bit, len),
        r < (1u16 << len),
{
    proof {
        assert((reg & (((((1u16 << len) - 1) as u8)) << bit)) >> bit == (reg >> bit) & (((1u16
            << len) - 1) as u8) && (reg >> bit) & (((1u16 << len) - 1) as u8) < (1u16 << len))
            by (bit_vector)
            requires
                1 <= len && bit + len <= 8,
        ;
    }
    let filtre: u8 = ((1u16 << len) - 1) as u8;
    (reg & (filtre << bit)) >> bit
}

/// Extract the field of `len` bits at offset `bit` of a 16-bit register.
pub fn read_field16(reg: u16, bit: u8, len: u8) -> (r: u16)
    requires
        1 <= len,
        bit + len <= 16,
    ensures
        r == field_of16(reg, bit, len),
        r < (1u32 << len),
{
    proof {
        assert((reg & (((((1u32 << len) - 1) as u16)) << bit)) >> bit == (reg >> bit) & (((1u32
            << len) - 1) as u16) && (reg >> bit) & (((1u32 << len) - 1) as u16) < (1u32 << len))
            by (bit_vector)
            requires
                1 <= len && bit + len <= 16,
        ;
    }
    let filtre: u16 = ((1u32 << len) - 1) as u16;
    (reg & (filtre << bit)) >> bit
}

/// Replace the field of `len` bits at offset `bit` of an 8-bit register by
/// `value`, preserving every bit outside the field.
pub fn write_field8(reg: u8, bit: u8, len: u8, value: u8) -> (r: u8)
    requires
        1 <= len,
        bit + len <= 8,
        value < (1u16 << len),
    ensures
        r == with_field8(reg, bit, len, value),
{
    let filtre: u8 = ((1u16 << len) - 1) as u8;
    (reg & !(filtre << bit)) | (value << bit)
}

/// Replace the field of `len` bits at offset `bit` of a 16-bit register by
/// `value`, preserving every bit outside the field.
pub fn write_field16(reg: u16, bit: u8, len: u8, value: u16) -> (r: u16)
    requires
        1 <= len,
        bit + len <= 16,
        value < (1u32 << len),
    ensures
        r == with_field16(reg, bit, len, value),
{
    let filtre: u16 = ((1u32 << len) - 1) as u16;
    (reg & !(filtre << bit)) | (value << bit)
}

/// Whether the bit at offset `bit` of an 8-bit register is set.
pub fn read_bit8(reg: u8, bit: u8) -> (r: bool)
    requires
        bit < 8,
    ensures
        r == bit_of8(reg, bit),
{
    proof {
        assert(((reg & (1u8 << bit)) == (1u8 << bit)) == ((reg >> bit) & 1 == 1)) by (bit_vector)
            requires
                bit < 8,
        ;
    }
    (reg & (1u8 << bit)) == (1u8 << bit)
}

/// Whether the bit at offset `bit` of a 16-bit register is set.
pub fn read_bit16(reg: u16, bit: u8) -> (r: bool)
    requires
        bit < 16,
    ensures
        r == bit_of16(reg, bit),
{
    proof {
        assert(((reg & (1u16 << bit)) == (1u16 << bit)) == ((reg >> bit) & 1 == 1)) by (bit_vector)
            requires
                bit < 16,
        ;
    }
    (reg & (1u16 << bit)) == (1u16 << bit)
}

/// Set or clear the bit at offset `bit` of an 8-bit register, preserving
/// every other bit.
pub fn write_bit8(reg: u8, bit: u8, state: bool) -> (r: u8)
    requires
        bit < 8,
    ensures
        bit_of8(r, bit) == state,
        forall|i: u8| i < 8 && i != bit ==> bit_of8(r, i) == bit_of8(reg, i),
{
    let r = if state {
        reg | (1u8 << bit)
    } else {
        reg & !(1u8 << bit)
    };
    proof {
        lemma_write_bit8(reg, bit, state);
    }
    r
}

/// Set or clear the bit at offset `bit` of a 16-bit register, preserving
/// every other bit.
pub fn write_bit16(reg: u16, bit: u8, state: bool) -> (r: u16)
    requires
        bit < 16,
    ensures
        bit_of16(r, bit) == state,
        forall|i: u8| i < 16 && i != bit ==> bit_of16(r, i) == bit_of16(reg, i),
{
    let r = if state {
        reg | (1u16 << bit)
    } else {
        reg & !(1u16 << bit)
    };
    proof {
        lemma_write_bit16(reg, bit, state);
    }
    r
}

proof fn lemma_write_bit8(reg: u8, bit: u8, state: bool)
    by (bit_vector)
    requires
        bit < 8,
    ensures
        bit_of8(if state { reg | (1u8 << bit) } else { reg & !(1u8 << bit) }, bit) == state,
        forall|i: u8|
            i < 8 && i != bit ==> bit_of8(
                if state { reg | (1u8 << bit) } else { reg & !(1u8 << bit) },
                i,
            ) == bit_of8(reg, i),
{
}

proof fn lemma_write_bit16(reg: u16, bit: u8, state: bool)
    by (bit_vector)
    requires
        bit < 16,
    ensures
        bit_of16(if state { reg | (1u16 << bit) } else { reg & !(1u16 << bit) }, bit) == state,
        forall|i: u8|
            i < 16 && i != bit ==> bit_of16(
                if state { reg | (1u16 << bit) } else { reg & !(1u16 << bit) },
                i,
            ) == bit_of16(reg, i),
{
}

/// Round trip through a bit field of an 8-bit register: reading the field
/// just written yields the written value, and every bit outside the field is
/// preserved by the write.
pub proof fn lemma_field8_roundtrip(reg: u8, bit: u8, len: u8, value: u8)
    by (bit_vector)
    requires
        1 <= len,
        bit + len <= 8,
        value < (1u16 << len),
    ensures
        field_of8(with_field8(reg, bit, len, value), bit, len) == value,
        forall|i: u8|
            i < 8 && !(bit <= i < bit + len) ==> bit_of8(with_field8(reg, bit, len, value), i)
                == bit_of8(reg, i),
{
}

/// Round trip through a bit field of a 16-bit register: reading the field
/// just written yields the written value, and every bit outside the field is
/// preserved by the write.
pub proof fn lemma_field16_roundtrip(reg: u16, bit: u8, len: u8, value: u16)
    by (bit_vector)
    requires
        1 <= len,
        bit + len <= 16,
        value < (1u32 << len),
    ensures
        field_of16(with_field16(reg, bit, len, value), bit, len) == value,
        forall|i: u8|
            i < 16 && !(bit <= i < bit + len) ==> bit_of16(with_field16(reg, bit, len, value), i)
                == bit_of16(reg, i),
{
}

/// Small powers of two as shift results, for register fields of one to four
/// bits.
pub proof fn lemma_shift_consts()
    by (bit_vector)
    ensures
        (1u16 << 1u8) == 2,
        (1u16 << 2u8) == 4,
        (1u16 << 3u8) == 8,
        (1u16 << 4u8) == 16,
        (1u32 << 1u8) == 2,
        (1u32 << 2u8) == 4,
        (1u32 << 3u8) == 8,
        (1u32 << 4u8) == 16,
{
}

/// Assemble a 16-bit word from its high and low bytes.
pub fn word_from_bytes(high: u8, low: u8) -> (r: u16)
    ensures
        r == high * 256 + low,
{
    proof {
        assert(((high as u16) << 8) | (low as u16) == high * 256 + low) by (bit_vector);
    }
    ((high as u16) << 8) | (low as u16)
}

/// Split a 16-bit word into its high and low bytes.
pub fn bytes_from_word(data: u16) -> (r: (u8, u8))
    ensures
        r.0 == data / 256,
        r.1 == data % 256,
        r.0 * 256 + r.1 == data,
{
    proof {
        assert((data >> 8) as u8 == data / 256 && (data as u8) == data % 256 && (data / 256) * 256
            + data % 256 == data) by (bit_vector);
    }
    ((data >> 8) as u8, data as u8)
}

/// The two's-complement reading of a 16-bit word: the value of the word as a
/// signed 16-bit sample.
pub open spec fn as_signed16(w: int) -> int {
    if w < 0x8000 {
        w
    } else {
        w - 0x10000
    }
}

/// Assemble a signed 16-bit sample from its high and low bytes, as a sensor
/// delivers it on the bus.
pub fn signed_from_bytes(high: u8, low: u8) -> (r: i16)
    ensures
        r == as_signed16(high * 256 + low),
{
    proof {
        assert((((high as i16) << 8) | (low as i16)) == (if high * 256 + low < 0x8000 {
            high * 256 + low
        } else {
            high * 256 + low - 0x10000
        })) by (bit_vector);
    }
    ((high as i16) << 8) | (low as i16)
}

} // verus!

//! Common Intermediate Language: opcode table, little-endian operand encoding,
//! and bounds-checked readers over an IL byte stream.

pub mod instruction;

use vstd::prelude::*;

verus! {

/// Error raised while reading IL bytes.
#[derive(Clone, Copy, Debug, PartialEq, Eq, Structural)]
pub enum CilError {
    /// The bytes do not hold a complete, known instruction at this position.
    InvalidCil,
}

/// The shape of the inline operand that follows an opcode.
#[derive(Clone, Copy, Debug, PartialEq, Eq, Structural)]
pub enum OperandParams {
    InlineNone,
    ShortInlineVar,
    InlineVar,
    ShortInlineI,
    InlineI,
    InlineI8,
    ShortInlineR,
    InlineR,
    InlineMethod,
    InlineSig,
    ShortInlineBrTarget,
    InlineBrTarget,
    InlineSwitch,
    InlineType,
    InlineString,
    InlineField,
    InlineTok,
}

/// An opcode as laid out in the ECMA-335 opcode table: one-byte opcodes have
/// `length == 1`, `byte_1 == 0xFF` and their value in `byte_2`; two-byte opcodes
/// have `length == 2`, the `0xFE` prefix in `byte_1` and their value in `byte_2`.
#[derive(Clone, Copy, Debug, PartialEq, Eq, Structural)]
pub struct Opcode {
    pub length: u8,
    pub byte_1: u8,
    pub byte_2: u8,
    pub operand_params: OperandParams,
}

/// Operand shape of each one-byte opcode; `None` where the byte is not an opcode.
pub open spec fn single_byte_params(b: u8) -> Option<OperandParams> {
    if b <= 0x0D { Some(OperandParams::InlineNone) }
    else if b <= 0x13 { Some(OperandParams::ShortInlineVar) }
    else if b <= 0x1E { Some(OperandParams::InlineNone) }
    else if b == 0x1F { Some(OperandParams::ShortInlineI) }
    else if b == 0x20 { Some(OperandParams::InlineI) }
    else if b == 0x21 { Some(OperandParams::InlineI8) }
    else if b == 0x22 { Some(OperandParams::ShortInlineR) }
    else if b == 0x23 { Some(OperandParams::InlineR) }
    else if b == 0x24 { None }
    else if b <= 0x26 { Some(OperandParams::InlineNone) }
    else if b <= 0x28 { Some(OperandParams::InlineMethod) }
    else if b == 0x29 { Some(OperandParams::InlineSig) }
    else if b == 0x2A { Some(OperandParams::InlineNone) }
    else if b <= 0x37 { Some(OperandParams::ShortInlineBrTarget) }
    else if b <= 0x44 { Some(OperandParams::InlineBrTarget) }
    else if b == 0x45 { Some(OperandParams::InlineSwitch) }
    else if b <= 0x6E { Some(OperandParams::InlineNone) }
    else if b == 0x6F { Some(OperandParams::InlineMethod) }
    else if b <= 0x71 { Some(OperandParams::InlineType) }
    else if b == 0x72 { Some(OperandParams::InlineString) }
    else if b == 0x73 { Some(OperandParams::InlineMethod) }
    else if b <= 0x75 { Some(OperandParams::InlineType) }
    else if b == 0x76 { Some(OperandParams::InlineNone) }
    else if b <= 0x78 { None }
    else if b == 0x79 { Some(OperandParams::InlineType) }
    else if b == 0x7A { Some(OperandParams::InlineNone) }
    else if b <= 0x80 { Some(OperandParams::InlineField) }
    else if b == 0x81 { Some(OperandParams::InlineType) }
    else if b <= 0x8B { Some(OperandParams::InlineNone) }
    else if b <= 0x8D { Some(OperandParams::InlineType) }
    else if b == 0x8E { Some(OperandParams::InlineNone) }
    else if b == 0x8F { Some(OperandParams::InlineType) }
    else if b <= 0xA2 { Some(OperandParams::InlineNone) }
    else if b <= 0xA5 { Some(OperandParams::InlineType) }
    else if b <= 0xB2 { None }
    else if b <= 0xBA { Some(OperandParams::InlineNone) }
    else if b <= 0xC1 { None }
    else if b == 0xC2 { Some(OperandParams::InlineType) }
    else if b == 0xC3 { Some(OperandParams::InlineNone) }
    else if b <= 0xC5 { None }
    else if b == 0xC6 { Some(OperandParams::InlineType) }
    else if b <= 0xCF { None }
    else if b == 0xD0 { Some(OperandParams::InlineTok) }
    else if b <= 0xDC { Some(OperandParams::InlineNone) }
    else if b == 0xDD { Some(OperandParams::InlineBrTarget) }
    else if b == 0xDE { Some(OperandParams::ShortInlineBrTarget) }
    else if b <= 0xE0 { Some(OperandParams::InlineNone) }
    else { None }
}

/// Operand shape of each two-byte opcode `0xFE b`; `None` where `b` is not one.
pub open spec fn double_byte_params(b: u8) -> Option<OperandParams> {
    if b <= 0x05 { Some(OperandParams::InlineNone) }
    else if b <= 0x07 { Some(OperandParams::InlineMethod) }
    else if b == 0x08 { None }
    else if b <= 0x0E { Some(OperandParams::InlineVar) }
    else if b == 0x0F { Some(OperandParams::InlineNone) }
    else if b == 0x10 { None }
    else if b == 0x11 { Some(OperandParams::InlineNone) }
    else if b == 0x12 { Some(OperandParams::ShortInlineI) }
    else if b <= 0x14 { Some(OperandParams::InlineNone) }
    else if b <= 0x16 { Some(OperandParams::InlineType) }
    else if b <= 0x18 { Some(OperandParams::InlineNone) }
    else if b == 0x19 { None }
    else if b == 0x1A { Some(OperandParams::InlineNone) }
    else if b == 0x1B { None }
    else if b == 0x1C { Some(OperandParams::InlineType) }
    else if b <= 0x1E { Some(OperandParams::InlineNone) }
    else { None }
}

/// The table entry of the one-byte opcode `b`.
pub open spec fn single_opcode(b: u8) -> Opcode {
    Opcode { length: 1, byte_1: 0xFF, byte_2: b, operand_params: single_byte_params(b).unwrap() }
}

/// The table entry of the two-byte opcode `0xFE b`.
pub open spec fn double_opcode(b: u8) -> Opcode {
    Opcode { length: 2, byte_1: 0xFE, byte_2: b, operand_params: double_byte_params(b).unwrap() }
}

impl Opcode {
    /// The opcode is an entry of the opcode table.
    pub open spec fn wf(self) -> bool {
        ||| (single_byte_params(self.byte_2) is Some && self == single_opcode(self.byte_2))
        ||| (double_byte_params(self.byte_2) is Some && self == double_opcode(self.byte_2))
    }

    /// The bytes by which the opcode is written into an IL stream.
    pub open spec fn spec_bytes(self) -> Seq<u8> {
        if self.length == 1 {
            seq![self.byte_2]
        } else if self.length == 2 {
            seq![self.byte_1, self.byte_2]
        } else {
            seq![]
        }
    }

    /// Looks up the one-byte opcode `byte`.
    pub fn from_byte(byte: u8) -> (r: Opcode)
        requires
            single_byte_params(byte) is Some,
        ensures
            r == single_opcode(byte),
    {
        let params = single_byte_operand_params(byte);
        match params {
            Some(p) => Opcode { length: 1, byte_1: 0xFF, byte_2: byte, operand_params: p },
            None => Opcode { length: 1, byte_1: 0xFF, byte_2: byte, operand_params: OperandParams::InlineNone },
        }
    }

    /// Looks up the two-byte opcode written as `pair`; fails unless the first byte
    /// is the `0xFE` prefix and the second one names a two-byte opcode.
    pub fn from_byte_pair(pair: (u8, u8)) -> (r: Result<Opcode, CilError>)
        ensures
            match r {
                Ok(op) => pair.0 == 0xFE && double_byte_params(pair.1) is Some && op == double_opcode(pair.1),
                Err(e) => e == CilError::InvalidCil && (pair.0 != 0xFE || double_byte_params(pair.1) is None),
            },
    {
        let (byte_1, byte_2) = pair;
        if byte_1 != 0xFE {
            return Err(CilError::InvalidCil);
        }
        match double_byte_operand_params(byte_2) {
            Some(p) => Ok(Opcode { length: 2, byte_1: 0xFE, byte_2: byte_2, operand_params: p }),
            None => Err(CilError::InvalidCil),
        }
    }
}

/// Executable form of [`single_byte_params`].
pub fn single_byte_operand_params(b: u8) -> (r: Option<OperandParams>)
    ensures
        r == single_byte_params(b),
{
    if b <= 0x0D { Some(OperandParams::InlineNone) }
    else if b <= 0x13 { Some(OperandParams::ShortInlineVar) }
    else if b <= 0x1E { Some(OperandParams::InlineNone) }
    else if b == 0x1F { Some(OperandParams::ShortInlineI) }
    else if b == 0x20 { Some(OperandParams::InlineI) }
    else if b == 0x21 { Some(OperandParams::InlineI8) }
    else if b == 0x22 { Some(OperandParams::ShortInlineR) }
    else if b == 0x23 { Some(OperandParams::InlineR) }
    else if b == 0x24 { None }
    else if b <= 0x26 { Some(OperandParams::InlineNone) }
    else if b <= 0x28 { Some(OperandParams::InlineMethod) }
    else if b == 0x29 { Some(OperandParams::InlineSig) }
    else if b == 0x2A { Some(OperandParams::InlineNone) }
    else if b <= 0x37 { Some(OperandParams::ShortInlineBrTarget) }
    else if b <= 0x44 { Some(OperandParams::InlineBrTarget) }
    else if b == 0x45 { Some(OperandParams::InlineSwitch) }
    else if b <= 0x6E { Some(OperandParams::InlineNone) }
    else if b == 0x6F { Some(OperandParams::InlineMethod) }
    else if b <= 0x71 { Some(OperandParams::InlineType) }
    else if b == 0x72 { Some(OperandParams::InlineString) }
    else if b == 0x73 { Some(OperandParams::InlineMethod) }
    else if b <= 0x75 { Some(OperandParams::InlineType) }
    else if b == 0x76 { Some(OperandParams::InlineNone) }
    else if b <= 0x78 { None }
    else if b == 0x79 { Some(OperandParams::InlineType) }
    else if b == 0x7A { Some(OperandParams::InlineNone) }
    else if b <= 0x80 { Some(OperandParams::InlineField) }
    else if b == 0x81 { Some(OperandParams::InlineType) }
    else if b <= 0x8B { Some(OperandParams::InlineNone) }
    else if b <= 0x8D { Some(OperandParams::InlineType) }
    else if b == 0x8E { Some(OperandParams::InlineNone) }
    else if b == 0x8F { Some(OperandParams::InlineType) }
    else if b <= 0xA2 { Some(OperandParams::InlineNone) }
    else if b <= 0xA5 { Some(OperandParams::InlineType) }
    else if b <= 0xB2 { None }
    else if b <= 0xBA { Some(OperandParams::InlineNone) }
    else if b <= 0xC1 { None }
    else if b == 0xC2 { Some(OperandParams::InlineType) }
    else if b == 0xC3 { Some(OperandParams::InlineNone) }
    else if b <= 0xC5 { None }
    else if b == 0xC6 { Some(OperandParams::InlineType) }
    else if b <= 0xCF { None }
    else if b == 0xD0 { Some(OperandParams::InlineTok) }
    else if b <= 0xDC { Some(OperandParams::InlineNone) }
    else if b == 0xDD { Some(OperandParams::InlineBrTarget) }
    else if b == 0xDE { Some(OperandParams::ShortInlineBrTarget) }
    else if b <= 0xE0 { Some(OperandParams::InlineNone) }
    else { None }
}

/// Executable form of [`double_byte_params`].
pub fn double_byte_operand_params(b: u8) -> (r: Option<OperandParams>)
    ensures
        r == double_byte_params(b),
{
    if b <= 0x05 { Some(OperandParams::InlineNone) }
    else if b <= 0x07 { Some(OperandParams::InlineMethod) }
    else if b == 0x08 { None }
    else if b <= 0x0E { Some(OperandParams::InlineVar) }
    else if b == 0x0F { Some(OperandParams::InlineNone) }
    else if b == 0x10 { None }
    else if b == 0x11 { Some(OperandParams::InlineNone) }
    else if b == 0x12 { Some(OperandParams::ShortInlineI) }
    else if b <= 0x14 { Some(OperandParams::InlineNone) }
    else if b <= 0x16 { Some(OperandParams::InlineType) }
    else if b <= 0x18 { Some(OperandParams::InlineNone) }
    else if b == 0x19 { None }
    else if b == 0x1A { Some(OperandParams::InlineNone) }
    else if b == 0x1B { None }
    else if b == 0x1C { Some(OperandParams::InlineType) }
    else if b <= 0x1E { Some(OperandParams::InlineNone) }
    else { None }
}

// ---------------------------------------------------------------------------
// Little-endian byte layout of operands
// ---------------------------------------------------------------------------

/// Little-endian bytes of a `u16`.
pub open spec fn le_u16(v: u16) -> Seq<u8> {
    seq![(v & 0xff) as u8, (v >> 8u16) as u8]
}

/// Little-endian bytes of a `u32`.
pub open spec fn le_u32(v: u32) -> Seq<u8> {
    seq![(v & 0xff) as u8, ((v >> 8u32) & 0xff) as u8, ((v >> 16u32) & 0xff) as u8, (v >> 24u32) as u8]
}

/// Little-endian bytes of a `u64`: the low word, then the high word.
pub open spec fn le_u64(v: u64) -> Seq<u8> {
    le_u32((v & 0xffff_ffff) as u32) + le_u32((v >> 32u64) as u32)
}

pub proof fn lemma_le_u16_decode(b0: u8, b1: u8)
    ensures
        le_u16((b0 as u16) | ((b1 as u16) << 8u16)) == seq![b0, b1],
{
    let v = (b0 as u16) | ((b1 as u16) << 8u16);
    assert((((b0 as u16) | ((b1 as u16) << 8u16)) & 0xff) as u8 == b0 && (((b0 as u16) | ((b1 as u16) << 8u16)) >> 8u16) as u8 == b1) by (bit_vector);
    assert(le_u16(v) =~= seq![b0, b1]);
}

pub proof fn lemma_le_u16_injective(a: u16, b: u16)
    requires
        le_u16(a) == le_u16(b),
    ensures
        a == b,
{
    assert(le_u16(a)[0] == le_u16(b)[0] && le_u16(a)[1] == le_u16(b)[1]);
    assert(((a & 0xff) as u8 == (b & 0xff) as u8 && (a >> 8u16) as u8 == (b >> 8u16) as u8) ==> a == b) by (bit_vector);
}

pub open spec fn from_le_u32(b0: u8, b1: u8, b2: u8, b3: u8) -> u32 {
    (b0 as u32) | ((b1 as u32) << 8u32) | ((b2 as u32) << 16u32) | ((b3 as u32) << 24u32)
}

pub proof fn lemma_le_u32_decode(b0: u8, b1: u8, b2: u8, b3: u8)
    ensures
        le_u32(from_le_u32(b0, b1, b2, b3)) == seq![b0, b1, b2, b3],
{
    let v = from_le_u32(b0, b1, b2, b3);
    assert(v == (b0 as u32) | ((b1 as u32) << 8u32) | ((b2 as u32) << 16u32) | ((b3 as u32) << 24u32));
    assert(v == (b0 as u32) | ((b1 as u32) << 8u32) | ((b2 as u32) << 16u32) | ((b3 as u32) << 24u32) ==> {
        &&& (v & 0xff) as u8 == b0
        &&& ((v >> 8u32) & 0xff) as u8 == b1
        &&& ((v >> 16u32) & 0xff) as u8 == b2
        &&& (v >> 24u32) as u8 == b3
    }) by (bit_vector);
    assert(le_u32(v) =~= seq![b0, b1, b2, b3]);
}

pub proof fn lemma_le_u32_injective(a: u32, b: u32)
    requires
        le_u32(a) == le_u32(b),
    ensures
        a == b,
{
    assert(le_u32(a)[0] == le_u32(b)[0] && le_u32(a)[1] == le_u32(b)[1] && le_u32(a)[2] == le_u32(b)[2] && le_u32(a)[3] == le_u32(b)[3]);
    assert((
        (a & 0xff) as u8 == (b & 0xff) as u8
        && ((a >> 8u32) & 0xff) as u8 == ((b >> 8u32) & 0xff) as u8
        && ((a >> 16u32) & 0xff) as u8 == ((b >> 16u32) & 0xff) as u8
        && (a >> 24u32) as u8 == (b >> 24u32) as u8
    ) ==> a == b) by (bit_vector);
}

pub proof fn lemma_le_u64_decode(lo: u32, hi: u32)
    ensures
        le_u64((lo as u64) | ((hi as u64) << 32u64)) == le_u32(lo) + le_u32(hi),
{
    let v = (lo as u64) | ((hi as u64) << 32u64);
    assert(((((lo as u64) | ((hi as u64) << 32u64)) & 0xffff_ffff) as u32 == lo) && ((((lo as u64) | ((hi as u64) << 32u64)) >> 32u64) as u32 == hi)) by (bit_vector);
}

pub proof fn lemma_le_u64_injective(a: u64, b: u64)
    requires
        le_u64(a) == le_u64(b),
    ensures
        a == b,
{
    let la = (a & 0xffff_ffff) as u32;
    let ha = (a >> 32u64) as u32;
    let lb = (b & 0xffff_ffff) as u32;
    let hb = (b >> 32u64) as u32;
    assert(le_u32(la) =~= le_u64(a).subrange(0, 4));
    assert(le_u32(lb) =~= le_u64(b).subrange(0, 4));
    assert(le_u32(ha) =~= le_u64(a).subrange(4, 8));
    assert(le_u32(hb) =~= le_u64(b).subrange(4, 8));
    lemma_le_u32_injective(la, lb);
    lemma_le_u32_injective(ha, hb);
    assert(((a & 0xffff_ffff) as u32 == (b & 0xffff_ffff) as u32 && (a >> 32u64) as u32 == (b >> 32u64) as u32) ==> a == b) by (bit_vector);
}

pub proof fn lemma_i8_bits(v: i8, u: u8)
    ensures
        ((v as u8) as i8) == v,
        ((u as i8) as u8) == u,
{
    assert(((v as u8) as i8) == v && ((u as i8) as u8) == u) by (bit_vector);
}

pub proof fn lemma_i32_bits(v: i32, u: u32)
    ensures
        ((v as u32) as i32) == v,
        ((u as i32) as u32) == u,
{
    assert(((v as u32) as i32) == v && ((u as i32) as u32) == u) by (bit_vector);
}

pub proof fn lemma_i64_bits(v: i64, u: u64)
    ensures
        ((v as u64) as i64) == v,
        ((u as i64) as u64) == u,
{
    assert(((v as u64) as i64) == v && ((u as i64) as u64) == u) by (bit_vector);
}

// ---------------------------------------------------------------------------
// Bounds-checked readers
// ---------------------------------------------------------------------------

/// The byte at `index`, or `InvalidCil` past the end of the stream.
pub fn il_u8(il: &[u8], index: usize) -> (r: Result<u8, CilError>)
    ensures
        match r {
            Ok(v) => index < il@.len() && v == il@[index as int],
            Err(e) => e == CilError::InvalidCil && index >= il@.len(),
        },
{
    if index < il.len() {
        Ok(il[index])
    } else {
        Err(CilError::InvalidCil)
    }
}

/// The byte at `index` read as a signed value.
pub fn il_i8(il: &[u8], index: usize) -> (r: Result<i8, CilError>)
    ensures
        match r {
            Ok(v) => index < il@.len() && v as u8 == il@[index as int],
            Err(e) => e == CilError::InvalidCil && index >= il@.len(),
        },
{
    let b = il_u8(il, index)?;
    proof { lemma_i8_bits(0, b); }
    Ok(b as i8)
}

/// The little-endian `u16` at `index`.
pub fn il_u16(il: &[u8], index: usize) -> (r: Result<u16, CilError>)
    ensures
        match r {
            Ok(v) => index + 2 <= il@.len() && le_u16(v) == il@.subrange(index as int, index + 2),
            Err(e) => e == CilError::InvalidCil && index + 2 > il@.len(),
        },
{
    if index < il.len() && il.len() - index >= 2 {
        let b0 = il[index];
        let b1 = il[index + 1];
        proof {
            lemma_le_u16_decode(b0, b1);
            assert(il@.subrange(index as int, index + 2) =~= seq![b0, b1]);
        }
        Ok((b0 as u16) | ((b1 as u16) << 8u16))
    } else {
        Err(CilError::InvalidCil)
    }
}

/// The little-endian `u32` at `index`.
pub fn il_u32(il: &[u8], index: usize) -> (r: Result<u32, CilError>)
    ensures
        match r {
            Ok(v) => index + 4 <= il@.len() && le_u32(v) == il@.subrange(index as int, index + 4),
            Err(e) => e == CilError::InvalidCil && index + 4 > il@.len(),
        },
{
    if index < il.len() && il.len() - index >= 4 {
        let b0 = il[index];
        let b1 = il[index + 1];
        let b2 = il[index + 2];
        let b3 = il[index + 3];
        proof {
            lemma_le_u32_decode(b0, b1, b2, b3);
            assert(il@.subrange(index as int, index + 4) =~= seq![b0, b1, b2, b3]);
        }
        Ok((b0 as u32) | ((b1 as u32) << 8u32) | ((b2 as u32) << 16u32) | ((b3 as u32) << 24u32))
    } else {
        Err(CilError::InvalidCil)
    }
}

/// The little-endian `i32` at `index`.
pub fn il_i32(il: &[u8], index: usize) -> (r: Result<i32, CilError>)
    ensures
        match r {
            Ok(v) => index + 4 <= il@.len() && le_u32(v as u32) == il@.subrange(index as int, index + 4),
            Err(e) => e == CilError::InvalidCil && index + 4 > il@.len(),
        },
{
    let u = il_u32(il, index)?;
    proof { lemma_i32_bits(0, u); }
    Ok(u as i32)
}

/// The little-endian `u64` at `index`.
pub fn il_u64(il: &[u8], index: usize) -> (r: Result<u64, CilError>)
    ensures
        match r {
            Ok(v) => index + 8 <= il@.len() && le_u64(v) == il@.subrange(index as int, index + 8),
            Err(e) => e == CilError::InvalidCil && index + 8 > il@.len(),
        },
{
    if index < il.len() && il.len() - index >= 8 {
        let lo = il_u32(il, index)?;
        let hi = il_u32(il, index + 4)?;
        proof {
            lemma_le_u64_decode(lo, hi);
            assert(il@.subrange(index as int, index + 8) =~= il@.subrange(index as int, index + 4) + il@.subrange(index + 4, index + 8));
        }
        Ok((lo as u64) | ((hi as u64) << 32u64))
    } else {
        Err(CilError::InvalidCil)
    }
}

/// The little-endian `i64` at `index`.
pub fn il_i64(il: &[u8], index: usize) -> (r: Result<i64, CilError>)
    ensures
        match r {
            Ok(v) => index + 8 <= il@.len() && le_u64(v as u64) == il@.subrange(index as int, index + 8),
            Err(e) => e == CilError::InvalidCil && index + 8 > il@.len(),
        },
{
    let u = il_u64(il, index)?;
    proof { lemma_i64_bits(0, u); }
    Ok(u as i64)
}

/// The bit pattern of the little-endian `f32` at `index`.
pub fn il_f32(il: &[u8], index: usize) -> (r: Result<u32, CilError>)
    ensures
        match r {
            Ok(v) => index + 4 <= il@.len() && le_u32(v) == il@.subrange(index as int, index + 4),
            Err(e) => e == CilError::InvalidCil && index + 4 > il@.len(),
        },
{
    il_u32(il, index)
}

/// The bit pattern of the little-endian `f64` at `index`.
pub fn il_f64(il: &[u8], index: usize) -> (r: Result<u64, CilError>)
    ensures
        match r {
            Ok(v) => index + 8 <= il@.len() && le_u64(v) == il@.subrange(index as int, index + 8),
            Err(e) => e == CilError::InvalidCil && index + 8 > il@.len(),
        },
{
    il_u64(il, index)
}

} // verus!

//! CIL instructions: an opcode with its inline operand, decoded from and
//! encoded into the IL byte stream of a method body.

use vstd::prelude::*;

use crate::profiling_api::cil::{
    double_byte_params, double_opcode, il_f32, il_f64, il_i32, il_i64, il_i8, il_u16, il_u32,
    il_u8, le_u16, le_u32, le_u64, lemma_i32_bits, lemma_i64_bits, lemma_i8_bits,
    lemma_le_u16_injective, lemma_le_u32_injective, lemma_le_u64_injective, single_byte_params,
    single_opcode, single_byte_operand_params, CilError, Opcode, OperandParams,
};

verus! {

/// The inline operand of an instruction. Floating-point constants are held by
/// their IEEE-754 bit patterns.
#[derive(Debug)]
pub enum Operand {
    InlineNone,
    ShortInlineVar(u8),
    InlineVar(u16),
    ShortInlineI(u8),
    InlineI(i32),
    InlineI8(i64),
    ShortInlineR(u32),
    InlineR(u64),
    InlineMethod(u32),
    InlineSig(u32),
    ShortInlineBrTarget(i8),
    InlineBrTarget(i32),
    InlineSwitch(u32, Vec<i32>),
    InlineType(u32),
    InlineString(u32),
    InlineField(u32),
    InlineTok(u32),
}

/// Mathematical model of an [`Operand`].
pub enum OperandView {
    InlineNone,
    ShortInlineVar(u8),
    InlineVar(u16),
    ShortInlineI(u8),
    InlineI(i32),
    InlineI8(i64),
    ShortInlineR(u32),
    InlineR(u64),
    InlineMethod(u32),
    InlineSig(u32),
    ShortInlineBrTarget(i8),
    InlineBrTarget(i32),
    InlineSwitch(u32, Seq<i32>),
    InlineType(u32),
    InlineString(u32),
    InlineField(u32),
    InlineTok(u32),
}

impl View for Operand {
    type V = OperandView;

    open spec fn view(&self) -> OperandView {
        match self {
            Operand::InlineNone => OperandView::InlineNone,
            Operand::ShortInlineVar(v) => OperandView::ShortInlineVar(*v),
            Operand::InlineVar(v) => OperandView::InlineVar(*v),
            Operand::ShortInlineI(v) => OperandView::ShortInlineI(*v),
            Operand::InlineI(v) => OperandView::InlineI(*v),
            Operand::InlineI8(v) => OperandView::InlineI8(*v),
            Operand::ShortInlineR(v) => OperandView::ShortInlineR(*v),
            Operand::InlineR(v) => OperandView::InlineR(*v),
            Operand::InlineMethod(v) => OperandView::InlineMethod(*v),
            Operand::InlineSig(v) => OperandView::InlineSig(*v),
            Operand::ShortInlineBrTarget(v) => OperandView::ShortInlineBrTarget(*v),
            Operand::InlineBrTarget(v) => OperandView::InlineBrTarget(*v),
            Operand::InlineSwitch(n, ts) => OperandView::InlineSwitch(*n, ts@),
            Operand::InlineType(v) => OperandView::InlineType(*v),
            Operand::InlineString(v) => OperandView::InlineString(*v),
            Operand::InlineField(v) => OperandView::InlineField(*v),
            Operand::InlineTok(v) => OperandView::InlineTok(*v),
        }
    }
}

/// Bytes of the jump table of a `switch`: each target as a little-endian `i32`.
pub open spec fn targets_bytes(ts: Seq<i32>) -> Seq<u8>
    decreases ts.len(),
{
    if ts.len() == 0 {
        Seq::empty()
    } else {
        targets_bytes(ts.drop_last()) + le_u32(ts.last() as u32)
    }
}

impl OperandView {
    /// The operand has the shape that the opcode's table entry announces
    /// (for a `switch`, the count equals the number of targets).
    pub open spec fn matches(self, p: OperandParams) -> bool {
        match self {
            OperandView::InlineNone => p == OperandParams::InlineNone,
            OperandView::ShortInlineVar(_) => p == OperandParams::ShortInlineVar,
            OperandView::InlineVar(_) => p == OperandParams::InlineVar,
            OperandView::ShortInlineI(_) => p == OperandParams::ShortInlineI,
            OperandView::InlineI(_) => p == OperandParams::InlineI,
            OperandView::InlineI8(_) => p == OperandParams::InlineI8,
            OperandView::ShortInlineR(_) => p == OperandParams::ShortInlineR,
            OperandView::InlineR(_) => p == OperandParams::InlineR,
            OperandView::InlineMethod(_) => p == OperandParams::InlineMethod,
            OperandView::InlineSig(_) => p == OperandParams::InlineSig,
            OperandView::ShortInlineBrTarget(_) => p == OperandParams::ShortInlineBrTarget,
            OperandView::InlineBrTarget(_) => p == OperandParams::InlineBrTarget,
            OperandView::InlineSwitch(n, ts) => p == OperandParams::InlineSwitch && n == ts.len(),
            OperandView::InlineType(_) => p == OperandParams::InlineType,
            OperandView::InlineString(_) => p == OperandParams::InlineString,
            OperandView::InlineField(_) => p == OperandParams::InlineField,
            OperandView::InlineTok(_) => p == OperandParams::InlineTok,
        }
    }

    /// The bytes by which the operand is written after its opcode.
    pub open spec fn bytes(self) -> Seq<u8> {
        match self {
            OperandView::InlineNone => Seq::empty(),
            OperandView::ShortInlineVar(v) => seq![v],
            OperandView::InlineVar(v) => le_u16(v),
            OperandView::ShortInlineI(v) => seq![v],
            OperandView::InlineI(v) => le_u32(v as u32),
            OperandView::InlineI8(v) => le_u64(v as u64),
            OperandView::ShortInlineR(v) => le_u32(v),
            OperandView::InlineR(v) => le_u64(v),
            OperandView::InlineMethod(v) => le_u32(v),
            OperandView::InlineSig(v) => le_u32(v),
            OperandView::ShortInlineBrTarget(v) => seq![v as u8],
            OperandView::InlineBrTarget(v) => le_u32(v as u32),
            OperandView::InlineSwitch(n, ts) => le_u32(n) + targets_bytes(ts),
            OperandView::InlineType(v) => le_u32(v),
            OperandView::InlineString(v) => le_u32(v),
            OperandView::InlineField(v) => le_u32(v),
            OperandView::InlineTok(v) => le_u32(v),
        }
    }

    /// The length that [`Operand::length`] reports: the size of the operand's
    /// bytes, where a `switch` counts four bytes per announced target.
    pub open spec fn spec_length(self) -> int {
        match self {
            OperandView::InlineNone => 0,
            OperandView::ShortInlineVar(_) => 1,
            OperandView::InlineVar(_) => 2,
            OperandView::ShortInlineI(_) => 1,
            OperandView::InlineI(_) => 4,
            OperandView::InlineI8(_) => 8,
            OperandView::ShortInlineR(_) => 4,
            OperandView::InlineR(_) => 8,
            OperandView::InlineMethod(_) => 4,
            OperandView::InlineSig(_) => 4,
            OperandView::ShortInlineBrTarget(_) => 1,
            OperandView::InlineBrTarget(_) => 4,
            OperandView::InlineSwitch(n, _) => (n + 1) * 4,
            OperandView::InlineType(_) => 4,
            OperandView::InlineString(_) => 4,
            OperandView::InlineField(_) => 4,
            OperandView::InlineTok(_) => 4,
        }
    }
}

/// Smallest number of operand bytes an opcode of this shape can have.
pub open spec fn min_operand_len(p: OperandParams) -> int {
    match p {
        OperandParams::InlineNone => 0,
        OperandParams::ShortInlineVar => 1,
        OperandParams::InlineVar => 2,
        OperandParams::ShortInlineI => 1,
        OperandParams::InlineI => 4,
        OperandParams::InlineI8 => 8,
        OperandParams::ShortInlineR => 4,
        OperandParams::InlineR => 8,
        OperandParams::ShortInlineBrTarget => 1,
        _ => 4,
    }
}

/// `o` is an operand of shape `p` whose bytes stand in `s` from `index` on.
pub open spec fn operand_at(s: Seq<u8>, index: int, p: OperandParams, o: OperandView) -> bool {
    &&& o.matches(p)
    &&& 0 <= index
    &&& index + o.bytes().len() <= s.len()
    &&& s.subrange(index, index + o.bytes().len()) == o.bytes()
}

/// An instruction: an opcode followed by its inline operand.
#[derive(Debug)]
pub struct Instruction {
    pub opcode: Opcode,
    pub operand: Operand,
}

/// Mathematical model of an [`Instruction`].
pub struct InstructionView {
    pub opcode: Opcode,
    pub operand: OperandView,
}

impl View for Instruction {
    type V = InstructionView;

    open spec fn view(&self) -> InstructionView {
        InstructionView { opcode: self.opcode, operand: self.operand@ }
    }
}

impl InstructionView {
    /// A table opcode with an operand of the shape it announces.
    pub open spec fn wf(self) -> bool {
        self.opcode.wf() && self.operand.matches(self.opcode.operand_params)
    }

    /// The bytes by which the instruction is written into an IL stream.
    pub open spec fn encode(self) -> Seq<u8> {
        self.opcode.spec_bytes() + self.operand.bytes()
    }

    /// The length that [`Instruction::length`] reports.
    pub open spec fn spec_length(self) -> int {
        self.opcode.length + self.operand.spec_length()
    }
}

/// `v` is a well-formed instruction whose encoding starts the byte stream `s`.
pub open spec fn decodes_to(s: Seq<u8>, v: InstructionView) -> bool {
    v.wf() && v.encode().is_prefix_of(s)
}

/// The instruction at the start of `s`, if the stream starts with one.
pub open spec fn spec_decode(s: Seq<u8>) -> Option<InstructionView> {
    if exists|v: InstructionView| decodes_to(s, v) {
        Some(choose|v: InstructionView| decodes_to(s, v))
    } else {
        None
    }
}

// ---------------------------------------------------------------------------
// Lemmas on the encoding
// ---------------------------------------------------------------------------

pub proof fn lemma_targets_bytes_len(ts: Seq<i32>)
    ensures
        targets_bytes(ts).len() == 4 * ts.len(),
    decreases ts.len(),
{
    if ts.len() > 0 {
        lemma_targets_bytes_len(ts.drop_last());
    }
}

pub proof fn lemma_targets_bytes_injective(a: Seq<i32>, b: Seq<i32>)
    requires
        a.len() == b.len(),
        targets_bytes(a) == targets_bytes(b),
    ensures
        a == b,
    decreases a.len(),
{
    if a.len() > 0 {
        lemma_targets_bytes_len(a.drop_last());
        lemma_targets_bytes_len(b.drop_last());
        let n = 4 * (a.len() - 1);
        assert(targets_bytes(a).subrange(0, n) =~= targets_bytes(a.drop_last()));
        assert(targets_bytes(b).subrange(0, n) =~= targets_bytes(b.drop_last()));
        assert(targets_bytes(a).subrange(n, n + 4) =~= le_u32(a.last() as u32));
        assert(targets_bytes(b).subrange(n, n + 4) =~= le_u32(b.last() as u32));
        lemma_targets_bytes_injective(a.drop_last(), b.drop_last());
        lemma_le_u32_injective(a.last() as u32, b.last() as u32);
        lemma_i32_bits(a.last(), 0);
        lemma_i32_bits(b.last(), 0);
        assert(a =~= a.drop_last().push(a.last()));
        assert(b =~= b.drop_last().push(b.last()));
    }
}

/// The number of bytes an operand occupies, relative to its shape.
pub proof fn lemma_operand_len(o: OperandView, p: OperandParams)
    requires
        o.matches(p),
    ensures
        o.bytes().len() >= min_operand_len(p),
        p != OperandParams::InlineSwitch ==> o.bytes().len() == min_operand_len(p),
        p != OperandParams::InlineSwitch ==> o.bytes().len() == o.spec_length(),
        o matches OperandView::InlineSwitch(n, ts) ==> o.bytes().len() == 4 + 4 * n
            && o.bytes().subrange(0, 4) == le_u32(n) && o.bytes().len() == o.spec_length(),
{
    if let OperandView::InlineSwitch(n, ts) = o {
        lemma_targets_bytes_len(ts);
        assert(o.bytes().subrange(0, 4) =~= le_u32(n));
    }
}

/// Two operands of one shape whose bytes both stand at the same place are equal.
pub proof fn lemma_operand_unique(s: Seq<u8>, index: int, p: OperandParams, a: OperandView, b: OperandView)
    requires
        operand_at(s, index, p, a),
        operand_at(s, index, p, b),
    ensures
        a == b,
{
    lemma_operand_len(a, p);
    lemma_operand_len(b, p);
    if let OperandView::InlineSwitch(na, ta) = a {
        if let OperandView::InlineSwitch(nb, tb) = b {
            assert(s.subrange(index, index + 4) =~= a.bytes().subrange(0, 4));
            assert(s.subrange(index, index + 4) =~= b.bytes().subrange(0, 4));
            lemma_le_u32_injective(na, nb);
            lemma_targets_bytes_len(ta);
            lemma_targets_bytes_len(tb);
            assert(targets_bytes(ta) =~= a.bytes().subrange(4, a.bytes().len() as int));
            assert(targets_bytes(tb) =~= b.bytes().subrange(4, b.bytes().len() as int));
            lemma_targets_bytes_injective(ta, tb);
        }
    } else {
        assert(a.bytes() == b.bytes());
        match a {
            OperandView::InlineVar(x) => {
                if let OperandView::InlineVar(y) = b { lemma_le_u16_injective(x, y); }
            },
            OperandView::InlineI(x) => {
                if let OperandView::InlineI(y) = b {
                    lemma_le_u32_injective(x as u32, y as u32);
                    lemma_i32_bits(x, 0);
                    lemma_i32_bits(y, 0);
                }
            },
            OperandView::InlineI8(x) => {
                if let OperandView::InlineI8(y) = b {
                    lemma_le_u64_injective(x as u64, y as u64);
                    lemma_i64_bits(x, 0);
                    lemma_i64_bits(y, 0);
                }
            },
            OperandView::ShortInlineR(x) => {
                if let OperandView::ShortInlineR(y) = b { lemma_le_u32_injective(x, y); }
            },
            OperandView::InlineR(x) => {
                if let OperandView::InlineR(y) = b { lemma_le_u64_injective(x, y); }
            },
            OperandView::InlineMethod(x) => {
                if let OperandView::InlineMethod(y) = b { lemma_le_u32_injective(x, y); }
            },
            OperandView::InlineSig(x) => {
                if let OperandView::InlineSig(y) = b { lemma_le_u32_injective(x, y); }
            },
            OperandView::ShortInlineVar(x) => {
                if let OperandView::ShortInlineVar(y) = b { assert(a.bytes()[0] == b.bytes()[0]); }
            },
            OperandView::ShortInlineI(x) => {
                if let OperandView::ShortInlineI(y) = b { assert(a.bytes()[0] == b.bytes()[0]); }
            },
            OperandView::ShortInlineBrTarget(x) => {
                if let OperandView::ShortInlineBrTarget(y) = b {
                    assert(a.bytes()[0] == b.bytes()[0]);
                    lemma_i8_bits(x, 0);
                    lemma_i8_bits(y, 0);
                }
            },
            OperandView::InlineBrTarget(x) => {
                if let OperandView::InlineBrTarget(y) = b {
                    lemma_le_u32_injective(x as u32, y as u32);
                    lemma_i32_bits(x, 0);
                    lemma_i32_bits(y, 0);
                }
            },
            OperandView::InlineType(x) => {
                if let OperandView::InlineType(y) = b { lemma_le_u32_injective(x, y); }
            },
            OperandView::InlineString(x) => {
                if let OperandView::InlineString(y) = b { lemma_le_u32_injective(x, y); }
            },
            OperandView::InlineField(x) => {
                if let OperandView::InlineField(y) = b { lemma_le_u32_injective(x, y); }
            },
            OperandView::InlineTok(x) => {
                if let OperandView::InlineTok(y) = b { lemma_le_u32_injective(x, y); }
            },
            _ => {},
        }
    }
}

/// What a decoding tells about the stream: the opcode is the table entry named
/// by the leading bytes, and the operand's bytes follow it.
pub proof fn lemma_decoding_shape(s: Seq<u8>, v: InstructionView)
    requires
        decodes_to(s, v),
    ensures
        s.len() >= 1,
        s[0] != 0xFE ==> single_byte_params(s[0]) is Some && v.opcode == single_opcode(s[0]),
        s[0] == 0xFE ==> s.len() >= 2 && double_byte_params(s[1]) is Some && v.opcode == double_opcode(s[1]),
        v.opcode.spec_bytes().len() == v.opcode.length,
        operand_at(s, v.opcode.length as int, v.opcode.operand_params, v.operand),
{
    let ob = v.opcode.spec_bytes();
    let e = v.encode();
    assert(e.subrange(0, ob.len() as int) =~= ob);
    assert(e.subrange(ob.len() as int, e.len() as int) =~= v.operand.bytes());
    assert(s.subrange(0, e.len() as int) == e);
    assert(s.subrange(ob.len() as int, e.len() as int) =~= e.subrange(ob.len() as int, e.len() as int));
    assert(s[0] == e[0]);
    if v.opcode.length == 2 {
        assert(s[1] == e[1]);
    }
}

/// The instruction at the start of a stream is unique.
pub proof fn lemma_decode_unique(s: Seq<u8>, a: InstructionView, b: InstructionView)
    requires
        decodes_to(s, a),
        decodes_to(s, b),
    ensures
        a == b,
{
    lemma_decoding_shape(s, a);
    lemma_decoding_shape(s, b);
    assert(a.opcode == b.opcode);
    lemma_operand_unique(s, a.opcode.length as int, a.opcode.operand_params, a.operand, b.operand);
}

/// A stream starts with `v` exactly when [`spec_decode`] names `v`.
pub proof fn lemma_spec_decode_iff(s: Seq<u8>, v: InstructionView)
    ensures
        spec_decode(s) == Some(v) <==> decodes_to(s, v),
{
    if decodes_to(s, v) {
        let w = choose|w: InstructionView| decodes_to(s, w);
        lemma_decode_unique(s, v, w);
    }
}

/// Decoding the encoding of a well-formed instruction, followed by any bytes,
/// gives the instruction back.
pub proof fn lemma_decode_encode(v: InstructionView, rest: Seq<u8>)
    requires
        v.wf(),
    ensures
        spec_decode(v.encode() + rest) == Some(v),
{
    let s = v.encode() + rest;
    assert(v.encode() =~= s.subrange(0, v.encode().len() as int));
    lemma_spec_decode_iff(s, v);
}

/// A decoded instruction, encoded again, gives back the bytes it was read from.
pub proof fn lemma_encode_decode(s: Seq<u8>)
    requires
        spec_decode(s) is Some,
    ensures
        spec_decode(s).unwrap().wf(),
        spec_decode(s).unwrap().encode() == s.subrange(0, spec_decode(s).unwrap().encode().len() as int),
{
    let v = spec_decode(s).unwrap();
    lemma_spec_decode_iff(s, v);
}

/// The length an instruction reports is the length of its encoding.
pub proof fn lemma_length_is_encoding_length(v: InstructionView)
    requires
        v.wf(),
    ensures
        v.spec_length() == v.encode().len(),
{
    lemma_operand_len(v.operand, v.opcode.operand_params);
}

// ---------------------------------------------------------------------------
// Executable code
// ---------------------------------------------------------------------------

fn push_le_u16(bytes: &mut Vec<u8>, v: u16)
    ensures
        final(bytes)@ == old(bytes)@ + le_u16(v),
{
    bytes.push((v & 0xff) as u8);
    bytes.push((v >> 8u16) as u8);
    assert(bytes@ =~= old(bytes)@ + le_u16(v));
}

fn push_le_u32(bytes: &mut Vec<u8>, v: u32)
    ensures
        final(bytes)@ == old(bytes)@ + le_u32(v),
{
    bytes.push((v & 0xff) as u8);
    bytes.push(((v >> 8u32) & 0xff) as u8);
    bytes.push(((v >> 16u32) & 0xff) as u8);
    bytes.push((v >> 24u32) as u8);
    assert(bytes@ =~= old(bytes)@ + le_u32(v));
}

fn push_le_u64(bytes: &mut Vec<u8>, v: u64)
    ensures
        final(bytes)@ == old(bytes)@ + le_u64(v),
{
    push_le_u32(bytes, (v & 0xffff_ffff) as u32);
    push_le_u32(bytes, (v >> 32u64) as u32);
    assert(bytes@ =~= old(bytes)@ + le_u64(v));
}

impl Operand {
    /// Number of bytes the operand occupies after its opcode; for a `switch`, four
    /// bytes for the count and four for each announced target.
    pub fn length(&self) -> (r: usize)
        requires
            self matches Operand::InlineSwitch(n, _) ==> (n + 1) * 4 <= u32::MAX,
        ensures
            r == self@.spec_length(),
    {
        match self {
            Operand::InlineNone => 0,
            Operand::ShortInlineVar(_) => 1,
            Operand::InlineVar(_) => 2,
            Operand::ShortInlineI(_) => 1,
            Operand::InlineI(_) => 4,
            Operand::InlineI8(_) => 8,
            Operand::ShortInlineR(_) => 4,
            Operand::InlineR(_) => 8,
            Operand::InlineMethod(_) => 4,
            Operand::InlineSig(_) => 4,
            Operand::ShortInlineBrTarget(_) => 1,
            Operand::InlineBrTarget(_) => 4,
            Operand::InlineSwitch(length, _) => ((*length + 1) * 4) as usize,
            Operand::InlineType(_) => 4,
            Operand::InlineString(_) => 4,
            Operand::InlineField(_) => 4,
            Operand::InlineTok(_) => 4,
        }
    }
}

/// Reads the operand of shape `params` that starts at `index`.
fn read_operand(il: &[u8], index: usize, params: OperandParams) -> (r: Result<Operand, CilError>)
    requires
        index <= il@.len(),
    ensures
        match r {
            Ok(o) => operand_at(il@, index as int, params, o@),
            Err(e) => e == CilError::InvalidCil
                && forall|o: OperandView| !operand_at(il@, index as int, params, o),
    },
{
    let r = match params {
        OperandParams::InlineNone => Ok(Operand::InlineNone),
        OperandParams::ShortInlineVar => match il_u8(il, index) {
            Ok(v) => Ok(Operand::ShortInlineVar(v)),
            Err(e) => Err(e),
        },
        OperandParams::InlineVar => match il_u16(il, index) {
            Ok(v) => Ok(Operand::InlineVar(v)),
            Err(e) => Err(e),
        },
        OperandParams::ShortInlineI => match il_u8(il, index) {
            Ok(v) => Ok(Operand::ShortInlineI(v)),
            Err(e) => Err(e),
        },
        OperandParams::InlineI => match il_i32(il, index) {
            Ok(v) => Ok(Operand::InlineI(v)),
            Err(e) => Err(e),
        },
        OperandParams::InlineI8 => match il_i64(il, index) {
            Ok(v) => Ok(Operand::InlineI8(v)),
            Err(e) => Err(e),
        },
        OperandParams::ShortInlineR => match il_f32(il, index) {
            Ok(v) => Ok(Operand::ShortInlineR(v)),
            Err(e) => Err(e),
        },
        OperandParams::InlineR => match il_f64(il, index) {
            Ok(v) => Ok(Operand::InlineR(v)),
            Err(e) => Err(e),
        },
        OperandParams::InlineMethod => match il_u32(il, index) {
            Ok(v) => Ok(Operand::InlineMethod(v)),
            Err(e) => Err(e),
        },
        OperandParams::InlineSig => match il_u32(il, index) {
            Ok(v) => Ok(Operand::InlineSig(v)),
            Err(e) => Err(e),
        },
        OperandParams::ShortInlineBrTarget => match il_i8(il, index) {
            Ok(v) => Ok(Operand::ShortInlineBrTarget(v)),
            Err(e) => Err(e),
        },
        OperandParams::InlineBrTarget => match il_i32(il, index) {
            Ok(v) => Ok(Operand::InlineBrTarget(v)),
            Err(e) => Err(e),
        },
        OperandParams::InlineSwitch => read_switch(il, index),
        OperandParams::InlineType => match il_u32(il, index) {
            Ok(v) => Ok(Operand::InlineType(v)),
            Err(e) => Err(e),
        },
        OperandParams::InlineString => match il_u32(il, index) {
            Ok(v) => Ok(Operand::InlineString(v)),
            Err(e) => Err(e),
        },
        OperandParams::InlineField => match il_u32(il, index) {
            Ok(v) => Ok(Operand::InlineField(v)),
            Err(e) => Err(e),
        },
        OperandParams::InlineTok => match il_u32(il, index) {
            Ok(v) => Ok(Operand::InlineTok(v)),
            Err(e) => Err(e),
        },
    };
    proof {
        match &r {
            Ok(o) => {
                let b = o@.bytes();
                if params != OperandParams::InlineSwitch {
                    if let Operand::ShortInlineVar(v) = *o {
                        assert(il@.subrange(index as int, index + 1) =~= b);
                    }
                    if let Operand::ShortInlineI(v) = *o {
                        assert(il@.subrange(index as int, index + 1) =~= b);
                    }
                    if let Operand::ShortInlineBrTarget(v) = *o {
                        assert(il@.subrange(index as int, index + 1) =~= b);
                    }
                    if let Operand::InlineNone = *o {
                        assert(il@.subrange(index as int, index as int) =~= b);
                    }
                }
            },
            Err(_) => {
                if params != OperandParams::InlineSwitch {
                    assert forall|o: OperandView| !operand_at(il@, index as int, params, o) by {
                        if operand_at(il@, index as int, params, o) {
                            lemma_operand_len(o, params);
                        }
                    }
                }
            },
        }
    }
    r
}

/// Reads the jump table of a `switch` that starts at `index`.
fn read_switch(il: &[u8], index: usize) -> (r: Result<Operand, CilError>)
    ensures
        match r {
            Ok(o) => operand_at(il@, index as int, OperandParams::InlineSwitch, o@),
            Err(e) => e == CilError::InvalidCil
                && forall|o: OperandView| !operand_at(il@, index as int, OperandParams::InlineSwitch, o),
    },
{
    let read = il_u32(il, index);
    let length = match read {
        Ok(n) => n,
        Err(e) => {
            proof {
                assert forall|o: OperandView| !operand_at(il@, index as int, OperandParams::InlineSwitch, o) by {
                    if operand_at(il@, index as int, OperandParams::InlineSwitch, o) {
                        lemma_operand_len(o, OperandParams::InlineSwitch);
                    }
                }
            }
            return Err(e);
        },
    };
    let total = il.len();
    assert(index + 4 <= total);
    let start = index + 4;
    let available = total - start;
    if available / 4 < length as usize {
        proof {
            assert forall|o: OperandView| !operand_at(il@, index as int, OperandParams::InlineSwitch, o) by {
                if operand_at(il@, index as int, OperandParams::InlineSwitch, o) {
                    lemma_operand_len(o, OperandParams::InlineSwitch);
                    if let OperandView::InlineSwitch(n, ts) = o {
                        assert(il@.subrange(index as int, index + 4) =~= o.bytes().subrange(0, 4));
                        lemma_le_u32_injective(n, length);
                        assert(available / 4 < length);
                        assert(4 * (available as int / 4) + 4 > available) by (nonlinear_arith);
                        assert(4 * n + 4 > available) by (nonlinear_arith)
                            requires available / 4 < n, 4 * (available as int / 4) + 4 > available;
                    }
                }
            }
        }
        return Err(CilError::InvalidCil);
    }
    let mut targets: Vec<i32> = Vec::new();
    let mut i: usize = 0;
    while i < length as usize
        invariant
            start == index + 4,
            available == il@.len() - start,
            il@.len() <= usize::MAX,
            available / 4 >= length,
            i <= length,
            targets@.len() == i,
            targets_bytes(targets@) == il@.subrange(start as int, start + 4 * i),
        decreases length - i,
    {
        assert(4 * i + 4 <= available) by (nonlinear_arith)
            requires i < length, available / 4 >= length;
        let target = match il_i32(il, start + 4 * i) {
            Ok(t) => t,
            Err(e) => { return Err(e); },
        };
        let ghost before = targets@;
        targets.push(target);
        proof {
            assert(targets@.drop_last() =~= before);
            assert(il@.subrange(start as int, start + 4 * (i + 1)) =~= il@.subrange(start as int, start + 4 * i) + il@.subrange(start + 4 * i, start + 4 * i + 4));
        }
        i = i + 1;
    }
    let ghost ts = targets@;
    let o = Operand::InlineSwitch(length, targets);
    proof {
        lemma_targets_bytes_len(ts);
        assert(il@.subrange(index as int, index + 4 + 4 * length) =~= il@.subrange(index as int, index + 4) + il@.subrange(start as int, start + 4 * length));
    }
    Ok(o)
}

impl Instruction {
    /// Attempts to parse the first instruction at the beginning of the given byte
    /// array. Array must be at a valid instruction boundary.
    pub fn from_bytes(il: &[u8]) -> (r: Result<Instruction, CilError>)
        ensures
            match r {
                Ok(ins) => spec_decode(il@) == Some(ins@) && decodes_to(il@, ins@),
                Err(e) => e == CilError::InvalidCil && spec_decode(il@) is None,
            },
    {
        let byte_1 = match il_u8(il, 0) {
            Ok(b) => b,
            Err(e) => {
                proof { lemma_no_decoding(il@); }
                return Err(e);
            },
        };
        let opcode = if byte_1 == 0xFE {
            // In this case, we have a multibyte opcode
            let byte_2 = match il_u8(il, 1) {
                Ok(b) => b,
                Err(e) => {
                    proof { lemma_no_decoding(il@); }
                    return Err(e);
                },
            };
            match Opcode::from_byte_pair((byte_1, byte_2)) {
                Ok(op) => op,
                Err(e) => {
                    proof { lemma_no_decoding(il@); }
                    return Err(e);
                },
            }
        } else {
            match single_byte_operand_params(byte_1) {
                Some(_) => Opcode::from_byte(byte_1),
                None => {
                    proof { lemma_no_decoding(il@); }
                    return Err(CilError::InvalidCil);
                },
            }
        };
        let operand_index = opcode.length as usize;
        let operand = match read_operand(il, operand_index, opcode.operand_params) {
            Ok(o) => o,
            Err(e) => {
                proof { lemma_no_decoding(il@); }
                return Err(e);
            },
        };
        let ins = Instruction { opcode: opcode, operand: operand };
        proof {
            let v = ins@;
            let ob = opcode.spec_bytes();
            if opcode.length == 1 {
                assert(il@.subrange(0, 1) =~= ob);
            } else {
                assert(il@.subrange(0, 2) =~= ob);
            }
            let n = v.encode().len() as int;
            assert(il@.subrange(0, n) =~= il@.subrange(0, ob.len() as int) + il@.subrange(ob.len() as int, n));
            assert(decodes_to(il@, v));
            lemma_spec_decode_iff(il@, v);
        }
        Ok(ins)
    }

    /// The bytes by which the instruction is written into an IL stream.
    pub fn into_bytes(&self) -> (r: Vec<u8>)
        ensures
            r@ == self@.encode(),
    {
        let mut bytes: Vec<u8> = Vec::new();
        if self.opcode.length == 1 {
            bytes.push(self.opcode.byte_2);
        } else if self.opcode.length == 2 {
            bytes.push(self.opcode.byte_1);
            bytes.push(self.opcode.byte_2);
        }
        assert(bytes@ =~= self.opcode.spec_bytes());
        match &self.operand {
            Operand::InlineNone => {},
            Operand::ShortInlineVar(val) => bytes.push(*val),
            Operand::InlineVar(val) => push_le_u16(&mut bytes, *val),
            Operand::ShortInlineI(val) => bytes.push(*val),
            Operand::InlineI(val) => push_le_u32(&mut bytes, *val as u32),
            Operand::InlineI8(val) => push_le_u64(&mut bytes, *val as u64),
            Operand::ShortInlineR(val) => push_le_u32(&mut bytes, *val),
            Operand::InlineR(val) => push_le_u64(&mut bytes, *val),
            Operand::InlineMethod(val) => push_le_u32(&mut bytes, *val),
            Operand::InlineSig(val) => push_le_u32(&mut bytes, *val),
            Operand::ShortInlineBrTarget(val) => bytes.push(*val as u8),
            Operand::InlineBrTarget(val) => push_le_u32(&mut bytes, *val as u32),
            Operand::InlineSwitch(length, val) => {
                push_le_u32(&mut bytes, *length);
                let ghost head = bytes@;
                let mut k: usize = 0;
                while k < val.len()
                    invariant
                        k <= val@.len(),
                        bytes@ == head + targets_bytes(val@.subrange(0, k as int)),
                    decreases val@.len() - k,
                {
                    push_le_u32(&mut bytes, val[k] as u32);
                    proof {
                        assert(val@.subrange(0, k + 1).drop_last() =~= val@.subrange(0, k as int));
                    }
                    k = k + 1;
                }
                assert(val@.subrange(0, val@.len() as int) =~= val@);
            },
            Operand::InlineType(val) => push_le_u32(&mut bytes, *val),
            Operand::InlineString(val) => push_le_u32(&mut bytes, *val),
            Operand::InlineField(val) => push_le_u32(&mut bytes, *val),
            Operand::InlineTok(val) => push_le_u32(&mut bytes, *val),
        }
        assert(bytes@ =~= self@.encode());
        bytes
    }

    /// Number of bytes the instruction occupies: opcode plus operand.
    pub fn length(&self) -> (r: usize)
        requires
            self.operand matches Operand::InlineSwitch(n, _) ==> (n + 1) * 4 <= u32::MAX,
            self@.spec_length() <= usize::MAX,
        ensures
            r == self@.spec_length(),
    {
        self.opcode.length as usize + self.operand.length()
    }
}

/// A stream that the decoder rejects starts with no instruction at all.
proof fn lemma_no_decoding(s: Seq<u8>)
    requires
        s.len() == 0
        || (s[0] == 0xFE && (s.len() < 2 || double_byte_params(s[1]) is None))
        || (s[0] != 0xFE && single_byte_params(s[0]) is None)
        || (s[0] != 0xFE && single_byte_params(s[0]) is Some
            && forall|o: OperandView| !operand_at(s, 1, single_opcode(s[0]).operand_params, o))
        || (s[0] == 0xFE && s.len() >= 2 && double_byte_params(s[1]) is Some
            && forall|o: OperandView| !operand_at(s, 2, double_opcode(s[1]).operand_params, o)),
    ensures
        spec_decode(s) is None,
{
    assert forall|v: InstructionView| !decodes_to(s, v) by {
        if decodes_to(s, v) {
            lemma_decoding_shape(s, v);
        }
    }
}


// ---------------------------------------------------------------------------
// Constructors, one per opcode
// ---------------------------------------------------------------------------
/// The `nop` instruction (opcode `0x00`).
pub fn nop() -> (r: Instruction)
    ensures
        r@ == (InstructionView { opcode: single_opcode(0x00), operand: OperandView::InlineNone }),
        r@.wf(),
{
    Instruction { opcode: Opcode::from_byte(0x00), operand: Operand::InlineNone }
}

/// The `break` instruction (opcode `0x01`).
pub fn break_() -> (r: Instruction)
    ensures
        r@ == (InstructionView { opcode: single_opcode(0x01), operand: OperandView::InlineNone }),
        r@.wf(),
{
    Instruction { opcode: Opcode::from_byte(0x01), operand: Operand::InlineNone }
}

/// The `ldarg.0` instruction (opcode `0x02`).
pub fn ldarg_0() -> (r: Instruction)
    ensures
        r@ == (InstructionView { opcode: single_opcode(0x02), operand: OperandView::InlineNone }),
        r@.wf(),
{
    Instruction { opcode: Opcode::from_byte(0x02), operand: Operand::InlineNone }
}

/// The `ldarg.1` instruction (opcode `0x03`).
pub fn ldarg_1() -> (r: Instruction)
    ensures
        r@ == (InstructionView { opcode: single_opcode(0x03), operand: OperandView::InlineNone }),
        r@.wf(),
{
    Instruction { opcode: Opcode::from_byte(0x03), operand: Operand::InlineNone }
}

/// The `ldarg.2` instruction (opcode `0x04`).
pub fn ldarg_2() -> (r: Instruction)
    ensures
        r@ == (InstructionView { opcode: single_opcode(0x04), operand: OperandView::InlineNone }),
        r@.wf(),
{
    Instruction { opcode: Opcode::from_byte(0x04), operand: Operand::InlineNone }
}

/// The `ldarg.3` instruction (opcode `0x05`).
pub fn ldarg_3() -> (r: Instruction)
    ensures
        r@ == (InstructionView { opcode: single_opcode(0x05), operand: OperandView::InlineNone }),
        r@.wf(),
{
    Instruction { opcode: Opcode::from_byte(0x05), operand: Operand::InlineNone }
}

/// The `ldloc.0` instruction (opcode `0x06`).
pub fn ldloc_0() -> (r: Instruction)
    ensures
        r@ == (InstructionView { opcode: single_opcode(0x06), operand: OperandView::InlineNone }),
        r@.wf(),
{
    Instruction { opcode: Opcode::from_byte(0x06), operand: Operand::InlineNone }
}

/// The `ldloc.1` instruction (opcode `0x07`).
pub fn ldloc_1() -> (r: Instruction)
    ensures
        r@ == (InstructionView { opcode: single_opcode(0x07), operand: OperandView::InlineNone }),
        r@.wf(),
{
    Instruction { opcode: Opcode::from_byte(0x07), operand: Operand::InlineNone }
}

/// The `ldloc.2` instruction (opcode `0x08`).
pub fn ldloc_2() -> (r: Instruction)
    ensures
        r@ == (InstructionView { opcode: single_opcode(0x08), operand: OperandView::InlineNone }),
        r@.wf(),
{
    Instruction { opcode: Opcode::from_byte(0x08), operand: Operand::InlineNone }
}

/// The `ldloc.3` instruction (opcode `0x09`).
pub fn ldloc_3() -> (r: Instruction)
    ensures
        r@ == (InstructionView { opcode: single_opcode(0x09), operand: OperandView::InlineNone }),
        r@.wf(),
{
    Instruction { opcode: Opcode::from_byte(0x09), operand: Operand::InlineNone }
}

/// The `stloc.0` instruction (opcode `0x0A`).
pub fn stloc_0() -> (r: Instruction)
    ensures
        r@ == (InstructionView { opcode: single_opcode(0x0A), operand: OperandView::InlineNone }),
        r@.wf(),
{
    Instruction { opcode: Opcode::from_byte(0x0A), operand: Operand::InlineNone }
}

/// The `stloc.1` instruction (opcode `0x0B`).
pub fn stloc_1() -> (r: Instruction)
    ensures
        r@ == (InstructionView { opcode: single_opcode(0x0B), operand: OperandView::InlineNone }),
        r@.wf(),
{
    Instruction { opcode: Opcode::from_byte(0x0B), operand: Operand::InlineNone }
}

/// The `stloc.2` instruction (opcode `0x0C`).
pub fn stloc_2() -> (r: Instruction)
    ensures
        r@ == (InstructionView { opcode: single_opcode(0x0C), operand: OperandView::InlineNone }),
        r@.wf(),
{
    Instruction { opcode: Opcode::from_byte(0x0C), operand: Operand::InlineNone }
}

/// The `stloc.3` instruction (opcode `0x0D`).
pub fn stloc_3() -> (r: Instruction)
    ensures
        r@ == (InstructionView { opcode: single_opcode(0x0D), operand: OperandView::InlineNone }),
        r@.wf(),
{
    Instruction { opcode: Opcode::from_byte(0x0D), operand: Operand::InlineNone }
}

/// The `ldarg.s` instruction (opcode `0x0E`).
pub fn ldarg_s(val: u8) -> (r: Instruction)
    ensures
        r@ == (InstructionView { opcode: single_opcode(0x0E), operand: OperandView::ShortInlineVar(val) }),
        r@.wf(),
{
    Instruction { opcode: Opcode::from_byte(0x0E), operand: Operand::ShortInlineVar(val) }
}

/// The `ldarga.s` instruction (opcode `0x0F`).
pub fn ldarga_s(val: u8) -> (r: Instruction)
    ensures
        r@ == (InstructionView { opcode: single_opcode(0x0F), operand: OperandView::ShortInlineVar(val) }),
        r@.wf(),
{
    Instruction { opcode: Opcode::from_byte(0x0F), operand: Operand::ShortInlineVar(val) }
}

/// The `starg.s` instruction (opcode `0x10`).
pub fn starg_s(val: u8) -> (r: Instruction)
    ensures
        r@ == (InstructionView { opcode: single_opcode(0x10), operand: OperandView::ShortInlineVar(val) }),
        r@.wf(),
{
    Instruction { opcode: Opcode::from_byte(0x10), operand: Operand::ShortInlineVar(val) }
}

/// The `ldloc.s` instruction (opcode `0x11`).
pub fn ldloc_s(val: u8) -> (r: Instruction)
    ensures
        r@ == (InstructionView { opcode: single_opcode(0x11), operand: OperandView::ShortInlineVar(val) }),
        r@.wf(),
{
    Instruction { opcode: Opcode::from_byte(0x11), operand: Operand::ShortInlineVar(val) }
}

/// The `ldloca.s` instruction (opcode `0x12`).
pub fn ldloca_s(val: u8) -> (r: Instruction)
    ensures
        r@ == (InstructionView { opcode: single_opcode(0x12), operand: OperandView::ShortInlineVar(val) }),
        r@.wf(),
{
    Instruction { opcode: Opcode::from_byte(0x12), operand: Operand::ShortInlineVar(val) }
}

/// The `stloc.s` instruction (opcode `0x13`).
pub fn stloc_s(val: u8) -> (r: Instruction)
    ensures
        r@ == (InstructionView { opcode: single_opcode(0x13), operand: OperandView::ShortInlineVar(val) }),
        r@.wf(),
{
    Instruction { opcode: Opcode::from_byte(0x13), operand: Operand::ShortInlineVar(val) }
}

/// The `ldnull` instruction (opcode `0x14`).
pub fn ldnull() -> (r: Instruction)
    ensures
        r@ == (InstructionView { opcode: single_opcode(0x14), operand: OperandView::InlineNone }),
        r@.wf(),
{
    Instruction { opcode: Opcode::from_byte(0x14), operand: Operand::InlineNone }
}

/// The `ldc.i4.m1` instruction (opcode `0x15`).
pub fn ldc_i4_m1() -> (r: Instruction)
    ensures
        r@ == (InstructionView { opcode: single_opcode(0x15), operand: OperandView::InlineNone }),
        r@.wf(),
{
    Instruction { opcode: Opcode::from_byte(0x15), operand: Operand::InlineNone }
}

/// The `ldc.i4.0` instruction (opcode `0x16`).
pub fn ldc_i4_0() -> (r: Instruction)
    ensures
        r@ == (InstructionView { opcode: single_opcode(0x16), operand: OperandView::InlineNone }),
        r@.wf(),
{
    Instruction { opcode: Opcode::from_byte(0x16), operand: Operand::InlineNone }
}

/// The `ldc.i4.1` instruction (opcode `0x17`).
pub fn ldc_i4_1() -> (r: Instruction)
    ensures
        r@ == (InstructionView { opcode: single_opcode(0x17), operand: OperandView::InlineNone }),
        r@.wf(),
{
    Instruction { opcode: Opcode::from_byte(0x17), operand: Operand::InlineNone }
}

/// The `ldc.i4.2` instruction (opcode `0x18`).
pub fn ldc_i4_2() -> (r: Instruction)
    ensures
        r@ == (InstructionView { opcode: single_opcode(0x18), operand: OperandView::InlineNone }),
        r@.wf(),
{
    Instruction { opcode: Opcode::from_byte(0x18), operand: Operand::InlineNone }
}

/// The `ldc.i4.3` instruction (opcode `0x19`).
pub fn ldc_i4_3() -> (r: Instruction)
    ensures
        r@ == (InstructionView { opcode: single_opcode(0x19), operand: OperandView::InlineNone }),
        r@.wf(),
{
    Instruction { opcode: Opcode::from_byte(0x19), operand: Operand::InlineNone }
}

/// The `ldc.i4.4` instruction (opcode `0x1A`).
pub fn ldc_i4_4() -> (r: Instruction)
    ensures
        r@ == (InstructionView { opcode: single_opcode(0x1A), operand: OperandView::InlineNone }),
        r@.wf(),
{
    Instruction { opcode: Opcode::from_byte(0x1A), operand: Operand::InlineNone }
}

/// The `ldc.i4.5` instruction (opcode `0x1B`).
pub fn ldc_i4_5() -> (r: Instruction)
    ensures
        r@ == (InstructionView { opcode: single_opcode(0x1B), operand: OperandView::InlineNone }),
        r@.wf(),
{
    Instruction { opcode: Opcode::from_byte(0x1B), operand: Operand::InlineNone }
}

/// The `ldc.i4.6` instruction (opcode `0x1C`).
pub fn ldc_i4_6() -> (r: Instruction)
    ensures
        r@ == (InstructionView { opcode: single_opcode(0x1C), operand: OperandView::InlineNone }),
        r@.wf(),
{
    Instruction { opcode: Opcode::from_byte(0x1C), operand: Operand::InlineNone }
}

/// The `ldc.i4.7` instruction (opcode `0x1D`).
pub fn ldc_i4_7() -> (r: Instruction)
    ensures
        r@ == (InstructionView { opcode: single_opcode(0x1D), operand: OperandView::InlineNone }),
        r@.wf(),
{
    Instruction { opcode: Opcode::from_byte(0x1D), operand: Operand::InlineNone }
}

/// The `ldc.i4.8` instruction (opcode `0x1E`).
pub fn ldc_i4_8() -> (r: Instruction)
    ensures
        r@ == (InstructionView { opcode: single_opcode(0x1E), operand: OperandView::InlineNone }),
        r@.wf(),
{
    Instruction { opcode: Opcode::from_byte(0x1E), operand: Operand::InlineNone }
}

/// The `ldc.i4.s` instruction (opcode `0x1F`).
pub fn ldc_i4_s(val: u8) -> (r: Instruction)
    ensures
        r@ == (InstructionView { opcode: single_opcode(0x1F), operand: OperandView::ShortInlineI(val) }),
        r@.wf(),
{
    Instruction { opcode: Opcode::from_byte(0x1F), operand: Operand::ShortInlineI(val) }
}

/// The `ldc.i4` instruction (opcode `0x20`).
pub fn ldc_i4(val: i32) -> (r: Instruction)
    ensures
        r@ == (InstructionView { opcode: single_opcode(0x20), operand: OperandView::InlineI(val) }),
        r@.wf(),
{
    Instruction { opcode: Opcode::from_byte(0x20), operand: Operand::InlineI(val) }
}

/// The `ldc.i8` instruction (opcode `0x21`).
pub fn ldc_i8(val: i64) -> (r: Instruction)
    ensures
        r@ == (InstructionView { opcode: single_opcode(0x21), operand: OperandView::InlineI8(val) }),
        r@.wf(),
{
    Instruction { opcode: Opcode::from_byte(0x21), operand: Operand::InlineI8(val) }
}

/// The `ldc.r4` instruction (opcode `0x22`).
/// The constant is given by its IEEE-754 bit pattern.
pub fn ldc_r4(bits: u32) -> (r: Instruction)
    ensures
        r@ == (InstructionView { opcode: single_opcode(0x22), operand: OperandView::ShortInlineR(bits) }),
        r@.wf(),
{
    Instruction { opcode: Opcode::from_byte(0x22), operand: Operand::ShortInlineR(bits) }
}

/// The `ldc.r8` instruction (opcode `0x23`).
/// The constant is given by its IEEE-754 bit pattern.
pub fn ldc_r8(bits: u64) -> (r: Instruction)
    ensures
        r@ == (InstructionView { opcode: single_opcode(0x23), operand: OperandView::InlineR(bits) }),
        r@.wf(),
{
    Instruction { opcode: Opcode::from_byte(0x23), operand: Operand::InlineR(bits) }
}

/// The `dup` instruction (opcode `0x25`).
pub fn dup() -> (r: Instruction)
    ensures
        r@ == (InstructionView { opcode: single_opcode(0x25), operand: OperandView::InlineNone }),
        r@.wf(),
{
    Instruction { opcode: Opcode::from_byte(0x25), operand: Operand::InlineNone }
}

/// The `pop` instruction (opcode `0x26`).
pub fn pop() -> (r: Instruction)
    ensures
        r@ == (InstructionView { opcode: single_opcode(0x26), operand: OperandView::InlineNone }),
        r@.wf(),
{
    Instruction { opcode: Opcode::from_byte(0x26), operand: Operand::InlineNone }
}

/// The `jmp` instruction (opcode `0x27`).
pub fn jmp(val: u32) -> (r: Instruction)
    ensures
        r@ == (InstructionView { opcode: single_opcode(0x27), operand: OperandView::InlineMethod(val) }),
        r@.wf(),
{
    Instruction { opcode: Opcode::from_byte(0x27), operand: Operand::InlineMethod(val) }
}

/// The `call` instruction (opcode `0x28`).
pub fn call(val: u32) -> (r: Instruction)
    ensures
        r@ == (InstructionView { opcode: single_opcode(0x28), operand: OperandView::InlineMethod(val) }),
        r@.wf(),
{
    Instruction { opcode: Opcode::from_byte(0x28), operand: Operand::InlineMethod(val) }
}

/// The `calli` instruction (opcode `0x29`).
pub fn calli(val: u32) -> (r: Instruction)
    ensures
        r@ == (InstructionView { opcode: single_opcode(0x29), operand: OperandView::InlineSig(val) }),
        r@.wf(),
{
    Instruction { opcode: Opcode::from_byte(0x29), operand: Operand::InlineSig(val) }
}

/// The `ret` instruction (opcode `0x2A`).
pub fn ret() -> (r: Instruction)
    ensures
        r@ == (InstructionView { opcode: single_opcode(0x2A), operand: OperandView::InlineNone }),
        r@.wf(),
{
    Instruction { opcode: Opcode::from_byte(0x2A), operand: Operand::InlineNone }
}

/// The `br.s` instruction (opcode `0x2B`).
pub fn br_s(val: i8) -> (r: Instruction)
    ensures
        r@ == (InstructionView { opcode: single_opcode(0x2B), operand: OperandView::ShortInlineBrTarget(val) }),
        r@.wf(),
{
    Instruction { opcode: Opcode::from_byte(0x2B), operand: Operand::ShortInlineBrTarget(val) }
}

/// The `brfalse.s` instruction (opcode `0x2C`).
pub fn brfalse_s(val: i8) -> (r: Instruction)
    ensures
        r@ == (InstructionView { opcode: single_opcode(0x2C), operand: OperandView::ShortInlineBrTarget(val) }),
        r@.wf(),
{
    Instruction { opcode: Opcode::from_byte(0x2C), operand: Operand::ShortInlineBrTarget(val) }
}

/// The `brtrue.s` instruction (opcode `0x2D`).
pub fn brtrue_s(val: i8) -> (r: Instruction)
    ensures
        r@ == (InstructionView { opcode: single_opcode(0x2D), operand: OperandView::ShortInlineBrTarget(val) }),
        r@.wf(),
{
    Instruction { opcode: Opcode::from_byte(0x2D), operand: Operand::ShortInlineBrTarget(val) }
}

/// The `beq.s` instruction (opcode `0x2E`).
pub fn beq_s(val: i8) -> (r: Instruction)
    ensures
        r@ == (InstructionView { opcode: single_opcode(0x2E), operand: OperandView::ShortInlineBrTarget(val) }),
        r@.wf(),
{
    Instruction { opcode: Opcode::from_byte(0x2E), operand: Operand::ShortInlineBrTarget(val) }
}

/// The `bge.s` instruction (opcode `0x2F`).
pub fn bge_s(val: i8) -> (r: Instruction)
    ensures
        r@ == (InstructionView { opcode: single_opcode(0x2F), operand: OperandView::ShortInlineBrTarget(val) }),
        r@.wf(),
{
    Instruction { opcode: Opcode::from_byte(0x2F), operand: Operand::ShortInlineBrTarget(val) }
}

/// The `bgt.s` instruction (opcode `0x30`).
pub fn bgt_s(val: i8) -> (r: Instruction)
    ensures
        r@ == (InstructionView { opcode: single_opcode(0x30), operand: OperandView::ShortInlineBrTarget(val) }),
        r@.wf(),
{
    Instruction { opcode: Opcode::from_byte(0x30), operand: Operand::ShortInlineBrTarget(val) }
}

/// The `ble.s` instruction (opcode `0x31`).
pub fn ble_s(val: i8) -> (r: Instruction)
    ensures
        r@ == (InstructionView { opcode: single_opcode(0x31), operand: OperandView::ShortInlineBrTarget(val) }),
        r@.wf(),
{
    Instruction { opcode: Opcode::from_byte(0x31), operand: Operand::ShortInlineBrTarget(val) }
}

/// The `blt.s` instruction (opcode `0x32`).
pub fn blt_s(val: i8) -> (r: Instruction)
    ensures
        r@ == (InstructionView { opcode: single_opcode(0x32), operand: OperandView::ShortInlineBrTarget(val) }),
        r@.wf(),
{
    Instruction { opcode: Opcode::from_byte(0x32), operand: Operand::ShortInlineBrTarget(val) }
}

/// The `bne.un.s` instruction (opcode `0x33`).
pub fn bne_un_s(val: i8) -> (r: Instruction)
    ensures
        r@ == (InstructionView { opcode: single_opcode(0x33), operand: OperandView::ShortInlineBrTarget(val) }),
        r@.wf(),
{
    Instruction { opcode: Opcode::from_byte(0x33), operand: Operand::ShortInlineBrTarget(val) }
}

/// The `bge.un.s` instruction (opcode `0x34`).
pub fn bge_un_s(val: i8) -> (r: Instruction)
    ensures
        r@ == (InstructionView { opcode: single_opcode(0x34), operand: OperandView::ShortInlineBrTarget(val) }),
        r@.wf(),
{
    Instruction { opcode: Opcode::from_byte(0x34), operand: Operand::ShortInlineBrTarget(val) }
}

/// The `bgt.un.s` instruction (opcode `0x35`).
pub fn bgt_un_s(val: i8) -> (r: Instruction)
    ensures
        r@ == (InstructionView { opcode: single_opcode(0x35), operand: OperandView::ShortInlineBrTarget(val) }),
        r@.wf(),
{
    Instruction { opcode: Opcode::from_byte(0x35), operand: Operand::ShortInlineBrTarget(val) }
}

/// The `ble.un.s` instruction (opcode `0x36`).
pub fn ble_un_s(val: i8) -> (r: Instruction)
    ensures
        r@ == (InstructionView { opcode: single_opcode(0x36), operand: OperandView::ShortInlineBrTarget(val) }),
        r@.wf(),
{
    Instruction { opcode: Opcode::from_byte(0x36), operand: Operand::ShortInlineBrTarget(val) }
}

/// The `blt.un.s` instruction (opcode `0x37`).
pub fn blt_un_s(val: i8) -> (r: Instruction)
    ensures
        r@ == (InstructionView { opcode: single_opcode(0x37), operand: OperandView::ShortInlineBrTarget(val) }),
        r@.wf(),
{
    Instruction { opcode: Opcode::from_byte(0x37), operand: Operand::ShortInlineBrTarget(val) }
}

/// The `br` instruction (opcode `0x38`).
pub fn br(val: i32) -> (r: Instruction)
    ensures
        r@ == (InstructionView { opcode: single_opcode(0x38), operand: OperandView::InlineBrTarget(val) }),
        r@.wf(),
{
    Instruction { opcode: Opcode::from_byte(0x38), operand: Operand::InlineBrTarget(val) }
}

/// The `brfalse` instruction (opcode `0x39`).
pub fn brfalse(val: i32) -> (r: Instruction)
    ensures
        r@ == (InstructionView { opcode: single_opcode(0x39), operand: OperandView::InlineBrTarget(val) }),
        r@.wf(),
{
    Instruction { opcode: Opcode::from_byte(0x39), operand: Operand::InlineBrTarget(val) }
}

/// The `brtrue` instruction (opcode `0x3A`).
pub fn brtrue(val: i32) -> (r: Instruction)
    ensures
        r@ == (InstructionView { opcode: single_opcode(0x3A), operand: OperandView::InlineBrTarget(val) }),
        r@.wf(),
{
    Instruction { opcode: Opcode::from_byte(0x3A), operand: Operand::InlineBrTarget(val) }
}

/// The `beq` instruction (opcode `0x3B`).
pub fn beq(val: i32) -> (r: Instruction)
    ensures
        r@ == (InstructionView { opcode: single_opcode(0x3B), operand: OperandView::InlineBrTarget(val) }),
        r@.wf(),
{
    Instruction { opcode: Opcode::from_byte(0x3B), operand: Operand::InlineBrTarget(val) }
}

/// The `bge` instruction (opcode `0x3C`).
pub fn bge(val: i32) -> (r: Instruction)
    ensures
        r@ == (InstructionView { opcode: single_opcode(0x3C), operand: OperandView::InlineBrTarget(val) }),
        r@.wf(),
{
    Instruction { opcode: Opcode::from_byte(0x3C), operand: Operand::InlineBrTarget(val) }
}

/// The `bgt` instruction (opcode `0x3D`).
pub fn bgt(val: i32) -> (r: Instruction)
    ensures
        r@ == (InstructionView { opcode: single_opcode(0x3D), operand: OperandView::InlineBrTarget(val) }),
        r@.wf(),
{
    Instruction { opcode: Opcode::from_byte(0x3D), operand: Operand::InlineBrTarget(val) }
}

/// The `ble` instruction (opcode `0x3E`).
pub fn ble(val: i32) -> (r: Instruction)
    ensures
        r@ == (InstructionView { opcode: single_opcode(0x3E), operand: OperandView::InlineBrTarget(val) }),
        r@.wf(),
{
    Instruction { opcode: Opcode::from_byte(0x3E), operand: Operand::InlineBrTarget(val) }
}

/// The `blt` instruction (opcode `0x3F`).
pub fn blt(val: i32) -> (r: Instruction)
    ensures
        r@ == (InstructionView { opcode: single_opcode(0x3F), operand: OperandView::InlineBrTarget(val) }),
        r@.wf(),
{
    Instruction { opcode: Opcode::from_byte(0x3F), operand: Operand::InlineBrTarget(val) }
}

/// The `bne.un` instruction (opcode `0x40`).
pub fn bne_un(val: i32) -> (r: Instruction)
    ensures
        r@ == (InstructionView { opcode: single_opcode(0x40), operand: OperandView::InlineBrTarget(val) }),
        r@.wf(),
{
    Instruction { opcode: Opcode::from_byte(0x40), operand: Operand::InlineBrTarget(val) }
}

/// The `bge.un` instruction (opcode `0x41`).
pub fn bge_un(val: i32) -> (r: Instruction)
    ensures
        r@ == (InstructionView { opcode: single_opcode(0x41), operand: OperandView::InlineBrTarget(val) }),
        r@.wf(),
{
    Instruction { opcode: Opcode::from_byte(0x41), operand: Operand::InlineBrTarget(val) }
}

/// The `bgt.un` instruction (opcode `0x42`).
pub fn bgt_un(val: i32) -> (r: Instruction)
    ensures
        r@ == (InstructionView { opcode: single_opcode(0x42), operand: OperandView::InlineBrTarget(val) }),
        r@.wf(),
{
    Instruction { opcode: Opcode::from_byte(0x42), operand: Operand::InlineBrTarget(val) }
}

/// The `ble.un` instruction (opcode `0x43`).
pub fn ble_un(val: i32) -> (r: Instruction)
    ensures
        r@ == (InstructionView { opcode: single_opcode(0x43), operand: OperandView::InlineBrTarget(val) }),
        r@.wf(),
{
    Instruction { opcode: Opcode::from_byte(0x43), operand: Operand::InlineBrTarget(val) }
}

/// The `blt.un` instruction (opcode `0x44`).
pub fn blt_un(val: i32) -> (r: Instruction)
    ensures
        r@ == (InstructionView { opcode: single_opcode(0x44), operand: OperandView::InlineBrTarget(val) }),
        r@.wf(),
{
    Instruction { opcode: Opcode::from_byte(0x44), operand: Operand::InlineBrTarget(val) }
}

/// The `switch` instruction (opcode `0x45`).
/// The instruction is well formed when `length` is the number of targets.
pub fn switch(length: u32, targets: Vec<i32>) -> (r: Instruction)
    ensures
        r@ == (InstructionView { opcode: single_opcode(0x45), operand: OperandView::InlineSwitch(length, targets@) }),
{
    Instruction { opcode: Opcode::from_byte(0x45), operand: Operand::InlineSwitch(length, targets) }
}

/// The `ldind.i1` instruction (opcode `0x46`).
pub fn ldind_i1() -> (r: Instruction)
    ensures
        r@ == (InstructionView { opcode: single_opcode(0x46), operand: OperandView::InlineNone }),
        r@.wf(),
{
    Instruction { opcode: Opcode::from_byte(0x46), operand: Operand::InlineNone }
}

/// The `ldind.u1` instruction (opcode `0x47`).
pub fn ldind_u1() -> (r: Instruction)
    ensures
        r@ == (InstructionView { opcode: single_opcode(0x47), operand: OperandView::InlineNone }),
        r@.wf(),
{
    Instruction { opcode: Opcode::from_byte(0x47), operand: Operand::InlineNone }
}

/// The `ldind.i2` instruction (opcode `0x48`).
pub fn ldind_i2() -> (r: Instruction)
    ensures
        r@ == (InstructionView { opcode: single_opcode(0x48), operand: OperandView::InlineNone }),
        r@.wf(),
{
    Instruction { opcode: Opcode::from_byte(0x48), operand: Operand::InlineNone }
}

/// The `ldind.u2` instruction (opcode `0x49`).
pub fn ldind_u2() -> (r: Instruction)
    ensures
        r@ == (InstructionView { opcode: single_opcode(0x49), operand: OperandView::InlineNone }),
        r@.wf(),
{
    Instruction { opcode: Opcode::from_byte(0x49), operand: Operand::InlineNone }
}

/// The `ldind.i4` instruction (opcode `0x4A`).
pub fn ldind_i4() -> (r: Instruction)
    ensures
        r@ == (InstructionView { opcode: single_opcode(0x4A), operand: OperandView::InlineNone }),
        r@.wf(),
{
    Instruction { opcode: Opcode::from_byte(0x4A), operand: Operand::InlineNone }
}

/// The `ldind.u4` instruction (opcode `0x4B`).
pub fn ldind_u4() -> (r: Instruction)
    ensures
        r@ == (InstructionView { opcode: single_opcode(0x4B), operand: OperandView::InlineNone }),
        r@.wf(),
{
    Instruction { opcode: Opcode::from_byte(0x4B), operand: Operand::InlineNone }
}

/// The `ldind.i8` instruction (opcode `0x4C`).
pub fn ldind_i8() -> (r: Instruction)
    ensures
        r@ == (InstructionView { opcode: single_opcode(0x4C), operand: OperandView::InlineNone }),
        r@.wf(),
{
    Instruction { opcode: Opcode::from_byte(0x4C), operand: Operand::InlineNone }
}

/// The `ldind.i` instruction (opcode `0x4D`).
pub fn ldind_i() -> (r: Instruction)
    ensures
        r@ == (InstructionView { opcode: single_opcode(0x4D), operand: OperandView::InlineNone }),
        r@.wf(),
{
    Instruction { opcode: Opcode::from_byte(0x4D), operand: Operand::InlineNone }
}

/// The `ldind.r4` instruction (opcode `0x4E`).
pub fn ldind_r4() -> (r: Instruction)
    ensures
        r@ == (InstructionView { opcode: single_opcode(0x4E), operand: OperandView::InlineNone }),
        r@.wf(),
{
    Instruction { opcode: Opcode::from_byte(0x4E), operand: Operand::InlineNone }
}

/// The `ldind.r8` instruction (opcode `0x4F`).
pub fn ldind_r8() -> (r: Instruction)
    ensures
        r@ == (InstructionView { opcode: single_opcode(0x4F), operand: OperandView::InlineNone }),
        r@.wf(),
{
    Instruction { opcode: Opcode::from_byte(0x4F), operand: Operand::InlineNone }
}

/// The `ldind.ref` instruction (opcode `0x50`).
pub fn ldind_ref() -> (r: Instruction)
    ensures
        r@ == (InstructionView { opcode: single_opcode(0x50), operand: OperandView::InlineNone }),
        r@.wf(),
{
    Instruction { opcode: Opcode::from_byte(0x50), operand: Operand::InlineNone }
}

/// The `stind.ref` instruction (opcode `0x51`).
pub fn stind_ref() -> (r: Instruction)
    ensures
        r@ == (InstructionView { opcode: single_opcode(0x51), operand: OperandView::InlineNone }),
        r@.wf(),
{
    Instruction { opcode: Opcode::from_byte(0x51), operand: Operand::InlineNone }
}

/// The `stind.i1` instruction (opcode `0x52`).
pub fn stind_i1() -> (r: Instruction)
    ensures
        r@ == (InstructionView { opcode: single_opcode(0x52), operand: OperandView::InlineNone }),
        r@.wf(),
{
    Instruction { opcode: Opcode::from_byte(0x52), operand: Operand::InlineNone }
}

/// The `stind.i2` instruction (opcode `0x53`).
pub fn stind_i2() -> (r: Instruction)
    ensures
        r@ == (InstructionView { opcode: single_opcode(0x53), operand: OperandView::InlineNone }),
        r@.wf(),
{
    Instruction { opcode: Opcode::from_byte(0x53), operand: Operand::InlineNone }
}

/// The `stind.i4` instruction (opcode `0x54`).
pub fn stind_i4() -> (r: Instruction)
    ensures
        r@ == (InstructionView { opcode: single_opcode(0x54), operand: OperandView::InlineNone }),
        r@.wf(),
{
    Instruction { opcode: Opcode::from_byte(0x54), operand: Operand::InlineNone }
}

/// The `stind.i8` instruction (opcode `0x55`).
pub fn stind_i8() -> (r: Instruction)
    ensures
        r@ == (InstructionView { opcode: single_opcode(0x55), operand: OperandView::InlineNone }),
        r@.wf(),
{
    Instruction { opcode: Opcode::from_byte(0x55), operand: Operand::InlineNone }
}

/// The `stind.r4` instruction (opcode `0x56`).
pub fn stind_r4() -> (r: Instruction)
    ensures
        r@ == (InstructionView { opcode: single_opcode(0x56), operand: OperandView::InlineNone }),
        r@.wf(),
{
    Instruction { opcode: Opcode::from_byte(0x56), operand: Operand::InlineNone }
}

/// The `stind.r8` instruction (opcode `0x57`).
pub fn stind_r8() -> (r: Instruction)
    ensures
        r@ == (InstructionView { opcode: single_opcode(0x57), operand: OperandView::InlineNone }),
        r@.wf(),
{
    Instruction { opcode: Opcode::from_byte(0x57), operand: Operand::InlineNone }
}

/// The `add` instruction (opcode `0x58`).
pub fn add() -> (r: Instruction)
    ensures
        r@ == (InstructionView { opcode: single_opcode(0x58), operand: OperandView::InlineNone }),
        r@.wf(),
{
    Instruction { opcode: Opcode::from_byte(0x58), operand: Operand::InlineNone }
}

/// The `sub` instruction (opcode `0x59`).
pub fn sub() -> (r: Instruction)
    ensures
        r@ == (InstructionView { opcode: single_opcode(0x59), operand: OperandView::InlineNone }),
        r@.wf(),
{
    Instruction { opcode: Opcode::from_byte(0x59), operand: Operand::InlineNone }
}

/// The `mul` instruction (opcode `0x5A`).
pub fn mul() -> (r: Instruction)
    ensures
        r@ == (InstructionView { opcode: single_opcode(0x5A), operand: OperandView::InlineNone }),
        r@.wf(),
{
    Instruction { opcode: Opcode::from_byte(0x5A), operand: Operand::InlineNone }
}

/// The `div` instruction (opcode `0x5B`).
pub fn div() -> (r: Instruction)
    ensures
        r@ == (InstructionView { opcode: single_opcode(0x5B), operand: OperandView::InlineNone }),
        r@.wf(),
{
    Instruction { opcode: Opcode::from_byte(0x5B), operand: Operand::InlineNone }
}

/// The `div.un` instruction (opcode `0x5C`).
pub fn div_un() -> (r: Instruction)
    ensures
        r@ == (InstructionView { opcode: single_opcode(0x5C), operand: OperandView::InlineNone }),
        r@.wf(),
{
    Instruction { opcode: Opcode::from_byte(0x5C), operand: Operand::InlineNone }
}

/// The `rem` instruction (opcode `0x5D`).
pub fn rem() -> (r: Instruction)
    ensures
        r@ == (InstructionView { opcode: single_opcode(0x5D), operand: OperandView::InlineNone }),
        r@.wf(),
{
    Instruction { opcode: Opcode::from_byte(0x5D), operand: Operand::InlineNone }
}

/// The `rem.un` instruction (opcode `0x5E`).
pub fn rem_un() -> (r: Instruction)
    ensures
        r@ == (InstructionView { opcode: single_opcode(0x5E), operand: OperandView::InlineNone }),
        r@.wf(),
{
    Instruction { opcode: Opcode::from_byte(0x5E), operand: Operand::InlineNone }
}

/// The `and` instruction (opcode `0x5F`).
pub fn and() -> (r: Instruction)
    ensures
        r@ == (InstructionView { opcode: single_opcode(0x5F), operand: OperandView::InlineNone }),
        r@.wf(),
{
    Instruction { opcode: Opcode::from_byte(0x5F), operand: Operand::InlineNone }
}

/// The `or` instruction (opcode `0x60`).
pub fn or() -> (r: Instruction)
    ensures
        r@ == (InstructionView { opcode: single_opcode(0x60), operand: OperandView::InlineNone }),
        r@.wf(),
{
    Instruction { opcode: Opcode::from_byte(0x60), operand: Operand::InlineNone }
}

/// The `xor` instruction (opcode `0x61`).
pub fn xor() -> (r: Instruction)
    ensures
        r@ == (InstructionView { opcode: single_opcode(0x61), operand: OperandView::InlineNone }),
        r@.wf(),
{
    Instruction { opcode: Opcode::from_byte(0x61), operand: Operand::InlineNone }
}

/// The `shl` instruction (opcode `0x62`).
pub fn shl() -> (r: Instruction)
    ensures
        r@ == (InstructionView { opcode: single_opcode(0x62), operand: OperandView::InlineNone }),
        r@.wf(),
{
    Instruction { opcode: Opcode::from_byte(0x62), operand: Operand::InlineNone }
}

/// The `shr` instruction (opcode `0x63`).
pub fn shr() -> (r: Instruction)
    ensures
        r@ == (InstructionView { opcode: single_opcode(0x63), operand: OperandView::InlineNone }),
        r@.wf(),
{
    Instruction { opcode: Opcode::from_byte(0x63), operand: Operand::InlineNone }
}

/// The `shr.un` instruction (opcode `0x64`).
pub fn shr_un() -> (r: Instruction)
    ensures
        r@ == (InstructionView { opcode: single_opcode(0x64), operand: OperandView::InlineNone }),
        r@.wf(),
{
    Instruction { opcode: Opcode::from_byte(0x64), operand: Operand::InlineNone }
}

/// The `neg` instruction (opcode `0x65`).
pub fn neg() -> (r: Instruction)
    ensures
        r@ == (InstructionView { opcode: single_opcode(0x65), operand: OperandView::InlineNone }),
        r@.wf(),
{
    Instruction { opcode: Opcode::from_byte(0x65), operand: Operand::InlineNone }
}

/// The `not` instruction (opcode `0x66`).
pub fn not() -> (r: Instruction)
    ensures
        r@ == (InstructionView { opcode: single_opcode(0x66), operand: OperandView::InlineNone }),
        r@.wf(),
{
    Instruction { opcode: Opcode::from_byte(0x66), operand: Operand::InlineNone }
}

/// The `conv.i1` instruction (opcode `0x67`).
pub fn conv_i1() -> (r: Instruction)
    ensures
        r@ == (InstructionView { opcode: single_opcode(0x67), operand: OperandView::InlineNone }),
        r@.wf(),
{
    Instruction { opcode: Opcode::from_byte(0x67), operand: Operand::InlineNone }
}

/// The `conv.i2` instruction (opcode `0x68`).
pub fn conv_i2() -> (r: Instruction)
    ensures
        r@ == (InstructionView { opcode: single_opcode(0x68), operand: OperandView::InlineNone }),
        r@.wf(),
{
    Instruction { opcode: Opcode::from_byte(0x68), operand: Operand::InlineNone }
}

/// The `conv.i4` instruction (opcode `0x69`).
pub fn conv_i4() -> (r: Instruction)
    ensures
        r@ == (InstructionView { opcode: single_opcode(0x69), operand: OperandView::InlineNone }),
        r@.wf(),
{
    Instruction { opcode: Opcode::from_byte(0x69), operand: Operand::InlineNone }
}

/// The `conv.i8` instruction (opcode `0x6A`).
pub fn conv_i8() -> (r: Instruction)
    ensures
        r@ == (InstructionView { opcode: single_opcode(0x6A), operand: OperandView::InlineNone }),
        r@.wf(),
{
    Instruction { opcode: Opcode::from_byte(0x6A), operand: Operand::InlineNone }
}

/// The `conv.r4` instruction (opcode `0x6B`).
pub fn conv_r4() -> (r: Instruction)
    ensures
        r@ == (InstructionView { opcode: single_opcode(0x6B), operand: OperandView::InlineNone }),
        r@.wf(),
{
    Instruction { opcode: Opcode::from_byte(0x6B), operand: Operand::InlineNone }
}

/// The `conv.r8` instruction (opcode `0x6C`).
pub fn conv_r8() -> (r: Instruction)
    ensures
        r@ == (InstructionView { opcode: single_opcode(0x6C), operand: OperandView::InlineNone }),
        r@.wf(),
{
    Instruction { opcode: Opcode::from_byte(0x6C), operand: Operand::InlineNone }
}

/// The `conv.u4` instruction (opcode `0x6D`).
pub fn conv_u4() -> (r: Instruction)
    ensures
        r@ == (InstructionView { opcode: single_opcode(0x6D), operand: OperandView::InlineNone }),
        r@.wf(),
{
    Instruction { opcode: Opcode::from_byte(0x6D), operand: Operand::InlineNone }
}

/// The `conv.u8` instruction (opcode `0x6E`).
pub fn conv_u8() -> (r: Instruction)
    ensures
        r@ == (InstructionView { opcode: single_opcode(0x6E), operand: OperandView::InlineNone }),
        r@.wf(),
{
    Instruction { opcode: Opcode::from_byte(0x6E), operand: Operand::InlineNone }
}

/// The `callvirt` instruction (opcode `0x6F`).
pub fn callvirt(val: u32) -> (r: Instruction)
    ensures
        r@ == (InstructionView { opcode: single_opcode(0x6F), operand: OperandView::InlineMethod(val) }),
        r@.wf(),
{
    Instruction { opcode: Opcode::from_byte(0x6F), operand: Operand::InlineMethod(val) }
}

/// The `cpobj` instruction (opcode `0x70`).
pub fn cpobj(val: u32) -> (r: Instruction)
    ensures
        r@ == (InstructionView { opcode: single_opcode(0x70), operand: OperandView::InlineType(val) }),
        r@.wf(),
{
    Instruction { opcode: Opcode::from_byte(0x70), operand: Operand::InlineType(val) }
}

/// The `ldobj` instruction (opcode `0x71`).
pub fn ldobj(val: u32) -> (r: Instruction)
    ensures
        r@ == (InstructionView { opcode: single_opcode(0x71), operand: OperandView::InlineType(val) }),
        r@.wf(),
{
    Instruction { opcode: Opcode::from_byte(0x71), operand: Operand::InlineType(val) }
}

/// The `ldstr` instruction (opcode `0x72`).
pub fn ldstr(val: u32) -> (r: Instruction)
    ensures
        r@ == (InstructionView { opcode: single_opcode(0x72), operand: OperandView::InlineString(val) }),
        r@.wf(),
{
    Instruction { opcode: Opcode::from_byte(0x72), operand: Operand::InlineString(val) }
}

/// The `newobj` instruction (opcode `0x73`).
pub fn newobj(val: u32) -> (r: Instruction)
    ensures
        r@ == (InstructionView { opcode: single_opcode(0x73), operand: OperandView::InlineMethod(val) }),
        r@.wf(),
{
    Instruction { opcode: Opcode::from_byte(0x73), operand: Operand::InlineMethod(val) }
}

/// The `castclass` instruction (opcode `0x74`).
pub fn castclass(val: u32) -> (r: Instruction)
    ensures
        r@ == (InstructionView { opcode: single_opcode(0x74), operand: OperandView::InlineType(val) }),
        r@.wf(),
{
    Instruction { opcode: Opcode::from_byte(0x74), operand: Operand::InlineType(val) }
}

/// The `isinst` instruction (opcode `0x75`).
pub fn isinst(val: u32) -> (r: Instruction)
    ensures
        r@ == (InstructionView { opcode: single_opcode(0x75), operand: OperandView::InlineType(val) }),
        r@.wf(),
{
    Instruction { opcode: Opcode::from_byte(0x75), operand: Operand::InlineType(val) }
}

/// The `conv.r.un` instruction (opcode `0x76`).
pub fn conv_r_un() -> (r: Instruction)
    ensures
        r@ == (InstructionView { opcode: single_opcode(0x76), operand: OperandView::InlineNone }),
        r@.wf(),
{
    Instruction { opcode: Opcode::from_byte(0x76), operand: Operand::InlineNone }
}

/// The `unbox` instruction (opcode `0x79`).
pub fn unbox(val: u32) -> (r: Instruction)
    ensures
        r@ == (InstructionView { opcode: single_opcode(0x79), operand: OperandView::InlineType(val) }),
        r@.wf(),
{
    Instruction { opcode: Opcode::from_byte(0x79), operand: Operand::InlineType(val) }
}

/// The `throw` instruction (opcode `0x7A`).
pub fn throw() -> (r: Instruction)
    ensures
        r@ == (InstructionView { opcode: single_opcode(0x7A), operand: OperandView::InlineNone }),
        r@.wf(),
{
    Instruction { opcode: Opcode::from_byte(0x7A), operand: Operand::InlineNone }
}

/// The `ldfld` instruction (opcode `0x7B`).
pub fn ldfld(val: u32) -> (r: Instruction)
    ensures
        r@ == (InstructionView { opcode: single_opcode(0x7B), operand: OperandView::InlineField(val) }),
        r@.wf(),
{
    Instruction { opcode: Opcode::from_byte(0x7B), operand: Operand::InlineField(val) }
}

/// The `ldflda` instruction (opcode `0x7C`).
pub fn ldflda(val: u32) -> (r: Instruction)
    ensures
        r@ == (InstructionView { opcode: single_opcode(0x7C), operand: OperandView::InlineField(val) }),
        r@.wf(),
{
    Instruction { opcode: Opcode::from_byte(0x7C), operand: Operand::InlineField(val) }
}

/// The `stfld` instruction (opcode `0x7D`).
pub fn stfld(val: u32) -> (r: Instruction)
    ensures
        r@ == (InstructionView { opcode: single_opcode(0x7D), operand: OperandView::InlineField(val) }),
        r@.wf(),
{
    Instruction { opcode: Opcode::from_byte(0x7D), operand: Operand::InlineField(val) }
}

/// The `ldsfld` instruction (opcode `0x7E`).
pub fn ldsfld(val: u32) -> (r: Instruction)
    ensures
        r@ == (InstructionView { opcode: single_opcode(0x7E), operand: OperandView::InlineField(val) }),
        r@.wf(),
{
    Instruction { opcode: Opcode::from_byte(0x7E), operand: Operand::InlineField(val) }
}

/// The `ldsflda` instruction (opcode `0x7F`).
pub fn ldsflda(val: u32) -> (r: Instruction)
    ensures
        r@ == (InstructionView { opcode: single_opcode(0x7F), operand: OperandView::InlineField(val) }),
        r@.wf(),
{
    Instruction { opcode: Opcode::from_byte(0x7F), operand: Operand::InlineField(val) }
}

/// The `stsfld` instruction (opcode `0x80`).
pub fn stsfld(val: u32) -> (r: Instruction)
    ensures
        r@ == (InstructionView { opcode: single_opcode(0x80), operand: OperandView::InlineField(val) }),
        r@.wf(),
{
    Instruction { opcode: Opcode::from_byte(0x80), operand: Operand::InlineField(val) }
}

/// The `stobj` instruction (opcode `0x81`).
pub fn stobj(val: u32) -> (r: Instruction)
    ensures
        r@ == (InstructionView { opcode: single_opcode(0x81), operand: OperandView::InlineType(val) }),
        r@.wf(),
{
    Instruction { opcode: Opcode::from_byte(0x81), operand: Operand::InlineType(val) }
}

/// The `conv.ovf.i1.un` instruction (opcode `0x82`).
pub fn conv_ovf_i1_un() -> (r: Instruction)
    ensures
        r@ == (InstructionView { opcode: single_opcode(0x82), operand: OperandView::InlineNone }),
        r@.wf(),
{
    Instruction { opcode: Opcode::from_byte(0x82), operand: Operand::InlineNone }
}

/// The `conv.ovf.i2.un` instruction (opcode `0x83`).
pub fn conv_ovf_i2_un() -> (r: Instruction)
    ensures
        r@ == (InstructionView { opcode: single_opcode(0x83), operand: OperandView::InlineNone }),
        r@.wf(),
{
    Instruction { opcode: Opcode::from_byte(0x83), operand: Operand::InlineNone }
}

/// The `conv.ovf.i4.un` instruction (opcode `0x84`).
pub fn conv_ovf_i4_un() -> (r: Instruction)
    ensures
        r@ == (InstructionView { opcode: single_opcode(0x84), operand: OperandView::InlineNone }),
        r@.wf(),
{
    Instruction { opcode: Opcode::from_byte(0x84), operand: Operand::InlineNone }
}

/// The `conv.ovf.i8.un` instruction (opcode `0x85`).
pub fn conv_ovf_i8_un() -> (r: Instruction)
    ensures
        r@ == (InstructionView { opcode: single_opcode(0x85), operand: OperandView::InlineNone }),
        r@.wf(),
{
    Instruction { opcode: Opcode::from_byte(0x85), operand: Operand::InlineNone }
}

/// The `conv.ovf.u1.un` instruction (opcode `0x86`).
pub fn conv_ovf_u1_un() -> (r: Instruction)
    ensures
        r@ == (InstructionView { opcode: single_opcode(0x86), operand: OperandView::InlineNone }),
        r@.wf(),
{
    Instruction { opcode: Opcode::from_byte(0x86), operand: Operand::InlineNone }
}

/// The `conv.ovf.u2.un` instruction (opcode `0x87`).
pub fn conv_ovf_u2_un() -> (r: Instruction)
    ensures
        r@ == (InstructionView { opcode: single_opcode(0x87), operand: OperandView::InlineNone }),
        r@.wf(),
{
    Instruction { opcode: Opcode::from_byte(0x87), operand: Operand::InlineNone }
}

/// The `conv.ovf.u4.un` instruction (opcode `0x88`).
pub fn conv_ovf_u4_un() -> (r: Instruction)
    ensures
        r@ == (InstructionView { opcode: single_opcode(0x88), operand: OperandView::InlineNone }),
        r@.wf(),
{
    Instruction { opcode: Opcode::from_byte(0x88), operand: Operand::InlineNone }
}

/// The `conv.ovf.u8.un` instruction (opcode `0x89`).
pub fn conv_ovf_u8_un() -> (r: Instruction)
    ensures
        r@ == (InstructionView { opcode: single_opcode(0x89), operand: OperandView::InlineNone }),
        r@.wf(),
{
    Instruction { opcode: Opcode::from_byte(0x89), operand: Operand::InlineNone }
}

/// The `conv.ovf.i.un` instruction (opcode `0x8A`).
pub fn conv_ovf_i_un() -> (r: Instruction)
    ensures
        r@ == (InstructionView { opcode: single_opcode(0x8A), operand: OperandView::InlineNone }),
        r@.wf(),
{
    Instruction { opcode: Opcode::from_byte(0x8A), operand: Operand::InlineNone }
}

/// The `conv.ovf.u.un` instruction (opcode `0x8B`).
pub fn conv_ovf_u_un() -> (r: Instruction)
    ensures
        r@ == (InstructionView { opcode: single_opcode(0x8B), operand: OperandView::InlineNone }),
        r@.wf(),
{
    Instruction { opcode: Opcode::from_byte(0x8B), operand: Operand::InlineNone }
}

/// The `box` instruction (opcode `0x8C`).
pub fn box_(val: u32) -> (r: Instruction)
    ensures
        r@ == (InstructionView { opcode: single_opcode(0x8C), operand: OperandView::InlineType(val) }),
        r@.wf(),
{
    Instruction { opcode: Opcode::from_byte(0x8C), operand: Operand::InlineType(val) }
}

/// The `newarr` instruction (opcode `0x8D`).
pub fn newarr(val: u32) -> (r: Instruction)
    ensures
        r@ == (InstructionView { opcode: single_opcode(0x8D), operand: OperandView::InlineType(val) }),
        r@.wf(),
{
    Instruction { opcode: Opcode::from_byte(0x8D), operand: Operand::InlineType(val) }
}

/// The `ldlen` instruction (opcode `0x8E`).
pub fn ldlen() -> (r: Instruction)
    ensures
        r@ == (InstructionView { opcode: single_opcode(0x8E), operand: OperandView::InlineNone }),
        r@.wf(),
{
    Instruction { opcode: Opcode::from_byte(0x8E), operand: Operand::InlineNone }
}

/// The `ldelema` instruction (opcode `0x8F`).
pub fn ldelema(val: u32) -> (r: Instruction)
    ensures
        r@ == (InstructionView { opcode: single_opcode(0x8F), operand: OperandView::InlineType(val) }),
        r@.wf(),
{
    Instruction { opcode: Opcode::from_byte(0x8F), operand: Operand::InlineType(val) }
}

/// The `ldelem.i1` instruction (opcode `0x90`).
pub fn ldelem_i1() -> (r: Instruction)
    ensures
        r@ == (InstructionView { opcode: single_opcode(0x90), operand: OperandView::InlineNone }),
        r@.wf(),
{
    Instruction { opcode: Opcode::from_byte(0x90), operand: Operand::InlineNone }
}

/// The `ldelem.u1` instruction (opcode `0x91`).
pub fn ldelem_u1() -> (r: Instruction)
    ensures
        r@ == (InstructionView { opcode: single_opcode(0x91), operand: OperandView::InlineNone }),
        r@.wf(),
{
    Instruction { opcode: Opcode::from_byte(0x91), operand: Operand::InlineNone }
}

/// The `ldelem.i2` instruction (opcode `0x92`).
pub fn ldelem_i2() -> (r: Instruction)
    ensures
        r@ == (InstructionView { opcode: single_opcode(0x92), operand: OperandView::InlineNone }),
        r@.wf(),
{
    Instruction { opcode: Opcode::from_byte(0x92), operand: Operand::InlineNone }
}

/// The `ldelem.u2` instruction (opcode `0x93`).
pub fn ldelem_u2() -> (r: Instruction)
    ensures
        r@ == (InstructionView { opcode: single_opcode(0x93), operand: OperandView::InlineNone }),
        r@.wf(),
{
    Instruction { opcode: Opcode::from_byte(0x93), operand: Operand::InlineNone }
}

/// The `ldelem.i4` instruction (opcode `0x94`).
pub fn ldelem_i4() -> (r: Instruction)
    ensures
        r@ == (InstructionView { opcode: single_opcode(0x94), operand: OperandView::InlineNone }),
        r@.wf(),
{
    Instruction { opcode: Opcode::from_byte(0x94), operand: Operand::InlineNone }
}

/// The `ldelem.u4` instruction (opcode `0x95`).
pub fn ldelem_u4() -> (r: Instruction)
    ensures
        r@ == (InstructionView { opcode: single_opcode(0x95), operand: OperandView::InlineNone }),
        r@.wf(),
{
    Instruction { opcode: Opcode::from_byte(0x95), operand: Operand::InlineNone }
}

/// The `ldelem.i8` instruction (opcode `0x96`).
pub fn ldelem_i8() -> (r: Instruction)
    ensures
        r@ == (InstructionView { opcode: single_opcode(0x96), operand: OperandView::InlineNone }),
        r@.wf(),
{
    Instruction { opcode: Opcode::from_byte(0x96), operand: Operand::InlineNone }
}

/// The `ldelem.i` instruction (opcode `0x97`).
pub fn ldelem_i() -> (r: Instruction)
    ensures
        r@ == (InstructionView { opcode: single_opcode(0x97), operand: OperandView::InlineNone }),
        r@.wf(),
{
    Instruction { opcode: Opcode::from_byte(0x97), operand: Operand::InlineNone }
}

/// The `ldelem.r4` instruction (opcode `0x98`).
pub fn ldelem_r4() -> (r: Instruction)
    ensures
        r@ == (InstructionView { opcode: single_opcode(0x98), operand: OperandView::InlineNone }),
        r@.wf(),
{
    Instruction { opcode: Opcode::from_byte(0x98), operand: Operand::InlineNone }
}

/// The `ldelem.r8` instruction (opcode `0x99`).
pub fn ldelem_r8() -> (r: Instruction)
    ensures
        r@ == (InstructionView { opcode: single_opcode(0x99), operand: OperandView::InlineNone }),
        r@.wf(),
{
    Instruction { opcode: Opcode::from_byte(0x99), operand: Operand::InlineNone }
}

/// The `ldelem.ref` instruction (opcode `0x9A`).
pub fn ldelem_ref() -> (r: Instruction)
    ensures
        r@ == (InstructionView { opcode: single_opcode(0x9A), operand: OperandView::InlineNone }),
        r@.wf(),
{
    Instruction { opcode: Opcode::from_byte(0x9A), operand: Operand::InlineNone }
}

/// The `stelem.i` instruction (opcode `0x9B`).
pub fn stelem_i() -> (r: Instruction)
    ensures
        r@ == (InstructionView { opcode: single_opcode(0x9B), operand: OperandView::InlineNone }),
        r@.wf(),
{
    Instruction { opcode: Opcode::from_byte(0x9B), operand: Operand::InlineNone }
}

/// The `stelem.i1` instruction (opcode `0x9C`).
pub fn stelem_i1() -> (r: Instruction)
    ensures
        r@ == (InstructionView { opcode: single_opcode(0x9C), operand: OperandView::InlineNone }),
        r@.wf(),
{
    Instruction { opcode: Opcode::from_byte(0x9C), operand: Operand::InlineNone }
}

/// The `stelem.i2` instruction (opcode `0x9D`).
pub fn stelem_i2() -> (r: Instruction)
    ensures
        r@ == (InstructionView { opcode: single_opcode(0x9D), operand: OperandView::InlineNone }),
        r@.wf(),
{
    Instruction { opcode: Opcode::from_byte(0x9D), operand: Operand::InlineNone }
}

/// The `stelem.i4` instruction (opcode `0x9E`).
pub fn stelem_i4() -> (r: Instruction)
    ensures
        r@ == (InstructionView { opcode: single_opcode(0x9E), operand: OperandView::InlineNone }),
        r@.wf(),
{
    Instruction { opcode: Opcode::from_byte(0x9E), operand: Operand::InlineNone }
}

/// The `stelem.i8` instruction (opcode `0x9F`).
pub fn stelem_i8() -> (r: Instruction)
    ensures
        r@ == (InstructionView { opcode: single_opcode(0x9F), operand: OperandView::InlineNone }),
        r@.wf(),
{
    Instruction { opcode: Opcode::from_byte(0x9F), operand: Operand::InlineNone }
}

/// The `stelem.r4` instruction (opcode `0xA0`).
pub fn stelem_r4() -> (r: Instruction)
    ensures
        r@ == (InstructionView { opcode: single_opcode(0xA0), operand: OperandView::InlineNone }),
        r@.wf(),
{
    Instruction { opcode: Opcode::from_byte(0xA0), operand: Operand::InlineNone }
}

/// The `stelem.r8` instruction (opcode `0xA1`).
pub fn stelem_r8() -> (r: Instruction)
    ensures
        r@ == (InstructionView { opcode: single_opcode(0xA1), operand: OperandView::InlineNone }),
        r@.wf(),
{
    Instruction { opcode: Opcode::from_byte(0xA1), operand: Operand::InlineNone }
}

/// The `stelem.ref` instruction (opcode `0xA2`).
pub fn stelem_ref() -> (r: Instruction)
    ensures
        r@ == (InstructionView { opcode: single_opcode(0xA2), operand: OperandView::InlineNone }),
        r@.wf(),
{
    Instruction { opcode: Opcode::from_byte(0xA2), operand: Operand::InlineNone }
}

/// The `ldelem` instruction (opcode `0xA3`).
pub fn ldelem(val: u32) -> (r: Instruction)
    ensures
        r@ == (InstructionView { opcode: single_opcode(0xA3), operand: OperandView::InlineType(val) }),
        r@.wf(),
{
    Instruction { opcode: Opcode::from_byte(0xA3), operand: Operand::InlineType(val) }
}

/// The `stelem` instruction (opcode `0xA4`).
pub fn stelem(val: u32) -> (r: Instruction)
    ensures
        r@ == (InstructionView { opcode: single_opcode(0xA4), operand: OperandView::InlineType(val) }),
        r@.wf(),
{
    Instruction { opcode: Opcode::from_byte(0xA4), operand: Operand::InlineType(val) }
}

/// The `unbox.any` instruction (opcode `0xA5`).
pub fn unbox_any(val: u32) -> (r: Instruction)
    ensures
        r@ == (InstructionView { opcode: single_opcode(0xA5), operand: OperandView::InlineType(val) }),
        r@.wf(),
{
    Instruction { opcode: Opcode::from_byte(0xA5), operand: Operand::InlineType(val) }
}

/// The `conv.ovf.i1` instruction (opcode `0xB3`).
pub fn conv_ovf_i1() -> (r: Instruction)
    ensures
        r@ == (InstructionView { opcode: single_opcode(0xB3), operand: OperandView::InlineNone }),
        r@.wf(),
{
    Instruction { opcode: Opcode::from_byte(0xB3), operand: Operand::InlineNone }
}

/// The `conv.ovf.u1` instruction (opcode `0xB4`).
pub fn conv_ovf_u1() -> (r: Instruction)
    ensures
        r@ == (InstructionView { opcode: single_opcode(0xB4), operand: OperandView::InlineNone }),
        r@.wf(),
{
    Instruction { opcode: Opcode::from_byte(0xB4), operand: Operand::InlineNone }
}

/// The `conv.ovf.i2` instruction (opcode `0xB5`).
pub fn conv_ovf_i2() -> (r: Instruction)
    ensures
        r@ == (InstructionView { opcode: single_opcode(0xB5), operand: OperandView::InlineNone }),
        r@.wf(),
{
    Instruction { opcode: Opcode::from_byte(0xB5), operand: Operand::InlineNone }
}

/// The `conv.ovf.u2` instruction (opcode `0xB6`).
pub fn conv_ovf_u2() -> (r: Instruction)
    ensures
        r@ == (InstructionView { opcode: single_opcode(0xB6), operand: OperandView::InlineNone }),
        r@.wf(),
{
    Instruction { opcode: Opcode::from_byte(0xB6), operand: Operand::InlineNone }
}

/// The `conv.ovf.i4` instruction (opcode `0xB7`).
pub fn conv_ovf_i4() -> (r: Instruction)
    ensures
        r@ == (InstructionView { opcode: single_opcode(0xB7), operand: OperandView::InlineNone }),
        r@.wf(),
{
    Instruction { opcode: Opcode::from_byte(0xB7), operand: Operand::InlineNone }
}

/// The `conv.ovf.u4` instruction (opcode `0xB8`).
pub fn conv_ovf_u4() -> (r: Instruction)
    ensures
        r@ == (InstructionView { opcode: single_opcode(0xB8), operand: OperandView::InlineNone }),
        r@.wf(),
{
    Instruction { opcode: Opcode::from_byte(0xB8), operand: Operand::InlineNone }
}

/// The `conv.ovf.i8` instruction (opcode `0xB9`).
pub fn conv_ovf_i8() -> (r: Instruction)
    ensures
        r@ == (InstructionView { opcode: single_opcode(0xB9), operand: OperandView::InlineNone }),
        r@.wf(),
{
    Instruction { opcode: Opcode::from_byte(0xB9), operand: Operand::InlineNone }
}

/// The `conv.ovf.u8` instruction (opcode `0xBA`).
pub fn conv_ovf_u8() -> (r: Instruction)
    ensures
        r@ == (InstructionView { opcode: single_opcode(0xBA), operand: OperandView::InlineNone }),
        r@.wf(),
{
    Instruction { opcode: Opcode::from_byte(0xBA), operand: Operand::InlineNone }
}

/// The `refanyval` instruction (opcode `0xC2`).
pub fn refanyval(val: u32) -> (r: Instruction)
    ensures
        r@ == (InstructionView { opcode: single_opcode(0xC2), operand: OperandView::InlineType(val) }),
        r@.wf(),
{
    Instruction { opcode: Opcode::from_byte(0xC2), operand: Operand::InlineType(val) }
}

/// The `ckfinite` instruction (opcode `0xC3`).
pub fn ckfinite() -> (r: Instruction)
    ensures
        r@ == (InstructionView { opcode: single_opcode(0xC3), operand: OperandView::InlineNone }),
        r@.wf(),
{
    Instruction { opcode: Opcode::from_byte(0xC3), operand: Operand::InlineNone }
}

/// The `mkrefany` instruction (opcode `0xC6`).
pub fn mkrefany(val: u32) -> (r: Instruction)
    ensures
        r@ == (InstructionView { opcode: single_opcode(0xC6), operand: OperandView::InlineType(val) }),
        r@.wf(),
{
    Instruction { opcode: Opcode::from_byte(0xC6), operand: Operand::InlineType(val) }
}

/// The `ldtoken` instruction (opcode `0xD0`).
pub fn ldtoken(val: u32) -> (r: Instruction)
    ensures
        r@ == (InstructionView { opcode: single_opcode(0xD0), operand: OperandView::InlineTok(val) }),
        r@.wf(),
{
    Instruction { opcode: Opcode::from_byte(0xD0), operand: Operand::InlineTok(val) }
}

/// The `conv.u2` instruction (opcode `0xD1`).
pub fn conv_u2() -> (r: Instruction)
    ensures
        r@ == (InstructionView { opcode: single_opcode(0xD1), operand: OperandView::InlineNone }),
        r@.wf(),
{
    Instruction { opcode: Opcode::from_byte(0xD1), operand: Operand::InlineNone }
}

/// The `conv.u1` instruction (opcode `0xD2`).
pub fn conv_u1() -> (r: Instruction)
    ensures
        r@ == (InstructionView { opcode: single_opcode(0xD2), operand: OperandView::InlineNone }),
        r@.wf(),
{
    Instruction { opcode: Opcode::from_byte(0xD2), operand: Operand::InlineNone }
}

/// The `conv.i` instruction (opcode `0xD3`).
pub fn conv_i() -> (r: Instruction)
    ensures
        r@ == (InstructionView { opcode: single_opcode(0xD3), operand: OperandView::InlineNone }),
        r@.wf(),
{
    Instruction { opcode: Opcode::from_byte(0xD3), operand: Operand::InlineNone }
}

/// The `conv.ovf.i` instruction (opcode `0xD4`).
pub fn conv_ovf_i() -> (r: Instruction)
    ensures
        r@ == (InstructionView { opcode: single_opcode(0xD4), operand: OperandView::InlineNone }),
        r@.wf(),
{
    Instruction { opcode: Opcode::from_byte(0xD4), operand: Operand::InlineNone }
}

/// The `conv.ovf.u` instruction (opcode `0xD5`).
pub fn conv_ovf_u() -> (r: Instruction)
    ensures
        r@ == (InstructionView { opcode: single_opcode(0xD5), operand: OperandView::InlineNone }),
        r@.wf(),
{
    Instruction { opcode: Opcode::from_byte(0xD5), operand: Operand::InlineNone }
}

/// The `add.ovf` instruction (opcode `0xD6`).
pub fn add_ovf() -> (r: Instruction)
    ensures
        r@ == (InstructionView { opcode: single_opcode(0xD6), operand: OperandView::InlineNone }),
        r@.wf(),
{
    Instruction { opcode: Opcode::from_byte(0xD6), operand: Operand::InlineNone }
}

/// The `add.ovf.un` instruction (opcode `0xD7`).
pub fn add_ovf_un() -> (r: Instruction)
    ensures
        r@ == (InstructionView { opcode: single_opcode(0xD7), operand: OperandView::InlineNone }),
        r@.wf(),
{
    Instruction { opcode: Opcode::from_byte(0xD7), operand: Operand::InlineNone }
}

/// The `mul.ovf` instruction (opcode `0xD8`).
pub fn mul_ovf() -> (r: Instruction)
    ensures
        r@ == (InstructionView { opcode: single_opcode(0xD8), operand: OperandView::InlineNone }),
        r@.wf(),
{
    Instruction { opcode: Opcode::from_byte(0xD8), operand: Operand::InlineNone }
}

/// The `mul.ovf.un` instruction (opcode `0xD9`).
pub fn mul_ovf_un() -> (r: Instruction)
    ensures
        r@ == (InstructionView { opcode: single_opcode(0xD9), operand: OperandView::InlineNone }),
        r@.wf(),
{
    Instruction { opcode: Opcode::from_byte(0xD9), operand: Operand::InlineNone }
}

/// The `sub.ovf` instruction (opcode `0xDA`).
pub fn sub_ovf() -> (r: Instruction)
    ensures
        r@ == (InstructionView { opcode: single_opcode(0xDA), operand: OperandView::InlineNone }),
        r@.wf(),
{
    Instruction { opcode: Opcode::from_byte(0xDA), operand: Operand::InlineNone }
}

/// The `sub.ovf.un` instruction (opcode `0xDB`).
pub fn sub_ovf_un() -> (r: Instruction)
    ensures
        r@ == (InstructionView { opcode: single_opcode(0xDB), operand: OperandView::InlineNone }),
        r@.wf(),
{
    Instruction { opcode: Opcode::from_byte(0xDB), operand: Operand::InlineNone }
}

/// The `endfinally` instruction (opcode `0xDC`).
pub fn endfinally() -> (r: Instruction)
    ensures
        r@ == (InstructionView { opcode: single_opcode(0xDC), operand: OperandView::InlineNone }),
        r@.wf(),
{
    Instruction { opcode: Opcode::from_byte(0xDC), operand: Operand::InlineNone }
}

/// The `leave` instruction (opcode `0xDD`).
pub fn leave(val: i32) -> (r: Instruction)
    ensures
        r@ == (InstructionView { opcode: single_opcode(0xDD), operand: OperandView::InlineBrTarget(val) }),
        r@.wf(),
{
    Instruction { opcode: Opcode::from_byte(0xDD), operand: Operand::InlineBrTarget(val) }
}

/// The `leave.s` instruction (opcode `0xDE`).
pub fn leave_s(val: i8) -> (r: Instruction)
    ensures
        r@ == (InstructionView { opcode: single_opcode(0xDE), operand: OperandView::ShortInlineBrTarget(val) }),
        r@.wf(),
{
    Instruction { opcode: Opcode::from_byte(0xDE), operand: Operand::ShortInlineBrTarget(val) }
}

/// The `stind.i` instruction (opcode `0xDF`).
pub fn stind_i() -> (r: Instruction)
    ensures
        r@ == (InstructionView { opcode: single_opcode(0xDF), operand: OperandView::InlineNone }),
        r@.wf(),
{
    Instruction { opcode: Opcode::from_byte(0xDF), operand: Operand::InlineNone }
}

/// The `conv.u` instruction (opcode `0xE0`).
pub fn conv_u() -> (r: Instruction)
    ensures
        r@ == (InstructionView { opcode: single_opcode(0xE0), operand: OperandView::InlineNone }),
        r@.wf(),
{
    Instruction { opcode: Opcode::from_byte(0xE0), operand: Operand::InlineNone }
}

/// The `arglist` instruction (opcode `0xFE 0x00`).
pub fn arglist() -> (r: Instruction)
    ensures
        r@ == (InstructionView { opcode: double_opcode(0x00), operand: OperandView::InlineNone }),
        r@.wf(),
{
    Instruction { opcode: Opcode { length: 2, byte_1: 0xFE, byte_2: 0x00, operand_params: OperandParams::InlineNone }, operand: Operand::InlineNone }
}

/// The `ceq` instruction (opcode `0xFE 0x01`).
pub fn ceq() -> (r: Instruction)
    ensures
        r@ == (InstructionView { opcode: double_opcode(0x01), operand: OperandView::InlineNone }),
        r@.wf(),
{
    Instruction { opcode: Opcode { length: 2, byte_1: 0xFE, byte_2: 0x01, operand_params: OperandParams::InlineNone }, operand: Operand::InlineNone }
}

/// The `cgt` instruction (opcode `0xFE 0x02`).
pub fn cgt() -> (r: Instruction)
    ensures
        r@ == (InstructionView { opcode: double_opcode(0x02), operand: OperandView::InlineNone }),
        r@.wf(),
{
    Instruction { opcode: Opcode { length: 2, byte_1: 0xFE, byte_2: 0x02, operand_params: OperandParams::InlineNone }, operand: Operand::InlineNone }
}

/// The `cgt.un` instruction (opcode `0xFE 0x03`).
pub fn cgt_un() -> (r: Instruction)
    ensures
        r@ == (InstructionView { opcode: double_opcode(0x03), operand: OperandView::InlineNone }),
        r@.wf(),
{
    Instruction { opcode: Opcode { length: 2, byte_1: 0xFE, byte_2: 0x03, operand_params: OperandParams::InlineNone }, operand: Operand::InlineNone }
}

/// The `clt` instruction (opcode `0xFE 0x04`).
pub fn clt() -> (r: Instruction)
    ensures
        r@ == (InstructionView { opcode: double_opcode(0x04), operand: OperandView::InlineNone }),
        r@.wf(),
{
    Instruction { opcode: Opcode { length: 2, byte_1: 0xFE, byte_2: 0x04, operand_params: OperandParams::InlineNone }, operand: Operand::InlineNone }
}

/// The `clt.un` instruction (opcode `0xFE 0x05`).
pub fn clt_un() -> (r: Instruction)
    ensures
        r@ == (InstructionView { opcode: double_opcode(0x05), operand: OperandView::InlineNone }),
        r@.wf(),
{
    Instruction { opcode: Opcode { length: 2, byte_1: 0xFE, byte_2: 0x05, operand_params: OperandParams::InlineNone }, operand: Operand::InlineNone }
}

/// The `ldftn` instruction (opcode `0xFE 0x06`).
pub fn ldftn(val: u32) -> (r: Instruction)
    ensures
        r@ == (InstructionView { opcode: double_opcode(0x06), operand: OperandView::InlineMethod(val) }),
        r@.wf(),
{
    Instruction { opcode: Opcode { length: 2, byte_1: 0xFE, byte_2: 0x06, operand_params: OperandParams::InlineMethod }, operand: Operand::InlineMethod(val) }
}

/// The `ldvirtftn` instruction (opcode `0xFE 0x07`).
pub fn ldvirtftn(val: u32) -> (r: Instruction)
    ensures
        r@ == (InstructionView { opcode: double_opcode(0x07), operand: OperandView::InlineMethod(val) }),
        r@.wf(),
{
    Instruction { opcode: Opcode { length: 2, byte_1: 0xFE, byte_2: 0x07, operand_params: OperandParams::InlineMethod }, operand: Operand::InlineMethod(val) }
}

/// The `ldarg` instruction (opcode `0xFE 0x09`).
pub fn ldarg(val: u16) -> (r: Instruction)
    ensures
        r@ == (InstructionView { opcode: double_opcode(0x09), operand: OperandView::InlineVar(val) }),
        r@.wf(),
{
    Instruction { opcode: Opcode { length: 2, byte_1: 0xFE, byte_2: 0x09, operand_params: OperandParams::InlineVar }, operand: Operand::InlineVar(val) }
}

/// The `ldarga` instruction (opcode `0xFE 0x0A`).
pub fn ldarga(val: u16) -> (r: Instruction)
    ensures
        r@ == (InstructionView { opcode: double_opcode(0x0A), operand: OperandView::InlineVar(val) }),
        r@.wf(),
{
    Instruction { opcode: Opcode { length: 2, byte_1: 0xFE, byte_2: 0x0A, operand_params: OperandParams::InlineVar }, operand: Operand::InlineVar(val) }
}

/// The `starg` instruction (opcode `0xFE 0x0B`).
pub fn starg(val: u16) -> (r: Instruction)
    ensures
        r@ == (InstructionView { opcode: double_opcode(0x0B), operand: OperandView::InlineVar(val) }),
        r@.wf(),
{
    Instruction { opcode: Opcode { length: 2, byte_1: 0xFE, byte_2: 0x0B, operand_params: OperandParams::InlineVar }, operand: Operand::InlineVar(val) }
}

/// The `ldloc` instruction (opcode `0xFE 0x0C`).
pub fn ldloc(val: u16) -> (r: Instruction)
    ensures
        r@ == (InstructionView { opcode: double_opcode(0x0C), operand: OperandView::InlineVar(val) }),
        r@.wf(),
{
    Instruction { opcode: Opcode { length: 2, byte_1: 0xFE, byte_2: 0x0C, operand_params: OperandParams::InlineVar }, operand: Operand::InlineVar(val) }
}

/// The `ldloca` instruction (opcode `0xFE 0x0D`).
pub fn ldloca(val: u16) -> (r: Instruction)
    ensures
        r@ == (InstructionView { opcode: double_opcode(0x0D), operand: OperandView::InlineVar(val) }),
        r@.wf(),
{
    Instruction { opcode: Opcode { length: 2, byte_1: 0xFE, byte_2: 0x0D, operand_params: OperandParams::InlineVar }, operand: Operand::InlineVar(val) }
}

/// The `stloc` instruction (opcode `0xFE 0x0E`).
pub fn stloc(val: u16) -> (r: Instruction)
    ensures
        r@ == (InstructionView { opcode: double_opcode(0x0E), operand: OperandView::InlineVar(val) }),
        r@.wf(),
{
    Instruction { opcode: Opcode { length: 2, byte_1: 0xFE, byte_2: 0x0E, operand_params: OperandParams::InlineVar }, operand: Operand::InlineVar(val) }
}

/// The `localloc` instruction (opcode `0xFE 0x0F`).
pub fn localloc() -> (r: Instruction)
    ensures
        r@ == (InstructionView { opcode: double_opcode(0x0F), operand: OperandView::InlineNone }),
        r@.wf(),
{
    Instruction { opcode: Opcode { length: 2, byte_1: 0xFE, byte_2: 0x0F, operand_params: OperandParams::InlineNone }, operand: Operand::InlineNone }
}

/// The `endfilter` instruction (opcode `0xFE 0x11`).
pub fn endfilter() -> (r: Instruction)
    ensures
        r@ == (InstructionView { opcode: double_opcode(0x11), operand: OperandView::InlineNone }),
        r@.wf(),
{
    Instruction { opcode: Opcode { length: 2, byte_1: 0xFE, byte_2: 0x11, operand_params: OperandParams::InlineNone }, operand: Operand::InlineNone }
}

/// The `unaligned` instruction (opcode `0xFE 0x12`).
pub fn unaligned(val: u8) -> (r: Instruction)
    ensures
        r@ == (InstructionView { opcode: double_opcode(0x12), operand: OperandView::ShortInlineI(val) }),
        r@.wf(),
{
    Instruction { opcode: Opcode { length: 2, byte_1: 0xFE, byte_2: 0x12, operand_params: OperandParams::ShortInlineI }, operand: Operand::ShortInlineI(val) }
}

/// The `volatile` instruction (opcode `0xFE 0x13`).
pub fn volatile() -> (r: Instruction)
    ensures
        r@ == (InstructionView { opcode: double_opcode(0x13), operand: OperandView::InlineNone }),
        r@.wf(),
{
    Instruction { opcode: Opcode { length: 2, byte_1: 0xFE, byte_2: 0x13, operand_params: OperandParams::InlineNone }, operand: Operand::InlineNone }
}

/// The `tailcall` instruction (opcode `0xFE 0x14`).
pub fn tailcall() -> (r: Instruction)
    ensures
        r@ == (InstructionView { opcode: double_opcode(0x14), operand: OperandView::InlineNone }),
        r@.wf(),
{
    Instruction { opcode: Opcode { length: 2, byte_1: 0xFE, byte_2: 0x14, operand_params: OperandParams::InlineNone }, operand: Operand::InlineNone }
}

/// The `initobj` instruction (opcode `0xFE 0x15`).
pub fn initobj(val: u32) -> (r: Instruction)
    ensures
        r@ == (InstructionView { opcode: double_opcode(0x15), operand: OperandView::InlineType(val) }),
        r@.wf(),
{
    Instruction { opcode: Opcode { length: 2, byte_1: 0xFE, byte_2: 0x15, operand_params: OperandParams::InlineType }, operand: Operand::InlineType(val) }
}

/// The `constrained` instruction (opcode `0xFE 0x16`).
pub fn constrained(val: u32) -> (r: Instruction)
    ensures
        r@ == (InstructionView { opcode: double_opcode(0x16), operand: OperandView::InlineType(val) }),
        r@.wf(),
{
    Instruction { opcode: Opcode { length: 2, byte_1: 0xFE, byte_2: 0x16, operand_params: OperandParams::InlineType }, operand: Operand::InlineType(val) }
}

/// The `cpblk` instruction (opcode `0xFE 0x17`).
pub fn cpblk() -> (r: Instruction)
    ensures
        r@ == (InstructionView { opcode: double_opcode(0x17), operand: OperandView::InlineNone }),
        r@.wf(),
{
    Instruction { opcode: Opcode { length: 2, byte_1: 0xFE, byte_2: 0x17, operand_params: OperandParams::InlineNone }, operand: Operand::InlineNone }
}

/// The `initblk` instruction (opcode `0xFE 0x18`).
pub fn initblk() -> (r: Instruction)
    ensures
        r@ == (InstructionView { opcode: double_opcode(0x18), operand: OperandView::InlineNone }),
        r@.wf(),
{
    Instruction { opcode: Opcode { length: 2, byte_1: 0xFE, byte_2: 0x18, operand_params: OperandParams::InlineNone }, operand: Operand::InlineNone }
}

/// The `rethrow` instruction (opcode `0xFE 0x1A`).
pub fn rethrow() -> (r: Instruction)
    ensures
        r@ == (InstructionView { opcode: double_opcode(0x1A), operand: OperandView::InlineNone }),
        r@.wf(),
{
    Instruction { opcode: Opcode { length: 2, byte_1: 0xFE, byte_2: 0x1A, operand_params: OperandParams::InlineNone }, operand: Operand::InlineNone }
}

/// The `sizeof` instruction (opcode `0xFE 0x1C`).
pub fn sizeof(val: u32) -> (r: Instruction)
    ensures
        r@ == (InstructionView { opcode: double_opcode(0x1C), operand: OperandView::InlineType(val) }),
        r@.wf(),
{
    Instruction { opcode: Opcode { length: 2, byte_1: 0xFE, byte_2: 0x1C, operand_params: OperandParams::InlineType }, operand: Operand::InlineType(val) }
}

/// The `refanytype` instruction (opcode `0xFE 0x1D`).
pub fn refanytype() -> (r: Instruction)
    ensures
        r@ == (InstructionView { opcode: double_opcode(0x1D), operand: OperandView::InlineNone }),
        r@.wf(),
{
    Instruction { opcode: Opcode { length: 2, byte_1: 0xFE, byte_2: 0x1D, operand_params: OperandParams::InlineNone }, operand: Operand::InlineNone }
}

/// The `readonly` instruction (opcode `0xFE 0x1E`).
pub fn readonly() -> (r: Instruction)
    ensures
        r@ == (InstructionView { opcode: double_opcode(0x1E), operand: OperandView::InlineNone }),
        r@.wf(),
{
    Instruction { opcode: Opcode { length: 2, byte_1: 0xFE, byte_2: 0x1E, operand_params: OperandParams::InlineNone }, operand: Operand::InlineNone }
}

} // verus!

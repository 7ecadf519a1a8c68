//! The operator catalog and the instruction decoder built on it.
//!
//! The catalog is a closed, exhaustive mapping from every instruction
//! encoding the decoder recognizes — the single-byte opcode space and the
//! four prefixed extension spaces: `0xFB` (garbage collection), `0xFC`
//! (saturating conversions and bulk memory), `0xFD` (vectors, including the
//! relaxed forms), and `0xFE` (atomics) — to its canonical textual name and
//! the shape of its immediate operands. An opcode outside the catalog is a
//! decode error at the opcode's offset; immediates are consumed, to keep the
//! cursor positioned at the next instruction, but their values are not
//! retained.

use vstd::prelude::*;
use crate::error::{BinaryError, ErrorV, mk_err, msg_unknown_opcode, msg_bad_block_type};
use crate::cursor::{SpRead, read_view, sp_byte, read_u8, sp_var_u32, read_var_u32, sp_var_u64,
    read_var_u64, sp_var_s, read_var_s, sp_bytes, read_bytes};
use crate::grammar::{sp_val_type, read_val_type, sp_heap_type, read_heap_type, is_ref_type_start};
use crate::sections::{sp_items, read_items};
use crate::types::{ValType, Operator, OperatorV, ConstExpr, ConstExprV};

verus! {

/// The shape of an instruction's immediate operands.
#[derive(Debug, Clone, Copy, PartialEq, Eq)]
pub enum ImmKind {
    /// No immediates.
    NoImm,
    /// A block type: empty, a value type, or a type-section index.
    BlockType,
    /// One 32-bit unsigned index or label.
    U32,
    /// Two 32-bit unsigned indices.
    U32U32,
    /// A memory argument: alignment, then a 64-bit offset.
    MemArg,
    /// A 32-bit signed constant.
    I32,
    /// A 64-bit signed constant.
    I64,
    /// Four raw bytes of a 32-bit float constant.
    F32Bytes,
    /// Eight raw bytes of a 64-bit float constant.
    F64Bytes,
    /// A branch table: a counted run of labels, then the default label.
    BrTable,
    /// A heap type.
    HeapTypeImm,
    /// A counted run of value types.
    SelectTypes,
    /// One raw byte: a lane index, or a fence's flags byte.
    ByteImm,
    /// Sixteen raw bytes: a vector constant, or a shuffle's lane indices.
    Bytes16,
    /// A memory argument, then one lane-index byte.
    MemArgLane,
    /// A cast branch's flag byte, its label, and its two heap types.
    BrOnCast,
}

/// The catalog's row for a single-byte opcode: its canonical name and the
/// shape of its immediates, or nothing when the opcode is not recognized.
#[verifier::opaque]
pub open spec fn op_info_spec(b: u8) -> Option<(Seq<char>, ImmKind)> {
    match b {
        0x00 => Some(("unreachable"@, ImmKind::NoImm)),
        0x01 => Some(("nop"@, ImmKind::NoImm)),
        0x02 => Some(("block"@, ImmKind::BlockType)),
        0x03 => Some(("loop"@, ImmKind::BlockType)),
        0x04 => Some(("if"@, ImmKind::BlockType)),
        0x05 => Some(("else"@, ImmKind::NoImm)),
        0x06 => Some(("try"@, ImmKind::BlockType)),
        0x07 => Some(("catch"@, ImmKind::U32)),
        0x08 => Some(("throw"@, ImmKind::U32)),
        0x09 => Some(("rethrow"@, ImmKind::U32)),
        0x0B => Some(("end"@, ImmKind::NoImm)),
        0x0C => Some(("br"@, ImmKind::U32)),
        0x0D => Some(("br_if"@, ImmKind::U32)),
        0x0E => Some(("br_table"@, ImmKind::BrTable)),
        0x0F => Some(("return"@, ImmKind::NoImm)),
        0x10 => Some(("call"@, ImmKind::U32)),
        0x11 => Some(("call_indirect"@, ImmKind::U32U32)),
        0x12 => Some(("return_call"@, ImmKind::U32)),
        0x13 => Some(("return_call_indirect"@, ImmKind::U32U32)),
        0x14 => Some(("call_ref"@, ImmKind::U32)),
        0x15 => Some(("return_call_ref"@, ImmKind::U32)),
        0x18 => Some(("delegate"@, ImmKind::U32)),
        0x19 => Some(("catch_all"@, ImmKind::NoImm)),
        0x1A => Some(("drop"@, ImmKind::NoImm)),
        0x1B => Some(("select"@, ImmKind::NoImm)),
        0x1C => Some(("select"@, ImmKind::SelectTypes)),
        0x20 => Some(("local.get"@, ImmKind::U32)),
        0x21 => Some(("local.set"@, ImmKind::U32)),
        0x22 => Some(("local.tee"@, ImmKind::U32)),
        0x23 => Some(("global.get"@, ImmKind::U32)),
        0x24 => Some(("global.set"@, ImmKind::U32)),
        0x25 => Some(("table.get"@, ImmKind::U32)),
        0x26 => Some(("table.set"@, ImmKind::U32)),
        0x28 => Some(("i32.load"@, ImmKind::MemArg)),
        0x29 => Some(("i64.load"@, ImmKind::MemArg)),
        0x2A => Some(("f32.load"@, ImmKind::MemArg)),
        0x2B => Some(("f64.load"@, ImmKind::MemArg)),
        0x2C => Some(("i32.load8_s"@, ImmKind::MemArg)),
        0x2D => Some(("i32.load8_u"@, ImmKind::MemArg)),
        0x2E => Some(("i32.load16_s"@, ImmKind::MemArg)),
        0x2F => Some(("i32.load16_u"@, ImmKind::MemArg)),
        0x30 => Some(("i64.load8_s"@, ImmKind::MemArg)),
        0x31 => Some(("i64.load8_u"@, ImmKind::MemArg)),
        0x32 => Some(("i64.load16_s"@, ImmKind::MemArg)),
        0x33 => Some(("i64.load16_u"@, ImmKind::MemArg)),
        0x34 => Some(("i64.load32_s"@, ImmKind::MemArg)),
        0x35 => Some(("i64.load32_u"@, ImmKind::MemArg)),
        0x36 => Some(("i32.store"@, ImmKind::MemArg)),
        0x37 => Some(("i64.store"@, ImmKind::MemArg)),
        0x38 => Some(("f32.store"@, ImmKind::MemArg)),
        0x39 => Some(("f64.store"@, ImmKind::MemArg)),
        0x3A => Some(("i32.store8"@, ImmKind::MemArg)),
        0x3B => Some(("i32.store16"@, ImmKind::MemArg)),
        0x3C => Some(("i64.store8"@, ImmKind::MemArg)),
        0x3D => Some(("i64.store16"@, ImmKind::MemArg)),
        0x3E => Some(("i64.store32"@, ImmKind::MemArg)),
        0x3F => Some(("memory.size"@, ImmKind::U32)),
        0x40 => Some(("memory.grow"@, ImmKind::U32)),
        0x41 => Some(("i32.const"@, ImmKind::I32)),
        0x42 => Some(("i64.const"@, ImmKind::I64)),
        0x43 => Some(("f32.const"@, ImmKind::F32Bytes)),
        0x44 => Some(("f64.const"@, ImmKind::F64Bytes)),
        0x45 => Some(("i32.eqz"@, ImmKind::NoImm)),
        0x46 => Some(("i32.eq"@, ImmKind::NoImm)),
        0x47 => Some(("i32.ne"@, ImmKind::NoImm)),
        0x48 => Some(("i32.lt_s"@, ImmKind::NoImm)),
        0x49 => Some(("i32.lt_u"@, ImmKind::NoImm)),
        0x4A => Some(("i32.gt_s"@, ImmKind::NoImm)),
        0x4B => Some(("i32.gt_u"@, ImmKind::NoImm)),
        0x4C => Some(("i32.le_s"@, ImmKind::NoImm)),
        0x4D => Some(("i32.le_u"@, ImmKind::NoImm)),
        0x4E => Some(("i32.ge_s"@, ImmKind::NoImm)),
        0x4F => Some(("i32.ge_u"@, ImmKind::NoImm)),
        0x50 => Some(("i64.eqz"@, ImmKind::NoImm)),
        0x51 => Some(("i64.eq"@, ImmKind::NoImm)),
        0x52 => Some(("i64.ne"@, ImmKind::NoImm)),
        0x53 => Some(("i64.lt_s"@, ImmKind::NoImm)),
        0x54 => Some(("i64.lt_u"@, ImmKind::NoImm)),
        0x55 => Some(("i64.gt_s"@, ImmKind::NoImm)),
        0x56 => Some(("i64.gt_u"@, ImmKind::NoImm)),
        0x57 => Some(("i64.le_s"@, ImmKind::NoImm)),
        0x58 => Some(("i64.le_u"@, ImmKind::NoImm)),
        0x59 => Some(("i64.ge_s"@, ImmKind::NoImm)),
        0x5A => Some(("i64.ge_u"@, ImmKind::NoImm)),
        0x5B => Some(("f32.eq"@, ImmKind::NoImm)),
        0x5C => Some(("f32.ne"@, ImmKind::NoImm)),
        0x5D => Some(("f32.lt"@, ImmKind::NoImm)),
        0x5E => Some(("f32.gt"@, ImmKind::NoImm)),
        0x5F => Some(("f32.le"@, ImmKind::NoImm)),
        0x60 => Some(("f32.ge"@, ImmKind::NoImm)),
        0x61 => Some(("f64.eq"@, ImmKind::NoImm)),
        0x62 => Some(("f64.ne"@, ImmKind::NoImm)),
        0x63 => Some(("f64.lt"@, ImmKind::NoImm)),
        0x64 => Some(("f64.gt"@, ImmKind::NoImm)),
        0x65 => Some(("f64.le"@, ImmKind::NoImm)),
        0x66 => Some(("f64.ge"@, ImmKind::NoImm)),
        0x67 => Some(("i32.clz"@, ImmKind::NoImm)),
        0x68 => Some(("i32.ctz"@, ImmKind::NoImm)),
        0x69 => Some(("i32.popcnt"@, ImmKind::NoImm)),
        0x6A => Some(("i32.add"@, ImmKind::NoImm)),
        0x6B => Some(("i32.sub"@, ImmKind::NoImm)),
        0x6C => Some(("i32.mul"@, ImmKind::NoImm)),
        0x6D => Some(("i32.div_s"@, ImmKind::NoImm)),
        0x6E => Some(("i32.div_u"@, ImmKind::NoImm)),
        0x6F => Some(("i32.rem_s"@, ImmKind::NoImm)),
        0x70 => Some(("i32.rem_u"@, ImmKind::NoImm)),
        0x71 => Some(("i32.and"@, ImmKind::NoImm)),
        0x72 => Some(("i32.or"@, ImmKind::NoImm)),
        0x73 => Some(("i32.xor"@, ImmKind::NoImm)),
        0x74 => Some(("i32.shl"@, ImmKind::NoImm)),
        0x75 => Some(("i32.shr_s"@, ImmKind::NoImm)),
        0x76 => Some(("i32.shr_u"@, ImmKind::NoImm)),
        0x77 => Some(("i32.rotl"@, ImmKind::NoImm)),
        0x78 => Some(("i32.rotr"@, ImmKind::NoImm)),
        0x79 => Some(("i64.clz"@, ImmKind::NoImm)),
        0x7A => Some(("i64.ctz"@, ImmKind::NoImm)),
        0x7B => Some(("i64.popcnt"@, ImmKind::NoImm)),
        0x7C => Some(("i64.add"@, ImmKind::NoImm)),
        0x7D => Some(("i64.sub"@, ImmKind::NoImm)),
        0x7E => Some(("i64.mul"@, ImmKind::NoImm)),
        0x7F => Some(("i64.div_s"@, ImmKind::NoImm)),
        0x80 => Some(("i64.div_u"@, ImmKind::NoImm)),
        0x81 => Some(("i64.rem_s"@, ImmKind::NoImm)),
        0x82 => Some(("i64.rem_u"@, ImmKind::NoImm)),
        0x83 => Some(("i64.and"@, ImmKind::NoImm)),
        0x84 => Some(("i64.or"@, ImmKind::NoImm)),
        0x85 => Some(("i64.xor"@, ImmKind::NoImm)),
        0x86 => Some(("i64.shl"@, ImmKind::NoImm)),
        0x87 => Some(("i64.shr_s"@, ImmKind::NoImm)),
        0x88 => Some(("i64.shr_u"@, ImmKind::NoImm)),
        0x89 => Some(("i64.rotl"@, ImmKind::NoImm)),
        0x8A => Some(("i64.rotr"@, ImmKind::NoImm)),
        0x8B => Some(("f32.abs"@, ImmKind::NoImm)),
        0x8C => Some(("f32.neg"@, ImmKind::NoImm)),
        0x8D => Some(("f32.ceil"@, ImmKind::NoImm)),
        0x8E => Some(("f32.floor"@, ImmKind::NoImm)),
        0x8F => Some(("f32.trunc"@, ImmKind::NoImm)),
        0x90 => Some(("f32.nearest"@, ImmKind::NoImm)),
        0x91 => Some(("f32.sqrt"@, ImmKind::NoImm)),
        0x92 => Some(("f32.add"@, ImmKind::NoImm)),
        0x93 => Some(("f32.sub"@, ImmKind::NoImm)),
        0x94 => Some(("f32.mul"@, ImmKind::NoImm)),
        0x95 => Some(("f32.div"@, ImmKind::NoImm)),
        0x96 => Some(("f32.min"@, ImmKind::NoImm)),
        0x97 => Some(("f32.max"@, ImmKind::NoImm)),
        0x98 => Some(("f32.copysign"@, ImmKind::NoImm)),
        0x99 => Some(("f64.abs"@, ImmKind::NoImm)),
        0x9A => Some(("f64.neg"@, ImmKind::NoImm)),
        0x9B => Some(("f64.ceil"@, ImmKind::NoImm)),
        0x9C => Some(("f64.floor"@, ImmKind::NoImm)),
        0x9D => Some(("f64.trunc"@, ImmKind::NoImm)),
        0x9E => Some(("f64.nearest"@, ImmKind::NoImm)),
        0x9F => Some(("f64.sqrt"@, ImmKind::NoImm)),
        0xA0 => Some(("f64.add"@, ImmKind::NoImm)),
        0xA1 => Some(("f64.sub"@, ImmKind::NoImm)),
        0xA2 => Some(("f64.mul"@, ImmKind::NoImm)),
        0xA3 => Some(("f64.div"@, ImmKind::NoImm)),
        0xA4 => Some(("f64.min"@, ImmKind::NoImm)),
        0xA5 => Some(("f64.max"@, ImmKind::NoImm)),
        0xA6 => Some(("f64.copysign"@, ImmKind::NoImm)),
        0xA7 => Some(("i32.wrap_i64"@, ImmKind::NoImm)),
        0xA8 => Some(("i32.trunc_f32_s"@, ImmKind::NoImm)),
        0xA9 => Some(("i32.trunc_f32_u"@, ImmKind::NoImm)),
        0xAA => Some(("i32.trunc_f64_s"@, ImmKind::NoImm)),
        0xAB => Some(("i32.trunc_f64_u"@, ImmKind::NoImm)),
        0xAC => Some(("i64.extend_i32_s"@, ImmKind::NoImm)),
        0xAD => Some(("i64.extend_i32_u"@, ImmKind::NoImm)),
        0xAE => Some(("i64.trunc_f32_s"@, ImmKind::NoImm)),
        0xAF => Some(("i64.trunc_f32_u"@, ImmKind::NoImm)),
        0xB0 => Some(("i64.trunc_f64_s"@, ImmKind::NoImm)),
        0xB1 => Some(("i64.trunc_f64_u"@, ImmKind::NoImm)),
        0xB2 => Some(("f32.convert_i32_s"@, ImmKind::NoImm)),
        0xB3 => Some(("f32.convert_i32_u"@, ImmKind::NoImm)),
        0xB4 => Some(("f32.convert_i64_s"@, ImmKind::NoImm)),
        0xB5 => Some(("f32.convert_i64_u"@, ImmKind::NoImm)),
        0xB6 => Some(("f32.demote_f64"@, ImmKind::NoImm)),
        0xB7 => Some(("f64.convert_i32_s"@, ImmKind::NoImm)),
        0xB8 => Some(("f64.convert_i32_u"@, ImmKind::NoImm)),
        0xB9 => Some(("f64.convert_i64_s"@, ImmKind::NoImm)),
        0xBA => Some(("f64.convert_i64_u"@, ImmKind::NoImm)),
        0xBB => Some(("f64.promote_f32"@, ImmKind::NoImm)),
        0xBC => Some(("i32.reinterpret_f32"@, ImmKind::NoImm)),
        0xBD => Some(("i64.reinterpret_f64"@, ImmKind::NoImm)),
        0xBE => Some(("f32.reinterpret_i32"@, ImmKind::NoImm)),
        0xBF => Some(("f64.reinterpret_i64"@, ImmKind::NoImm)),
        0xC0 => Some(("i32.extend8_s"@, ImmKind::NoImm)),
        0xC1 => Some(("i32.extend16_s"@, ImmKind::NoImm)),
        0xC2 => Some(("i64.extend8_s"@, ImmKind::NoImm)),
        0xC3 => Some(("i64.extend16_s"@, ImmKind::NoImm)),
        0xC4 => Some(("i64.extend32_s"@, ImmKind::NoImm)),
        0xD0 => Some(("ref.null"@, ImmKind::HeapTypeImm)),
        0xD1 => Some(("ref.is_null"@, ImmKind::NoImm)),
        0xD2 => Some(("ref.func"@, ImmKind::U32)),
        0xD3 => Some(("ref.eq"@, ImmKind::NoImm)),
        0xD4 => Some(("ref.as_non_null"@, ImmKind::NoImm)),
        0xD5 => Some(("br_on_null"@, ImmKind::U32)),
        0xD6 => Some(("br_on_non_null"@, ImmKind::U32)),
        _ => Option::None,
    }
}

/// Looks up a single-byte opcode in the catalog.
pub fn op_info(b: u8) -> (r: Option<(&'static str, ImmKind)>)
    ensures
        (match r {
            Some(p) => op_info_spec(b) == Some::<(Seq<char>, ImmKind)>((p.0@, p.1)),
            Option::None => op_info_spec(b) is None,
        }),
{
    proof {
        reveal(op_info_spec);
    }
    match b {
        0x00 => Some(("unreachable", ImmKind::NoImm)),
        0x01 => Some(("nop", ImmKind::NoImm)),
        0x02 => Some(("block", ImmKind::BlockType)),
        0x03 => Some(("loop", ImmKind::BlockType)),
        0x04 => Some(("if", ImmKind::BlockType)),
        0x05 => Some(("else", ImmKind::NoImm)),
        0x06 => Some(("try", ImmKind::BlockType)),
        0x07 => Some(("catch", ImmKind::U32)),
        0x08 => Some(("throw", ImmKind::U32)),
        0x09 => Some(("rethrow", ImmKind::U32)),
        0x0B => Some(("end", ImmKind::NoImm)),
        0x0C => Some(("br", ImmKind::U32)),
        0x0D => Some(("br_if", ImmKind::U32)),
        0x0E => Some(("br_table", ImmKind::BrTable)),
        0x0F => Some(("return", ImmKind::NoImm)),
        0x10 => Some(("call", ImmKind::U32)),
        0x11 => Some(("call_indirect", ImmKind::U32U32)),
        0x12 => Some(("return_call", ImmKind::U32)),
        0x13 => Some(("return_call_indirect", ImmKind::U32U32)),
        0x14 => Some(("call_ref", ImmKind::U32)),
        0x15 => Some(("return_call_ref", ImmKind::U32)),
        0x18 => Some(("delegate", ImmKind::U32)),
        0x19 => Some(("catch_all", ImmKind::NoImm)),
        0x1A => Some(("drop", ImmKind::NoImm)),
        0x1B => Some(("select", ImmKind::NoImm)),
        0x1C => Some(("select", ImmKind::SelectTypes)),
        0x20 => Some(("local.get", ImmKind::U32)),
        0x21 => Some(("local.set", ImmKind::U32)),
        0x22 => Some(("local.tee", ImmKind::U32)),
        0x23 => Some(("global.get", ImmKind::U32)),
        0x24 => Some(("global.set", ImmKind::U32)),
        0x25 => Some(("table.get", ImmKind::U32)),
        0x26 => Some(("table.set", ImmKind::U32)),
        0x28 => Some(("i32.load", ImmKind::MemArg)),
        0x29 => Some(("i64.load", ImmKind::MemArg)),
        0x2A => Some(("f32.load", ImmKind::MemArg)),
        0x2B => Some(("f64.load", ImmKind::MemArg)),
        0x2C => Some(("i32.load8_s", ImmKind::MemArg)),
        0x2D => Some(("i32.load8_u", ImmKind::MemArg)),
        0x2E => Some(("i32.load16_s", ImmKind::MemArg)),
        0x2F => Some(("i32.load16_u", ImmKind::MemArg)),
        0x30 => Some(("i64.load8_s", ImmKind::MemArg)),
        0x31 => Some(("i64.load8_u", ImmKind::MemArg)),
        0x32 => Some(("i64.load16_s", ImmKind::MemArg)),
        0x33 => Some(("i64.load16_u", ImmKind::MemArg)),
        0x34 => Some(("i64.load32_s", ImmKind::MemArg)),
        0x35 => Some(("i64.load32_u", ImmKind::MemArg)),
        0x36 => Some(("i32.store", ImmKind::MemArg)),
        0x37 => Some(("i64.store", ImmKind::MemArg)),
        0x38 => Some(("f32.store", ImmKind::MemArg)),
        0x39 => Some(("f64.store", ImmKind::MemArg)),
        0x3A => Some(("i32.store8", ImmKind::MemArg)),
        0x3B => Some(("i32.store16", ImmKind::MemArg)),
        0x3C => Some(("i64.store8", ImmKind::MemArg)),
        0x3D => Some(("i64.store16", ImmKind::MemArg)),
        0x3E => Some(("i64.store32", ImmKind::MemArg)),
        0x3F => Some(("memory.size", ImmKind::U32)),
        0x40 => Some(("memory.grow", ImmKind::U32)),
        0x41 => Some(("i32.const", ImmKind::I32)),
        0x42 => Some(("i64.const", ImmKind::I64)),
        0x43 => Some(("f32.const", ImmKind::F32Bytes)),
        0x44 => Some(("f64.const", ImmKind::F64Bytes)),
        0x45 => Some(("i32.eqz", ImmKind::NoImm)),
        0x46 => Some(("i32.eq", ImmKind::NoImm)),
        0x47 => Some(("i32.ne", ImmKind::NoImm)),
        0x48 => Some(("i32.lt_s", ImmKind::NoImm)),
        0x49 => Some(("i32.lt_u", ImmKind::NoImm)),
        0x4A => Some(("i32.gt_s", ImmKind::NoImm)),
        0x4B => Some(("i32.gt_u", ImmKind::NoImm)),
        0x4C => Some(("i32.le_s", ImmKind::NoImm)),
        0x4D => Some(("i32.le_u", ImmKind::NoImm)),
        0x4E => Some(("i32.ge_s", ImmKind::NoImm)),
        0x4F => Some(("i32.ge_u", ImmKind::NoImm)),
        0x50 => Some(("i64.eqz", ImmKind::NoImm)),
        0x51 => Some(("i64.eq", ImmKind::NoImm)),
        0x52 => Some(("i64.ne", ImmKind::NoImm)),
        0x53 => Some(("i64.lt_s", ImmKind::NoImm)),
        0x54 => Some(("i64.lt_u", ImmKind::NoImm)),
        0x55 => Some(("i64.gt_s", ImmKind::NoImm)),
        0x56 => Some(("i64.gt_u", ImmKind::NoImm)),
        0x57 => Some(("i64.le_s", ImmKind::NoImm)),
        0x58 => Some(("i64.le_u", ImmKind::NoImm)),
        0x59 => Some(("i64.ge_s", ImmKind::NoImm)),
        0x5A => Some(("i64.ge_u", ImmKind::NoImm)),
        0x5B => Some(("f32.eq", ImmKind::NoImm)),
        0x5C => Some(("f32.ne", ImmKind::NoImm)),
        0x5D => Some(("f32.lt", ImmKind::NoImm)),
        0x5E => Some(("f32.gt", ImmKind::NoImm)),
        0x5F => Some(("f32.le", ImmKind::NoImm)),
        0x60 => Some(("f32.ge", ImmKind::NoImm)),
        0x61 => Some(("f64.eq", ImmKind::NoImm)),
        0x62 => Some(("f64.ne", ImmKind::NoImm)),
        0x63 => Some(("f64.lt", ImmKind::NoImm)),
        0x64 => Some(("f64.gt", ImmKind::NoImm)),
        0x65 => Some(("f64.le", ImmKind::NoImm)),
        0x66 => Some(("f64.ge", ImmKind::NoImm)),
        0x67 => Some(("i32.clz", ImmKind::NoImm)),
        0x68 => Some(("i32.ctz", ImmKind::NoImm)),
        0x69 => Some(("i32.popcnt", ImmKind::NoImm)),
        0x6A => Some(("i32.add", ImmKind::NoImm)),
        0x6B => Some(("i32.sub", ImmKind::NoImm)),
        0x6C => Some(("i32.mul", ImmKind::NoImm)),
        0x6D => Some(("i32.div_s", ImmKind::NoImm)),
        0x6E => Some(("i32.div_u", ImmKind::NoImm)),
        0x6F => Some(("i32.rem_s", ImmKind::NoImm)),
        0x70 => Some(("i32.rem_u", ImmKind::NoImm)),
        0x71 => Some(("i32.and", ImmKind::NoImm)),
        0x72 => Some(("i32.or", ImmKind::NoImm)),
        0x73 => Some(("i32.xor", ImmKind::NoImm)),
        0x74 => Some(("i32.shl", ImmKind::NoImm)),
        0x75 => Some(("i32.shr_s", ImmKind::NoImm)),
        0x76 => Some(("i32.shr_u", ImmKind::NoImm)),
        0x77 => Some(("i32.rotl", ImmKind::NoImm)),
        0x78 => Some(("i32.rotr", ImmKind::NoImm)),
        0x79 => Some(("i64.clz", ImmKind::NoImm)),
        0x7A => Some(("i64.ctz", ImmKind::NoImm)),
        0x7B => Some(("i64.popcnt", ImmKind::NoImm)),
        0x7C => Some(("i64.add", ImmKind::NoImm)),
        0x7D => Some(("i64.sub", ImmKind::NoImm)),
        0x7E => Some(("i64.mul", ImmKind::NoImm)),
        0x7F => Some(("i64.div_s", ImmKind::NoImm)),
        0x80 => Some(("i64.div_u", ImmKind::NoImm)),
        0x81 => Some(("i64.rem_s", ImmKind::NoImm)),
        0x82 => Some(("i64.rem_u", ImmKind::NoImm)),
        0x83 => Some(("i64.and", ImmKind::NoImm)),
        0x84 => Some(("i64.or", ImmKind::NoImm)),
        0x85 => Some(("i64.xor", ImmKind::NoImm)),
        0x86 => Some(("i64.shl", ImmKind::NoImm)),
        0x87 => Some(("i64.shr_s", ImmKind::NoImm)),
        0x88 => Some(("i64.shr_u", ImmKind::NoImm)),
        0x89 => Some(("i64.rotl", ImmKind::NoImm)),
        0x8A => Some(("i64.rotr", ImmKind::NoImm)),
        0x8B => Some(("f32.abs", ImmKind::NoImm)),
        0x8C => Some(("f32.neg", ImmKind::NoImm)),
        0x8D => Some(("f32.ceil", ImmKind::NoImm)),
        0x8E => Some(("f32.floor", ImmKind::NoImm)),
        0x8F => Some(("f32.trunc", ImmKind::NoImm)),
        0x90 => Some(("f32.nearest", ImmKind::NoImm)),
        0x91 => Some(("f32.sqrt", ImmKind::NoImm)),
        0x92 => Some(("f32.add", ImmKind::NoImm)),
        0x93 => Some(("f32.sub", ImmKind::NoImm)),
        0x94 => Some(("f32.mul", ImmKind::NoImm)),
        0x95 => Some(("f32.div", ImmKind::NoImm)),
        0x96 => Some(("f32.min", ImmKind::NoImm)),
        0x97 => Some(("f32.max", ImmKind::NoImm)),
        0x98 => Some(("f32.copysign", ImmKind::NoImm)),
        0x99 => Some(("f64.abs", ImmKind::NoImm)),
        0x9A => Some(("f64.neg", ImmKind::NoImm)),
        0x9B => Some(("f64.ceil", ImmKind::NoImm)),
        0x9C => Some(("f64.floor", ImmKind::NoImm)),
        0x9D => Some(("f64.trunc", ImmKind::NoImm)),
        0x9E => Some(("f64.nearest", ImmKind::NoImm)),
        0x9F => Some(("f64.sqrt", ImmKind::NoImm)),
        0xA0 => Some(("f64.add", ImmKind::NoImm)),
        0xA1 => Some(("f64.sub", ImmKind::NoImm)),
        0xA2 => Some(("f64.mul", ImmKind::NoImm)),
        0xA3 => Some(("f64.div", ImmKind::NoImm)),
        0xA4 => Some(("f64.min", ImmKind::NoImm)),
        0xA5 => Some(("f64.max", ImmKind::NoImm)),
        0xA6 => Some(("f64.copysign", ImmKind::NoImm)),
        0xA7 => Some(("i32.wrap_i64", ImmKind::NoImm)),
        0xA8 => Some(("i32.trunc_f32_s", ImmKind::NoImm)),
        0xA9 => Some(("i32.trunc_f32_u", ImmKind::NoImm)),
        0xAA => Some(("i32.trunc_f64_s", ImmKind::NoImm)),
        0xAB => Some(("i32.trunc_f64_u", ImmKind::NoImm)),
        0xAC => Some(("i64.extend_i32_s", ImmKind::NoImm)),
        0xAD => Some(("i64.extend_i32_u", ImmKind::NoImm)),
        0xAE => Some(("i64.trunc_f32_s", ImmKind::NoImm)),
        0xAF => Some(("i64.trunc_f32_u", ImmKind::NoImm)),
        0xB0 => Some(("i64.trunc_f64_s", ImmKind::NoImm)),
        0xB1 => Some(("i64.trunc_f64_u", ImmKind::NoImm)),
        0xB2 => Some(("f32.convert_i32_s", ImmKind::NoImm)),
        0xB3 => Some(("f32.convert_i32_u", ImmKind::NoImm)),
        0xB4 => Some(("f32.convert_i64_s", ImmKind::NoImm)),
        0xB5 => Some(("f32.convert_i64_u", ImmKind::NoImm)),
        0xB6 => Some(("f32.demote_f64", ImmKind::NoImm)),
        0xB7 => Some(("f64.convert_i32_s", ImmKind::NoImm)),
        0xB8 => Some(("f64.convert_i32_u", ImmKind::NoImm)),
        0xB9 => Some(("f64.convert_i64_s", ImmKind::NoImm)),
        0xBA => Some(("f64.convert_i64_u", ImmKind::NoImm)),
        0xBB => Some(("f64.promote_f32", ImmKind::NoImm)),
        0xBC => Some(("i32.reinterpret_f32", ImmKind::NoImm)),
        0xBD => Some(("i64.reinterpret_f64", ImmKind::NoImm)),
        0xBE => Some(("f32.reinterpret_i32", ImmKind::NoImm)),
        0xBF => Some(("f64.reinterpret_i64", ImmKind::NoImm)),
        0xC0 => Some(("i32.extend8_s", ImmKind::NoImm)),
        0xC1 => Some(("i32.extend16_s", ImmKind::NoImm)),
        0xC2 => Some(("i64.extend8_s", ImmKind::NoImm)),
        0xC3 => Some(("i64.extend16_s", ImmKind::NoImm)),
        0xC4 => Some(("i64.extend32_s", ImmKind::NoImm)),
        0xD0 => Some(("ref.null", ImmKind::HeapTypeImm)),
        0xD1 => Some(("ref.is_null", ImmKind::NoImm)),
        0xD2 => Some(("ref.func", ImmKind::U32)),
        0xD3 => Some(("ref.eq", ImmKind::NoImm)),
        0xD4 => Some(("ref.as_non_null", ImmKind::NoImm)),
        0xD5 => Some(("br_on_null", ImmKind::U32)),
        0xD6 => Some(("br_on_non_null", ImmKind::U32)),
        _ => Option::None,
    }
}

/// The catalog's row for an opcode in the `0xFC`-prefixed space: its
/// canonical name and the shape of its immediates, or nothing when the
/// sub-opcode is not recognized.
#[verifier::opaque]
pub open spec fn fc_op_info_spec(sub: u32) -> Option<(Seq<char>, ImmKind)> {
    match sub {
        0 => Some(("i32.trunc_sat_f32_s"@, ImmKind::NoImm)),
        1 => Some(("i32.trunc_sat_f32_u"@, ImmKind::NoImm)),
        2 => Some(("i32.trunc_sat_f64_s"@, ImmKind::NoImm)),
        3 => Some(("i32.trunc_sat_f64_u"@, ImmKind::NoImm)),
        4 => Some(("i64.trunc_sat_f32_s"@, ImmKind::NoImm)),
        5 => Some(("i64.trunc_sat_f32_u"@, ImmKind::NoImm)),
        6 => Some(("i64.trunc_sat_f64_s"@, ImmKind::NoImm)),
        7 => Some(("i64.trunc_sat_f64_u"@, ImmKind::NoImm)),
        8 => Some(("memory.init"@, ImmKind::U32U32)),
        9 => Some(("data.drop"@, ImmKind::U32)),
        10 => Some(("memory.copy"@, ImmKind::U32U32)),
        11 => Some(("memory.fill"@, ImmKind::U32)),
        12 => Some(("table.init"@, ImmKind::U32U32)),
        13 => Some(("elem.drop"@, ImmKind::U32)),
        14 => Some(("table.copy"@, ImmKind::U32U32)),
        15 => Some(("table.grow"@, ImmKind::U32)),
        16 => Some(("table.size"@, ImmKind::U32)),
        17 => Some(("table.fill"@, ImmKind::U32)),
        _ => Option::None,
    }
}

/// Looks up a `0xFC`-prefixed sub-opcode in the catalog.
pub fn fc_op_info(sub: u32) -> (r: Option<(&'static str, ImmKind)>)
    ensures
        (match r {
            Some(p) => fc_op_info_spec(sub) == Some::<(Seq<char>, ImmKind)>((p.0@, p.1)),
            Option::None => fc_op_info_spec(sub) is None,
        }),
{
    proof {
        reveal(fc_op_info_spec);
    }
    match sub {
        0 => Some(("i32.trunc_sat_f32_s", ImmKind::NoImm)),
        1 => Some(("i32.trunc_sat_f32_u", ImmKind::NoImm)),
        2 => Some(("i32.trunc_sat_f64_s", ImmKind::NoImm)),
        3 => Some(("i32.trunc_sat_f64_u", ImmKind::NoImm)),
        4 => Some(("i64.trunc_sat_f32_s", ImmKind::NoImm)),
        5 => Some(("i64.trunc_sat_f32_u", ImmKind::NoImm)),
        6 => Some(("i64.trunc_sat_f64_s", ImmKind::NoImm)),
        7 => Some(("i64.trunc_sat_f64_u", ImmKind::NoImm)),
        8 => Some(("memory.init", ImmKind::U32U32)),
        9 => Some(("data.drop", ImmKind::U32)),
        10 => Some(("memory.copy", ImmKind::U32U32)),
        11 => Some(("memory.fill", ImmKind::U32)),
        12 => Some(("table.init", ImmKind::U32U32)),
        13 => Some(("elem.drop", ImmKind::U32)),
        14 => Some(("table.copy", ImmKind::U32U32)),
        15 => Some(("table.grow", ImmKind::U32)),
        16 => Some(("table.size", ImmKind::U32)),
        17 => Some(("table.fill", ImmKind::U32)),
        _ => Option::None,
    }
}


/// The catalog's row for an opcode in the `0xFB`-prefixed space: its
/// canonical name and the shape of its immediates, or nothing when the
/// sub-opcode is not recognized.
#[verifier::opaque]
pub open spec fn gc_op_info_spec(sub: u32) -> Option<(Seq<char>, ImmKind)> {
    match sub {
        0 => Some(("struct.new"@, ImmKind::U32)),
        1 => Some(("struct.new_default"@, ImmKind::U32)),
        2 => Some(("struct.get"@, ImmKind::U32U32)),
        3 => Some(("struct.get_s"@, ImmKind::U32U32)),
        4 => Some(("struct.get_u"@, ImmKind::U32U32)),
        5 => Some(("struct.set"@, ImmKind::U32U32)),
        6 => Some(("array.new"@, ImmKind::U32)),
        7 => Some(("array.new_default"@, ImmKind::U32)),
        8 => Some(("array.new_fixed"@, ImmKind::U32U32)),
        9 => Some(("array.new_data"@, ImmKind::U32U32)),
        10 => Some(("array.new_elem"@, ImmKind::U32U32)),
        11 => Some(("array.get"@, ImmKind::U32)),
        12 => Some(("array.get_s"@, ImmKind::U32)),
        13 => Some(("array.get_u"@, ImmKind::U32)),
        14 => Some(("array.set"@, ImmKind::U32)),
        15 => Some(("array.len"@, ImmKind::NoImm)),
        16 => Some(("array.fill"@, ImmKind::U32)),
        17 => Some(("array.copy"@, ImmKind::U32U32)),
        18 => Some(("array.init_data"@, ImmKind::U32U32)),
        19 => Some(("array.init_elem"@, ImmKind::U32U32)),
        20 => Some(("ref.test"@, ImmKind::HeapTypeImm)),
        21 => Some(("ref.test"@, ImmKind::HeapTypeImm)),
        22 => Some(("ref.cast"@, ImmKind::HeapTypeImm)),
        23 => Some(("ref.cast"@, ImmKind::HeapTypeImm)),
        24 => Some(("br_on_cast"@, ImmKind::BrOnCast)),
        25 => Some(("br_on_cast_fail"@, ImmKind::BrOnCast)),
        26 => Some(("any.convert_extern"@, ImmKind::NoImm)),
        27 => Some(("extern.convert_any"@, ImmKind::NoImm)),
        28 => Some(("ref.i31"@, ImmKind::NoImm)),
        29 => Some(("i31.get_s"@, ImmKind::NoImm)),
        30 => Some(("i31.get_u"@, ImmKind::NoImm)),
        _ => Option::None,
    }
}

/// Looks up a sub-opcode of the `0xFB`-prefixed space in the catalog.
pub fn gc_op_info(sub: u32) -> (r: Option<(&'static str, ImmKind)>)
    ensures
        (match r {
            Some(p) => gc_op_info_spec(sub) == Some::<(Seq<char>, ImmKind)>((p.0@, p.1)),
            Option::None => gc_op_info_spec(sub) is None,
        }),
{
    proof {
        reveal(gc_op_info_spec);
    }
    match sub {
        0 => Some(("struct.new", ImmKind::U32)),
        1 => Some(("struct.new_default", ImmKind::U32)),
        2 => Some(("struct.get", ImmKind::U32U32)),
        3 => Some(("struct.get_s", ImmKind::U32U32)),
        4 => Some(("struct.get_u", ImmKind::U32U32)),
        5 => Some(("struct.set", ImmKind::U32U32)),
        6 => Some(("array.new", ImmKind::U32)),
        7 => Some(("array.new_default", ImmKind::U32)),
        8 => Some(("array.new_fixed", ImmKind::U32U32)),
        9 => Some(("array.new_data", ImmKind::U32U32)),
        10 => Some(("array.new_elem", ImmKind::U32U32)),
        11 => Some(("array.get", ImmKind::U32)),
        12 => Some(("array.get_s", ImmKind::U32)),
        13 => Some(("array.get_u", ImmKind::U32)),
        14 => Some(("array.set", ImmKind::U32)),
        15 => Some(("array.len", ImmKind::NoImm)),
        16 => Some(("array.fill", ImmKind::U32)),
        17 => Some(("array.copy", ImmKind::U32U32)),
        18 => Some(("array.init_data", ImmKind::U32U32)),
        19 => Some(("array.init_elem", ImmKind::U32U32)),
        20 => Some(("ref.test", ImmKind::HeapTypeImm)),
        21 => Some(("ref.test", ImmKind::HeapTypeImm)),
        22 => Some(("ref.cast", ImmKind::HeapTypeImm)),
        23 => Some(("ref.cast", ImmKind::HeapTypeImm)),
        24 => Some(("br_on_cast", ImmKind::BrOnCast)),
        25 => Some(("br_on_cast_fail", ImmKind::BrOnCast)),
        26 => Some(("any.convert_extern", ImmKind::NoImm)),
        27 => Some(("extern.convert_any", ImmKind::NoImm)),
        28 => Some(("ref.i31", ImmKind::NoImm)),
        29 => Some(("i31.get_s", ImmKind::NoImm)),
        30 => Some(("i31.get_u", ImmKind::NoImm)),
        _ => Option::None,
    }
}

/// The catalog's row for an opcode in the `0xFD`-prefixed space: its
/// canonical name and the shape of its immediates, or nothing when the
/// sub-opcode is not recognized.
#[verifier::opaque]
pub open spec fn simd_op_info_spec(sub: u32) -> Option<(Seq<char>, ImmKind)> {
    match sub {
        0 => Some(("v128.load"@, ImmKind::MemArg)),
        1 => Some(("v128.load8x8_s"@, ImmKind::MemArg)),
        2 => Some(("v128.load8x8_u"@, ImmKind::MemArg)),
        3 => Some(("v128.load16x4_s"@, ImmKind::MemArg)),
        4 => Some(("v128.load16x4_u"@, ImmKind::MemArg)),
        5 => Some(("v128.load32x2_s"@, ImmKind::MemArg)),
        6 => Some(("v128.load32x2_u"@, ImmKind::MemArg)),
        7 => Some(("v128.load8_splat"@, ImmKind::MemArg)),
        8 => Some(("v128.load16_splat"@, ImmKind::MemArg)),
        9 => Some(("v128.load32_splat"@, ImmKind::MemArg)),
        10 => Some(("v128.load64_splat"@, ImmKind::MemArg)),
        11 => Some(("v128.store"@, ImmKind::MemArg)),
        12 => Some(("v128.const"@, ImmKind::Bytes16)),
        13 => Some(("i8x16.shuffle"@, ImmKind::Bytes16)),
        14 => Some(("i8x16.swizzle"@, ImmKind::NoImm)),
        15 => Some(("i8x16.splat"@, ImmKind::NoImm)),
        16 => Some(("i16x8.splat"@, ImmKind::NoImm)),
        17 => Some(("i32x4.splat"@, ImmKind::NoImm)),
        18 => Some(("i64x2.splat"@, ImmKind::NoImm)),
        19 => Some(("f32x4.splat"@, ImmKind::NoImm)),
        20 => Some(("f64x2.splat"@, ImmKind::NoImm)),
        21 => Some(("i8x16.extract_lane_s"@, ImmKind::ByteImm)),
        22 => Some(("i8x16.extract_lane_u"@, ImmKind::ByteImm)),
        23 => Some(("i8x16.replace_lane"@, ImmKind::ByteImm)),
        24 => Some(("i16x8.extract_lane_s"@, ImmKind::ByteImm)),
        25 => Some(("i16x8.extract_lane_u"@, ImmKind::ByteImm)),
        26 => Some(("i16x8.replace_lane"@, ImmKind::ByteImm)),
        27 => Some(("i32x4.extract_lane"@, ImmKind::ByteImm)),
        28 => Some(("i32x4.replace_lane"@, ImmKind::ByteImm)),
        29 => Some(("i64x2.extract_lane"@, ImmKind::ByteImm)),
        30 => Some(("i64x2.replace_lane"@, ImmKind::ByteImm)),
        31 => Some(("f32x4.extract_lane"@, ImmKind::ByteImm)),
        32 => Some(("f32x4.replace_lane"@, ImmKind::ByteImm)),
        33 => Some(("f64x2.extract_lane"@, ImmKind::ByteImm)),
        34 => Some(("f64x2.replace_lane"@, ImmKind::ByteImm)),
        35 => Some(("i8x16.eq"@, ImmKind::NoImm)),
        36 => Some(("i8x16.ne"@, ImmKind::NoImm)),
        37 => Some(("i8x16.lt_s"@, ImmKind::NoImm)),
        38 => Some(("i8x16.lt_u"@, ImmKind::NoImm)),
        39 => Some(("i8x16.gt_s"@, ImmKind::NoImm)),
        40 => Some(("i8x16.gt_u"@, ImmKind::NoImm)),
        41 => Some(("i8x16.le_s"@, ImmKind::NoImm)),
        42 => Some(("i8x16.le_u"@, ImmKind::NoImm)),
        43 => Some(("i8x16.ge_s"@, ImmKind::NoImm)),
        44 => Some(("i8x16.ge_u"@, ImmKind::NoImm)),
        45 => Some(("i16x8.eq"@, ImmKind::NoImm)),
        46 => Some(("i16x8.ne"@, ImmKind::NoImm)),
        47 => Some(("i16x8.lt_s"@, ImmKind::NoImm)),
        48 => Some(("i16x8.lt_u"@, ImmKind::NoImm)),
        49 => Some(("i16x8.gt_s"@, ImmKind::NoImm)),
        50 => Some(("i16x8.gt_u"@, ImmKind::NoImm)),
        51 => Some(("i16x8.le_s"@, ImmKind::NoImm)),
        52 => Some(("i16x8.le_u"@, ImmKind::NoImm)),
        53 => Some(("i16x8.ge_s"@, ImmKind::NoImm)),
        54 => Some(("i16x8.ge_u"@, ImmKind::NoImm)),
        55 => Some(("i32x4.eq"@, ImmKind::NoImm)),
        56 => Some(("i32x4.ne"@, ImmKind::NoImm)),
        57 => Some(("i32x4.lt_s"@, ImmKind::NoImm)),
        58 => Some(("i32x4.lt_u"@, ImmKind::NoImm)),
        59 => Some(("i32x4.gt_s"@, ImmKind::NoImm)),
        60 => Some(("i32x4.gt_u"@, ImmKind::NoImm)),
        61 => Some(("i32x4.le_s"@, ImmKind::NoImm)),
        62 => Some(("i32x4.le_u"@, ImmKind::NoImm)),
        63 => Some(("i32x4.ge_s"@, ImmKind::NoImm)),
        64 => Some(("i32x4.ge_u"@, ImmKind::NoImm)),
        65 => Some(("f32x4.eq"@, ImmKind::NoImm)),
        66 => Some(("f32x4.ne"@, ImmKind::NoImm)),
        67 => Some(("f32x4.lt"@, ImmKind::NoImm)),
        68 => Some(("f32x4.gt"@, ImmKind::NoImm)),
        69 => Some(("f32x4.le"@, ImmKind::NoImm)),
        70 => Some(("f32x4.ge"@, ImmKind::NoImm)),
        71 => Some(("f64x2.eq"@, ImmKind::NoImm)),
        72 => Some(("f64x2.ne"@, ImmKind::NoImm)),
        73 => Some(("f64x2.lt"@, ImmKind::NoImm)),
        74 => Some(("f64x2.gt"@, ImmKind::NoImm)),
        75 => Some(("f64x2.le"@, ImmKind::NoImm)),
        76 => Some(("f64x2.ge"@, ImmKind::NoImm)),
        77 => Some(("v128.not"@, ImmKind::NoImm)),
        78 => Some(("v128.and"@, ImmKind::NoImm)),
        79 => Some(("v128.andnot"@, ImmKind::NoImm)),
        80 => Some(("v128.or"@, ImmKind::NoImm)),
        81 => Some(("v128.xor"@, ImmKind::NoImm)),
        82 => Some(("v128.bitselect"@, ImmKind::NoImm)),
        83 => Some(("v128.any_true"@, ImmKind::NoImm)),
        84 => Some(("v128.load8_lane"@, ImmKind::MemArgLane)),
        85 => Some(("v128.load16_lane"@, ImmKind::MemArgLane)),
        86 => Some(("v128.load32_lane"@, ImmKind::MemArgLane)),
        87 => Some(("v128.load64_lane"@, ImmKind::MemArgLane)),
        88 => Some(("v128.store8_lane"@, ImmKind::MemArgLane)),
        89 => Some(("v128.store16_lane"@, ImmKind::MemArgLane)),
        90 => Some(("v128.store32_lane"@, ImmKind::MemArgLane)),
        91 => Some(("v128.store64_lane"@, ImmKind::MemArgLane)),
        92 => Some(("v128.load32_zero"@, ImmKind::MemArg)),
        93 => Some(("v128.load64_zero"@, ImmKind::MemArg)),
        94 => Some(("f32x4.demote_f64x2_zero"@, ImmKind::NoImm)),
        95 => Some(("f64x2.promote_low_f32x4"@, ImmKind::NoImm)),
        96 => Some(("i8x16.abs"@, ImmKind::NoImm)),
        97 => Some(("i8x16.neg"@, ImmKind::NoImm)),
        98 => Some(("i8x16.popcnt"@, ImmKind::NoImm)),
        99 => Some(("i8x16.all_true"@, ImmKind::NoImm)),
        100 => Some(("i8x16.bitmask"@, ImmKind::NoImm)),
        101 => Some(("i8x16.narrow_i16x8_s"@, ImmKind::NoImm)),
        102 => Some(("i8x16.narrow_i16x8_u"@, ImmKind::NoImm)),
        103 => Some(("f32x4.ceil"@, ImmKind::NoImm)),
        104 => Some(("f32x4.floor"@, ImmKind::NoImm)),
        105 => Some(("f32x4.trunc"@, ImmKind::NoImm)),
        106 => Some(("f32x4.nearest"@, ImmKind::NoImm)),
        107 => Some(("i8x16.shl"@, ImmKind::NoImm)),
        108 => Some(("i8x16.shr_s"@, ImmKind::NoImm)),
        109 => Some(("i8x16.shr_u"@, ImmKind::NoImm)),
        110 => Some(("i8x16.add"@, ImmKind::NoImm)),
        111 => Some(("i8x16.add_sat_s"@, ImmKind::NoImm)),
        112 => Some(("i8x16.add_sat_u"@, ImmKind::NoImm)),
        113 => Some(("i8x16.sub"@, ImmKind::NoImm)),
        114 => Some(("i8x16.sub_sat_s"@, ImmKind::NoImm)),
        115 => Some(("i8x16.sub_sat_u"@, ImmKind::NoImm)),
        116 => Some(("f64x2.ceil"@, ImmKind::NoImm)),
        117 => Some(("f64x2.floor"@, ImmKind::NoImm)),
        118 => Some(("i8x16.min_s"@, ImmKind::NoImm)),
        119 => Some(("i8x16.min_u"@, ImmKind::NoImm)),
        120 => Some(("i8x16.max_s"@, ImmKind::NoImm)),
        121 => Some(("i8x16.max_u"@, ImmKind::NoImm)),
        122 => Some(("f64x2.trunc"@, ImmKind::NoImm)),
        123 => Some(("i8x16.avgr_u"@, ImmKind::NoImm)),
        124 => Some(("i16x8.extadd_pairwise_i8x16_s"@, ImmKind::NoImm)),
        125 => Some(("i16x8.extadd_pairwise_i8x16_u"@, ImmKind::NoImm)),
        126 => Some(("i32x4.extadd_pairwise_i16x8_s"@, ImmKind::NoImm)),
        127 => Some(("i32x4.extadd_pairwise_i16x8_u"@, ImmKind::NoImm)),
        128 => Some(("i16x8.abs"@, ImmKind::NoImm)),
        129 => Some(("i16x8.neg"@, ImmKind::NoImm)),
        130 => Some(("i16x8.q15mulr_sat_s"@, ImmKind::NoImm)),
        131 => Some(("i16x8.all_true"@, ImmKind::NoImm)),
        132 => Some(("i16x8.bitmask"@, ImmKind::NoImm)),
        133 => Some(("i16x8.narrow_i32x4_s"@, ImmKind::NoImm)),
        134 => Some(("i16x8.narrow_i32x4_u"@, ImmKind::NoImm)),
        135 => Some(("i16x8.extend_low_i8x16_s"@, ImmKind::NoImm)),
        136 => Some(("i16x8.extend_high_i8x16_s"@, ImmKind::NoImm)),
        137 => Some(("i16x8.extend_low_i8x16_u"@, ImmKind::NoImm)),
        138 => Some(("i16x8.extend_high_i8x16_u"@, ImmKind::NoImm)),
        139 => Some(("i16x8.shl"@, ImmKind::NoImm)),
        140 => Some(("i16x8.shr_s"@, ImmKind::NoImm)),
        141 => Some(("i16x8.shr_u"@, ImmKind::NoImm)),
        142 => Some(("i16x8.add"@, ImmKind::NoImm)),
        143 => Some(("i16x8.add_sat_s"@, ImmKind::NoImm)),
        144 => Some(("i16x8.add_sat_u"@, ImmKind::NoImm)),
        145 => Some(("i16x8.sub"@, ImmKind::NoImm)),
        146 => Some(("i16x8.sub_sat_s"@, ImmKind::NoImm)),
        147 => Some(("i16x8.sub_sat_u"@, ImmKind::NoImm)),
        148 => Some(("f64x2.nearest"@, ImmKind::NoImm)),
        149 => Some(("i16x8.mul"@, ImmKind::NoImm)),
        150 => Some(("i16x8.min_s"@, ImmKind::NoImm)),
        151 => Some(("i16x8.min_u"@, ImmKind::NoImm)),
        152 => Some(("i16x8.max_s"@, ImmKind::NoImm)),
        153 => Some(("i16x8.max_u"@, ImmKind::NoImm)),
        155 => Some(("i16x8.avgr_u"@, ImmKind::NoImm)),
        156 => Some(("i16x8.extmul_low_i8x16_s"@, ImmKind::NoImm)),
        157 => Some(("i16x8.extmul_high_i8x16_s"@, ImmKind::NoImm)),
        158 => Some(("i16x8.extmul_low_i8x16_u"@, ImmKind::NoImm)),
        159 => Some(("i16x8.extmul_high_i8x16_u"@, ImmKind::NoImm)),
        160 => Some(("i32x4.abs"@, ImmKind::NoImm)),
        161 => Some(("i32x4.neg"@, ImmKind::NoImm)),
        163 => Some(("i32x4.all_true"@, ImmKind::NoImm)),
        164 => Some(("i32x4.bitmask"@, ImmKind::NoImm)),
        167 => Some(("i32x4.extend_low_i16x8_s"@, ImmKind::NoImm)),
        168 => Some(("i32x4.extend_high_i16x8_s"@, ImmKind::NoImm)),
        169 => Some(("i32x4.extend_low_i16x8_u"@, ImmKind::NoImm)),
        170 => Some(("i32x4.extend_high_i16x8_u"@, ImmKind::NoImm)),
        171 => Some(("i32x4.shl"@, ImmKind::NoImm)),
        172 => Some(("i32x4.shr_s"@, ImmKind::NoImm)),
        173 => Some(("i32x4.shr_u"@, ImmKind::NoImm)),
        174 => Some(("i32x4.add"@, ImmKind::NoImm)),
        177 => Some(("i32x4.sub"@, ImmKind::NoImm)),
        180 => Some(("i32x4.mul"@, ImmKind::NoImm)),
        181 => Some(("i32x4.min_s"@, ImmKind::NoImm)),
        182 => Some(("i32x4.min_u"@, ImmKind::NoImm)),
        183 => Some(("i32x4.max_s"@, ImmKind::NoImm)),
        184 => Some(("i32x4.max_u"@, ImmKind::NoImm)),
        185 => Some(("i32x4.dot_i16x8_s"@, ImmKind::NoImm)),
        187 => Some(("i32x4.extmul_low_i16x8_s"@, ImmKind::NoImm)),
        188 => Some(("i32x4.extmul_high_i16x8_s"@, ImmKind::NoImm)),
        189 => Some(("i32x4.extmul_low_i16x8_u"@, ImmKind::NoImm)),
        190 => Some(("i32x4.extmul_high_i16x8_u"@, ImmKind::NoImm)),
        191 => Some(("i64x2.abs"@, ImmKind::NoImm)),
        192 => Some(("i64x2.neg"@, ImmKind::NoImm)),
        194 => Some(("i64x2.all_true"@, ImmKind::NoImm)),
        195 => Some(("i64x2.bitmask"@, ImmKind::NoImm)),
        198 => Some(("i64x2.extend_low_i32x4_s"@, ImmKind::NoImm)),
        199 => Some(("i64x2.extend_high_i32x4_s"@, ImmKind::NoImm)),
        200 => Some(("i64x2.extend_low_i32x4_u"@, ImmKind::NoImm)),
        201 => Some(("i64x2.extend_high_i32x4_u"@, ImmKind::NoImm)),
        202 => Some(("i64x2.shl"@, ImmKind::NoImm)),
        203 => Some(("i64x2.shr_s"@, ImmKind::NoImm)),
        204 => Some(("i64x2.shr_u"@, ImmKind::NoImm)),
        205 => Some(("i64x2.add"@, ImmKind::NoImm)),
        209 => Some(("i64x2.sub"@, ImmKind::NoImm)),
        213 => Some(("i64x2.mul"@, ImmKind::NoImm)),
        214 => Some(("i64x2.eq"@, ImmKind::NoImm)),
        215 => Some(("i64x2.ne"@, ImmKind::NoImm)),
        216 => Some(("i64x2.lt_s"@, ImmKind::NoImm)),
        217 => Some(("i64x2.gt_s"@, ImmKind::NoImm)),
        218 => Some(("i64x2.le_s"@, ImmKind::NoImm)),
        219 => Some(("i64x2.ge_s"@, ImmKind::NoImm)),
        220 => Some(("i64x2.extmul_low_i32x4_s"@, ImmKind::NoImm)),
        221 => Some(("i64x2.extmul_high_i32x4_s"@, ImmKind::NoImm)),
        222 => Some(("i64x2.extmul_low_i32x4_u"@, ImmKind::NoImm)),
        223 => Some(("i64x2.extmul_high_i32x4_u"@, ImmKind::NoImm)),
        224 => Some(("f32x4.abs"@, ImmKind::NoImm)),
        225 => Some(("f32x4.neg"@, ImmKind::NoImm)),
        227 => Some(("f32x4.sqrt"@, ImmKind::NoImm)),
        228 => Some(("f32x4.add"@, ImmKind::NoImm)),
        229 => Some(("f32x4.sub"@, ImmKind::NoImm)),
        230 => Some(("f32x4.mul"@, ImmKind::NoImm)),
        231 => Some(("f32x4.div"@, ImmKind::NoImm)),
        232 => Some(("f32x4.min"@, ImmKind::NoImm)),
        233 => Some(("f32x4.max"@, ImmKind::NoImm)),
        234 => Some(("f32x4.pmin"@, ImmKind::NoImm)),
        235 => Some(("f32x4.pmax"@, ImmKind::NoImm)),
        236 => Some(("f64x2.abs"@, ImmKind::NoImm)),
        237 => Some(("f64x2.neg"@, ImmKind::NoImm)),
        239 => Some(("f64x2.sqrt"@, ImmKind::NoImm)),
        240 => Some(("f64x2.add"@, ImmKind::NoImm)),
        241 => Some(("f64x2.sub"@, ImmKind::NoImm)),
        242 => Some(("f64x2.mul"@, ImmKind::NoImm)),
        243 => Some(("f64x2.div"@, ImmKind::NoImm)),
        244 => Some(("f64x2.min"@, ImmKind::NoImm)),
        245 => Some(("f64x2.max"@, ImmKind::NoImm)),
        246 => Some(("f64x2.pmin"@, ImmKind::NoImm)),
        247 => Some(("f64x2.pmax"@, ImmKind::NoImm)),
        248 => Some(("i32x4.trunc_sat_f32x4_s"@, ImmKind::NoImm)),
        249 => Some(("i32x4.trunc_sat_f32x4_u"@, ImmKind::NoImm)),
        250 => Some(("f32x4.convert_i32x4_s"@, ImmKind::NoImm)),
        251 => Some(("f32x4.convert_i32x4_u"@, ImmKind::NoImm)),
        252 => Some(("i32x4.trunc_sat_f64x2_s_zero"@, ImmKind::NoImm)),
        253 => Some(("i32x4.trunc_sat_f64x2_u_zero"@, ImmKind::NoImm)),
        254 => Some(("f64x2.convert_low_i32x4_s"@, ImmKind::NoImm)),
        255 => Some(("f64x2.convert_low_i32x4_u"@, ImmKind::NoImm)),
        256 => Some(("i8x16.relaxed_swizzle"@, ImmKind::NoImm)),
        257 => Some(("i32x4.relaxed_trunc_f32x4_s"@, ImmKind::NoImm)),
        258 => Some(("i32x4.relaxed_trunc_f32x4_u"@, ImmKind::NoImm)),
        259 => Some(("i32x4.relaxed_trunc_f64x2_s_zero"@, ImmKind::NoImm)),
        260 => Some(("i32x4.relaxed_trunc_f64x2_u_zero"@, ImmKind::NoImm)),
        261 => Some(("f32x4.relaxed_madd"@, ImmKind::NoImm)),
        262 => Some(("f32x4.relaxed_nmadd"@, ImmKind::NoImm)),
        263 => Some(("f64x2.relaxed_madd"@, ImmKind::NoImm)),
        264 => Some(("f64x2.relaxed_nmadd"@, ImmKind::NoImm)),
        265 => Some(("i8x16.relaxed_laneselect"@, ImmKind::NoImm)),
        266 => Some(("i16x8.relaxed_laneselect"@, ImmKind::NoImm)),
        267 => Some(("i32x4.relaxed_laneselect"@, ImmKind::NoImm)),
        268 => Some(("i64x2.relaxed_laneselect"@, ImmKind::NoImm)),
        269 => Some(("f32x4.relaxed_min"@, ImmKind::NoImm)),
        270 => Some(("f32x4.relaxed_max"@, ImmKind::NoImm)),
        271 => Some(("f64x2.relaxed_min"@, ImmKind::NoImm)),
        272 => Some(("f64x2.relaxed_max"@, ImmKind::NoImm)),
        273 => Some(("i16x8.relaxed_q15mulr_s"@, ImmKind::NoImm)),
        274 => Some(("i16x8.relaxed_dot_i8x16_i7x16_s"@, ImmKind::NoImm)),
        275 => Some(("i32x4.relaxed_dot_i8x16_i7x16_add_s"@, ImmKind::NoImm)),
        _ => Option::None,
    }
}

/// Looks up a sub-opcode of the `0xFD`-prefixed space in the catalog.
pub fn simd_op_info(sub: u32) -> (r: Option<(&'static str, ImmKind)>)
    ensures
        (match r {
            Some(p) => simd_op_info_spec(sub) == Some::<(Seq<char>, ImmKind)>((p.0@, p.1)),
            Option::None => simd_op_info_spec(sub) is None,
        }),
{
    proof {
        reveal(simd_op_info_spec);
    }
    match sub {
        0 => Some(("v128.load", ImmKind::MemArg)),
        1 => Some(("v128.load8x8_s", ImmKind::MemArg)),
        2 => Some(("v128.load8x8_u", ImmKind::MemArg)),
        3 => Some(("v128.load16x4_s", ImmKind::MemArg)),
        4 => Some(("v128.load16x4_u", ImmKind::MemArg)),
        5 => Some(("v128.load32x2_s", ImmKind::MemArg)),
        6 => Some(("v128.load32x2_u", ImmKind::MemArg)),
        7 => Some(("v128.load8_splat", ImmKind::MemArg)),
        8 => Some(("v128.load16_splat", ImmKind::MemArg)),
        9 => Some(("v128.load32_splat", ImmKind::MemArg)),
        10 => Some(("v128.load64_splat", ImmKind::MemArg)),
        11 => Some(("v128.store", ImmKind::MemArg)),
        12 => Some(("v128.const", ImmKind::Bytes16)),
        13 => Some(("i8x16.shuffle", ImmKind::Bytes16)),
        14 => Some(("i8x16.swizzle", ImmKind::NoImm)),
        15 => Some(("i8x16.splat", ImmKind::NoImm)),
        16 => Some(("i16x8.splat", ImmKind::NoImm)),
        17 => Some(("i32x4.splat", ImmKind::NoImm)),
        18 => Some(("i64x2.splat", ImmKind::NoImm)),
        19 => Some(("f32x4.splat", ImmKind::NoImm)),
        20 => Some(("f64x2.splat", ImmKind::NoImm)),
        21 => Some(("i8x16.extract_lane_s", ImmKind::ByteImm)),
        22 => Some(("i8x16.extract_lane_u", ImmKind::ByteImm)),
        23 => Some(("i8x16.replace_lane", ImmKind::ByteImm)),
        24 => Some(("i16x8.extract_lane_s", ImmKind::ByteImm)),
        25 => Some(("i16x8.extract_lane_u", ImmKind::ByteImm)),
        26 => Some(("i16x8.replace_lane", ImmKind::ByteImm)),
        27 => Some(("i32x4.extract_lane", ImmKind::ByteImm)),
        28 => Some(("i32x4.replace_lane", ImmKind::ByteImm)),
        29 => Some(("i64x2.extract_lane", ImmKind::ByteImm)),
        30 => Some(("i64x2.replace_lane", ImmKind::ByteImm)),
        31 => Some(("f32x4.extract_lane", ImmKind::ByteImm)),
        32 => Some(("f32x4.replace_lane", ImmKind::ByteImm)),
        33 => Some(("f64x2.extract_lane", ImmKind::ByteImm)),
        34 => Some(("f64x2.replace_lane", ImmKind::ByteImm)),
        35 => Some(("i8x16.eq", ImmKind::NoImm)),
        36 => Some(("i8x16.ne", ImmKind::NoImm)),
        37 => Some(("i8x16.lt_s", ImmKind::NoImm)),
        38 => Some(("i8x16.lt_u", ImmKind::NoImm)),
        39 => Some(("i8x16.gt_s", ImmKind::NoImm)),
        40 => Some(("i8x16.gt_u", ImmKind::NoImm)),
        41 => Some(("i8x16.le_s", ImmKind::NoImm)),
        42 => Some(("i8x16.le_u", ImmKind::NoImm)),
        43 => Some(("i8x16.ge_s", ImmKind::NoImm)),
        44 => Some(("i8x16.ge_u", ImmKind::NoImm)),
        45 => Some(("i16x8.eq", ImmKind::NoImm)),
        46 => Some(("i16x8.ne", ImmKind::NoImm)),
        47 => Some(("i16x8.lt_s", ImmKind::NoImm)),
        48 => Some(("i16x8.lt_u", ImmKind::NoImm)),
        49 => Some(("i16x8.gt_s", ImmKind::NoImm)),
        50 => Some(("i16x8.gt_u", ImmKind::NoImm)),
        51 => Some(("i16x8.le_s", ImmKind::NoImm)),
        52 => Some(("i16x8.le_u", ImmKind::NoImm)),
        53 => Some(("i16x8.ge_s", ImmKind::NoImm)),
        54 => Some(("i16x8.ge_u", ImmKind::NoImm)),
        55 => Some(("i32x4.eq", ImmKind::NoImm)),
        56 => Some(("i32x4.ne", ImmKind::NoImm)),
        57 => Some(("i32x4.lt_s", ImmKind::NoImm)),
        58 => Some(("i32x4.lt_u", ImmKind::NoImm)),
        59 => Some(("i32x4.gt_s", ImmKind::NoImm)),
        60 => Some(("i32x4.gt_u", ImmKind::NoImm)),
        61 => Some(("i32x4.le_s", ImmKind::NoImm)),
        62 => Some(("i32x4.le_u", ImmKind::NoImm)),
        63 => Some(("i32x4.ge_s", ImmKind::NoImm)),
        64 => Some(("i32x4.ge_u", ImmKind::NoImm)),
        65 => Some(("f32x4.eq", ImmKind::NoImm)),
        66 => Some(("f32x4.ne", ImmKind::NoImm)),
        67 => Some(("f32x4.lt", ImmKind::NoImm)),
        68 => Some(("f32x4.gt", ImmKind::NoImm)),
        69 => Some(("f32x4.le", ImmKind::NoImm)),
        70 => Some(("f32x4.ge", ImmKind::NoImm)),
        71 => Some(("f64x2.eq", ImmKind::NoImm)),
        72 => Some(("f64x2.ne", ImmKind::NoImm)),
        73 => Some(("f64x2.lt", ImmKind::NoImm)),
        74 => Some(("f64x2.gt", ImmKind::NoImm)),
        75 => Some(("f64x2.le", ImmKind::NoImm)),
        76 => Some(("f64x2.ge", ImmKind::NoImm)),
        77 => Some(("v128.not", ImmKind::NoImm)),
        78 => Some(("v128.and", ImmKind::NoImm)),
        79 => Some(("v128.andnot", ImmKind::NoImm)),
        80 => Some(("v128.or", ImmKind::NoImm)),
        81 => Some(("v128.xor", ImmKind::NoImm)),
        82 => Some(("v128.bitselect", ImmKind::NoImm)),
        83 => Some(("v128.any_true", ImmKind::NoImm)),
        84 => Some(("v128.load8_lane", ImmKind::MemArgLane)),
        85 => Some(("v128.load16_lane", ImmKind::MemArgLane)),
        86 => Some(("v128.load32_lane", ImmKind::MemArgLane)),
        87 => Some(("v128.load64_lane", ImmKind::MemArgLane)),
        88 => Some(("v128.store8_lane", ImmKind::MemArgLane)),
        89 => Some(("v128.store16_lane", ImmKind::MemArgLane)),
        90 => Some(("v128.store32_lane", ImmKind::MemArgLane)),
        91 => Some(("v128.store64_lane", ImmKind::MemArgLane)),
        92 => Some(("v128.load32_zero", ImmKind::MemArg)),
        93 => Some(("v128.load64_zero", ImmKind::MemArg)),
        94 => Some(("f32x4.demote_f64x2_zero", ImmKind::NoImm)),
        95 => Some(("f64x2.promote_low_f32x4", ImmKind::NoImm)),
        96 => Some(("i8x16.abs", ImmKind::NoImm)),
        97 => Some(("i8x16.neg", ImmKind::NoImm)),
        98 => Some(("i8x16.popcnt", ImmKind::NoImm)),
        99 => Some(("i8x16.all_true", ImmKind::NoImm)),
        100 => Some(("i8x16.bitmask", ImmKind::NoImm)),
        101 => Some(("i8x16.narrow_i16x8_s", ImmKind::NoImm)),
        102 => Some(("i8x16.narrow_i16x8_u", ImmKind::NoImm)),
        103 => Some(("f32x4.ceil", ImmKind::NoImm)),
        104 => Some(("f32x4.floor", ImmKind::NoImm)),
        105 => Some(("f32x4.trunc", ImmKind::NoImm)),
        106 => Some(("f32x4.nearest", ImmKind::NoImm)),
        107 => Some(("i8x16.shl", ImmKind::NoImm)),
        108 => Some(("i8x16.shr_s", ImmKind::NoImm)),
        109 => Some(("i8x16.shr_u", ImmKind::NoImm)),
        110 => Some(("i8x16.add", ImmKind::NoImm)),
        111 => Some(("i8x16.add_sat_s", ImmKind::NoImm)),
        112 => Some(("i8x16.add_sat_u", ImmKind::NoImm)),
        113 => Some(("i8x16.sub", ImmKind::NoImm)),
        114 => Some(("i8x16.sub_sat_s", ImmKind::NoImm)),
        115 => Some(("i8x16.sub_sat_u", ImmKind::NoImm)),
        116 => Some(("f64x2.ceil", ImmKind::NoImm)),
        117 => Some(("f64x2.floor", ImmKind::NoImm)),
        118 => Some(("i8x16.min_s", ImmKind::NoImm)),
        119 => Some(("i8x16.min_u", ImmKind::NoImm)),
        120 => Some(("i8x16.max_s", ImmKind::NoImm)),
        121 => Some(("i8x16.max_u", ImmKind::NoImm)),
        122 => Some(("f64x2.trunc", ImmKind::NoImm)),
        123 => Some(("i8x16.avgr_u", ImmKind::NoImm)),
        124 => Some(("i16x8.extadd_pairwise_i8x16_s", ImmKind::NoImm)),
        125 => Some(("i16x8.extadd_pairwise_i8x16_u", ImmKind::NoImm)),
        126 => Some(("i32x4.extadd_pairwise_i16x8_s", ImmKind::NoImm)),
        127 => Some(("i32x4.extadd_pairwise_i16x8_u", ImmKind::NoImm)),
        128 => Some(("i16x8.abs", ImmKind::NoImm)),
        129 => Some(("i16x8.neg", ImmKind::NoImm)),
        130 => Some(("i16x8.q15mulr_sat_s", ImmKind::NoImm)),
        131 => Some(("i16x8.all_true", ImmKind::NoImm)),
        132 => Some(("i16x8.bitmask", ImmKind::NoImm)),
        133 => Some(("i16x8.narrow_i32x4_s", ImmKind::NoImm)),
        134 => Some(("i16x8.narrow_i32x4_u", ImmKind::NoImm)),
        135 => Some(("i16x8.extend_low_i8x16_s", ImmKind::NoImm)),
        136 => Some(("i16x8.extend_high_i8x16_s", ImmKind::NoImm)),
        137 => Some(("i16x8.extend_low_i8x16_u", ImmKind::NoImm)),
        138 => Some(("i16x8.extend_high_i8x16_u", ImmKind::NoImm)),
        139 => Some(("i16x8.shl", ImmKind::NoImm)),
        140 => Some(("i16x8.shr_s", ImmKind::NoImm)),
        141 => Some(("i16x8.shr_u", ImmKind::NoImm)),
        142 => Some(("i16x8.add", ImmKind::NoImm)),
        143 => Some(("i16x8.add_sat_s", ImmKind::NoImm)),
        144 => Some(("i16x8.add_sat_u", ImmKind::NoImm)),
        145 => Some(("i16x8.sub", ImmKind::NoImm)),
        146 => Some(("i16x8.sub_sat_s", ImmKind::NoImm)),
        147 => Some(("i16x8.sub_sat_u", ImmKind::NoImm)),
        148 => Some(("f64x2.nearest", ImmKind::NoImm)),
        149 => Some(("i16x8.mul", ImmKind::NoImm)),
        150 => Some(("i16x8.min_s", ImmKind::NoImm)),
        151 => Some(("i16x8.min_u", ImmKind::NoImm)),
        152 => Some(("i16x8.max_s", ImmKind::NoImm)),
        153 => Some(("i16x8.max_u", ImmKind::NoImm)),
        155 => Some(("i16x8.avgr_u", ImmKind::NoImm)),
        156 => Some(("i16x8.extmul_low_i8x16_s", ImmKind::NoImm)),
        157 => Some(("i16x8.extmul_high_i8x16_s", ImmKind::NoImm)),
        158 => Some(("i16x8.extmul_low_i8x16_u", ImmKind::NoImm)),
        159 => Some(("i16x8.extmul_high_i8x16_u", ImmKind::NoImm)),
        160 => Some(("i32x4.abs", ImmKind::NoImm)),
        161 => Some(("i32x4.neg", ImmKind::NoImm)),
        163 => Some(("i32x4.all_true", ImmKind::NoImm)),
        164 => Some(("i32x4.bitmask", ImmKind::NoImm)),
        167 => Some(("i32x4.extend_low_i16x8_s", ImmKind::NoImm)),
        168 => Some(("i32x4.extend_high_i16x8_s", ImmKind::NoImm)),
        169 => Some(("i32x4.extend_low_i16x8_u", ImmKind::NoImm)),
        170 => Some(("i32x4.extend_high_i16x8_u", ImmKind::NoImm)),
        171 => Some(("i32x4.shl", ImmKind::NoImm)),
        172 => Some(("i32x4.shr_s", ImmKind::NoImm)),
        173 => Some(("i32x4.shr_u", ImmKind::NoImm)),
        174 => Some(("i32x4.add", ImmKind::NoImm)),
        177 => Some(("i32x4.sub", ImmKind::NoImm)),
        180 => Some(("i32x4.mul", ImmKind::NoImm)),
        181 => Some(("i32x4.min_s", ImmKind::NoImm)),
        182 => Some(("i32x4.min_u", ImmKind::NoImm)),
        183 => Some(("i32x4.max_s", ImmKind::NoImm)),
        184 => Some(("i32x4.max_u", ImmKind::NoImm)),
        185 => Some(("i32x4.dot_i16x8_s", ImmKind::NoImm)),
        187 => Some(("i32x4.extmul_low_i16x8_s", ImmKind::NoImm)),
        188 => Some(("i32x4.extmul_high_i16x8_s", ImmKind::NoImm)),
        189 => Some(("i32x4.extmul_low_i16x8_u", ImmKind::NoImm)),
        190 => Some(("i32x4.extmul_high_i16x8_u", ImmKind::NoImm)),
        191 => Some(("i64x2.abs", ImmKind::NoImm)),
        192 => Some(("i64x2.neg", ImmKind::NoImm)),
        194 => Some(("i64x2.all_true", ImmKind::NoImm)),
        195 => Some(("i64x2.bitmask", ImmKind::NoImm)),
        198 => Some(("i64x2.extend_low_i32x4_s", ImmKind::NoImm)),
        199 => Some(("i64x2.extend_high_i32x4_s", ImmKind::NoImm)),
        200 => Some(("i64x2.extend_low_i32x4_u", ImmKind::NoImm)),
        201 => Some(("i64x2.extend_high_i32x4_u", ImmKind::NoImm)),
        202 => Some(("i64x2.shl", ImmKind::NoImm)),
        203 => Some(("i64x2.shr_s", ImmKind::NoImm)),
        204 => Some(("i64x2.shr_u", ImmKind::NoImm)),
        205 => Some(("i64x2.add", ImmKind::NoImm)),
        209 => Some(("i64x2.sub", ImmKind::NoImm)),
        213 => Some(("i64x2.mul", ImmKind::NoImm)),
        214 => Some(("i64x2.eq", ImmKind::NoImm)),
        215 => Some(("i64x2.ne", ImmKind::NoImm)),
        216 => Some(("i64x2.lt_s", ImmKind::NoImm)),
        217 => Some(("i64x2.gt_s", ImmKind::NoImm)),
        218 => Some(("i64x2.le_s", ImmKind::NoImm)),
        219 => Some(("i64x2.ge_s", ImmKind::NoImm)),
        220 => Some(("i64x2.extmul_low_i32x4_s", ImmKind::NoImm)),
        221 => Some(("i64x2.extmul_high_i32x4_s", ImmKind::NoImm)),
        222 => Some(("i64x2.extmul_low_i32x4_u", ImmKind::NoImm)),
        223 => Some(("i64x2.extmul_high_i32x4_u", ImmKind::NoImm)),
        224 => Some(("f32x4.abs", ImmKind::NoImm)),
        225 => Some(("f32x4.neg", ImmKind::NoImm)),
        227 => Some(("f32x4.sqrt", ImmKind::NoImm)),
        228 => Some(("f32x4.add", ImmKind::NoImm)),
        229 => Some(("f32x4.sub", ImmKind::NoImm)),
        230 => Some(("f32x4.mul", ImmKind::NoImm)),
        231 => Some(("f32x4.div", ImmKind::NoImm)),
        232 => Some(("f32x4.min", ImmKind::NoImm)),
        233 => Some(("f32x4.max", ImmKind::NoImm)),
        234 => Some(("f32x4.pmin", ImmKind::NoImm)),
        235 => Some(("f32x4.pmax", ImmKind::NoImm)),
        236 => Some(("f64x2.abs", ImmKind::NoImm)),
        237 => Some(("f64x2.neg", ImmKind::NoImm)),
        239 => Some(("f64x2.sqrt", ImmKind::NoImm)),
        240 => Some(("f64x2.add", ImmKind::NoImm)),
        241 => Some(("f64x2.sub", ImmKind::NoImm)),
        242 => Some(("f64x2.mul", ImmKind::NoImm)),
        243 => Some(("f64x2.div", ImmKind::NoImm)),
        244 => Some(("f64x2.min", ImmKind::NoImm)),
        245 => Some(("f64x2.max", ImmKind::NoImm)),
        246 => Some(("f64x2.pmin", ImmKind::NoImm)),
        247 => Some(("f64x2.pmax", ImmKind::NoImm)),
        248 => Some(("i32x4.trunc_sat_f32x4_s", ImmKind::NoImm)),
        249 => Some(("i32x4.trunc_sat_f32x4_u", ImmKind::NoImm)),
        250 => Some(("f32x4.convert_i32x4_s", ImmKind::NoImm)),
        251 => Some(("f32x4.convert_i32x4_u", ImmKind::NoImm)),
        252 => Some(("i32x4.trunc_sat_f64x2_s_zero", ImmKind::NoImm)),
        253 => Some(("i32x4.trunc_sat_f64x2_u_zero", ImmKind::NoImm)),
        254 => Some(("f64x2.convert_low_i32x4_s", ImmKind::NoImm)),
        255 => Some(("f64x2.convert_low_i32x4_u", ImmKind::NoImm)),
        256 => Some(("i8x16.relaxed_swizzle", ImmKind::NoImm)),
        257 => Some(("i32x4.relaxed_trunc_f32x4_s", ImmKind::NoImm)),
        258 => Some(("i32x4.relaxed_trunc_f32x4_u", ImmKind::NoImm)),
        259 => Some(("i32x4.relaxed_trunc_f64x2_s_zero", ImmKind::NoImm)),
        260 => Some(("i32x4.relaxed_trunc_f64x2_u_zero", ImmKind::NoImm)),
        261 => Some(("f32x4.relaxed_madd", ImmKind::NoImm)),
        262 => Some(("f32x4.relaxed_nmadd", ImmKind::NoImm)),
        263 => Some(("f64x2.relaxed_madd", ImmKind::NoImm)),
        264 => Some(("f64x2.relaxed_nmadd", ImmKind::NoImm)),
        265 => Some(("i8x16.relaxed_laneselect", ImmKind::NoImm)),
        266 => Some(("i16x8.relaxed_laneselect", ImmKind::NoImm)),
        267 => Some(("i32x4.relaxed_laneselect", ImmKind::NoImm)),
        268 => Some(("i64x2.relaxed_laneselect", ImmKind::NoImm)),
        269 => Some(("f32x4.relaxed_min", ImmKind::NoImm)),
        270 => Some(("f32x4.relaxed_max", ImmKind::NoImm)),
        271 => Some(("f64x2.relaxed_min", ImmKind::NoImm)),
        272 => Some(("f64x2.relaxed_max", ImmKind::NoImm)),
        273 => Some(("i16x8.relaxed_q15mulr_s", ImmKind::NoImm)),
        274 => Some(("i16x8.relaxed_dot_i8x16_i7x16_s", ImmKind::NoImm)),
        275 => Some(("i32x4.relaxed_dot_i8x16_i7x16_add_s", ImmKind::NoImm)),
        _ => Option::None,
    }
}

/// The catalog's row for an opcode in the `0xFE`-prefixed space: its
/// canonical name and the shape of its immediates, or nothing when the
/// sub-opcode is not recognized.
#[verifier::opaque]
pub open spec fn atomic_op_info_spec(sub: u32) -> Option<(Seq<char>, ImmKind)> {
    match sub {
        0 => Some(("memory.atomic.notify"@, ImmKind::MemArg)),
        1 => Some(("memory.atomic.wait32"@, ImmKind::MemArg)),
        2 => Some(("memory.atomic.wait64"@, ImmKind::MemArg)),
        3 => Some(("atomic.fence"@, ImmKind::ByteImm)),
        16 => Some(("i32.atomic.load"@, ImmKind::MemArg)),
        17 => Some(("i64.atomic.load"@, ImmKind::MemArg)),
        18 => Some(("i32.atomic.load8_u"@, ImmKind::MemArg)),
        19 => Some(("i32.atomic.load16_u"@, ImmKind::MemArg)),
        20 => Some(("i64.atomic.load8_u"@, ImmKind::MemArg)),
        21 => Some(("i64.atomic.load16_u"@, ImmKind::MemArg)),
        22 => Some(("i64.atomic.load32_u"@, ImmKind::MemArg)),
        23 => Some(("i32.atomic.store"@, ImmKind::MemArg)),
        24 => Some(("i64.atomic.store"@, ImmKind::MemArg)),
        25 => Some(("i32.atomic.store8"@, ImmKind::MemArg)),
        26 => Some(("i32.atomic.store16"@, ImmKind::MemArg)),
        27 => Some(("i64.atomic.store8"@, ImmKind::MemArg)),
        28 => Some(("i64.atomic.store16"@, ImmKind::MemArg)),
        29 => Some(("i64.atomic.store32"@, ImmKind::MemArg)),
        30 => Some(("i32.atomic.rmw.add"@, ImmKind::MemArg)),
        31 => Some(("i64.atomic.rmw.add"@, ImmKind::MemArg)),
        32 => Some(("i32.atomic.rmw8.add_u"@, ImmKind::MemArg)),
        33 => Some(("i32.atomic.rmw16.add_u"@, ImmKind::MemArg)),
        34 => Some(("i64.atomic.rmw8.add_u"@, ImmKind::MemArg)),
        35 => Some(("i64.atomic.rmw16.add_u"@, ImmKind::MemArg)),
        36 => Some(("i64.atomic.rmw32.add_u"@, ImmKind::MemArg)),
        37 => Some(("i32.atomic.rmw.sub"@, ImmKind::MemArg)),
        38 => Some(("i64.atomic.rmw.sub"@, ImmKind::MemArg)),
        39 => Some(("i32.atomic.rmw8.sub_u"@, ImmKind::MemArg)),
        40 => Some(("i32.atomic.rmw16.sub_u"@, ImmKind::MemArg)),
        41 => Some(("i64.atomic.rmw8.sub_u"@, ImmKind::MemArg)),
        42 => Some(("i64.atomic.rmw16.sub_u"@, ImmKind::MemArg)),
        43 => Some(("i64.atomic.rmw32.sub_u"@, ImmKind::MemArg)),
        44 => Some(("i32.atomic.rmw.and"@, ImmKind::MemArg)),
        45 => Some(("i64.atomic.rmw.and"@, ImmKind::MemArg)),
        46 => Some(("i32.atomic.rmw8.and_u"@, ImmKind::MemArg)),
        47 => Some(("i32.atomic.rmw16.and_u"@, ImmKind::MemArg)),
        48 => Some(("i64.atomic.rmw8.and_u"@, ImmKind::MemArg)),
        49 => Some(("i64.atomic.rmw16.and_u"@, ImmKind::MemArg)),
        50 => Some(("i64.atomic.rmw32.and_u"@, ImmKind::MemArg)),
        51 => Some(("i32.atomic.rmw.or"@, ImmKind::MemArg)),
        52 => Some(("i64.atomic.rmw.or"@, ImmKind::MemArg)),
        53 => Some(("i32.atomic.rmw8.or_u"@, ImmKind::MemArg)),
        54 => Some(("i32.atomic.rmw16.or_u"@, ImmKind::MemArg)),
        55 => Some(("i64.atomic.rmw8.or_u"@, ImmKind::MemArg)),
        56 => Some(("i64.atomic.rmw16.or_u"@, ImmKind::MemArg)),
        57 => Some(("i64.atomic.rmw32.or_u"@, ImmKind::MemArg)),
        58 => Some(("i32.atomic.rmw.xor"@, ImmKind::MemArg)),
        59 => Some(("i64.atomic.rmw.xor"@, ImmKind::MemArg)),
        60 => Some(("i32.atomic.rmw8.xor_u"@, ImmKind::MemArg)),
        61 => Some(("i32.atomic.rmw16.xor_u"@, ImmKind::MemArg)),
        62 => Some(("i64.atomic.rmw8.xor_u"@, ImmKind::MemArg)),
        63 => Some(("i64.atomic.rmw16.xor_u"@, ImmKind::MemArg)),
        64 => Some(("i64.atomic.rmw32.xor_u"@, ImmKind::MemArg)),
        65 => Some(("i32.atomic.rmw.xchg"@, ImmKind::MemArg)),
        66 => Some(("i64.atomic.rmw.xchg"@, ImmKind::MemArg)),
        67 => Some(("i32.atomic.rmw8.xchg_u"@, ImmKind::MemArg)),
        68 => Some(("i32.atomic.rmw16.xchg_u"@, ImmKind::MemArg)),
        69 => Some(("i64.atomic.rmw8.xchg_u"@, ImmKind::MemArg)),
        70 => Some(("i64.atomic.rmw16.xchg_u"@, ImmKind::MemArg)),
        71 => Some(("i64.atomic.rmw32.xchg_u"@, ImmKind::MemArg)),
        72 => Some(("i32.atomic.rmw.cmpxchg"@, ImmKind::MemArg)),
        73 => Some(("i64.atomic.rmw.cmpxchg"@, ImmKind::MemArg)),
        74 => Some(("i32.atomic.rmw8.cmpxchg_u"@, ImmKind::MemArg)),
        75 => Some(("i32.atomic.rmw16.cmpxchg_u"@, ImmKind::MemArg)),
        76 => Some(("i64.atomic.rmw8.cmpxchg_u"@, ImmKind::MemArg)),
        77 => Some(("i64.atomic.rmw16.cmpxchg_u"@, ImmKind::MemArg)),
        78 => Some(("i64.atomic.rmw32.cmpxchg_u"@, ImmKind::MemArg)),
        _ => Option::None,
    }
}

/// Looks up a sub-opcode of the `0xFE`-prefixed space in the catalog.
pub fn atomic_op_info(sub: u32) -> (r: Option<(&'static str, ImmKind)>)
    ensures
        (match r {
            Some(p) => atomic_op_info_spec(sub) == Some::<(Seq<char>, ImmKind)>((p.0@, p.1)),
            Option::None => atomic_op_info_spec(sub) is None,
        }),
{
    proof {
        reveal(atomic_op_info_spec);
    }
    match sub {
        0 => Some(("memory.atomic.notify", ImmKind::MemArg)),
        1 => Some(("memory.atomic.wait32", ImmKind::MemArg)),
        2 => Some(("memory.atomic.wait64", ImmKind::MemArg)),
        3 => Some(("atomic.fence", ImmKind::ByteImm)),
        16 => Some(("i32.atomic.load", ImmKind::MemArg)),
        17 => Some(("i64.atomic.load", ImmKind::MemArg)),
        18 => Some(("i32.atomic.load8_u", ImmKind::MemArg)),
        19 => Some(("i32.atomic.load16_u", ImmKind::MemArg)),
        20 => Some(("i64.atomic.load8_u", ImmKind::MemArg)),
        21 => Some(("i64.atomic.load16_u", ImmKind::MemArg)),
        22 => Some(("i64.atomic.load32_u", ImmKind::MemArg)),
        23 => Some(("i32.atomic.store", ImmKind::MemArg)),
        24 => Some(("i64.atomic.store", ImmKind::MemArg)),
        25 => Some(("i32.atomic.store8", ImmKind::MemArg)),
        26 => Some(("i32.atomic.store16", ImmKind::MemArg)),
        27 => Some(("i64.atomic.store8", ImmKind::MemArg)),
        28 => Some(("i64.atomic.store16", ImmKind::MemArg)),
        29 => Some(("i64.atomic.store32", ImmKind::MemArg)),
        30 => Some(("i32.atomic.rmw.add", ImmKind::MemArg)),
        31 => Some(("i64.atomic.rmw.add", ImmKind::MemArg)),
        32 => Some(("i32.atomic.rmw8.add_u", ImmKind::MemArg)),
        33 => Some(("i32.atomic.rmw16.add_u", ImmKind::MemArg)),
        34 => Some(("i64.atomic.rmw8.add_u", ImmKind::MemArg)),
        35 => Some(("i64.atomic.rmw16.add_u", ImmKind::MemArg)),
        36 => Some(("i64.atomic.rmw32.add_u", ImmKind::MemArg)),
        37 => Some(("i32.atomic.rmw.sub", ImmKind::MemArg)),
        38 => Some(("i64.atomic.rmw.sub", ImmKind::MemArg)),
        39 => Some(("i32.atomic.rmw8.sub_u", ImmKind::MemArg)),
        40 => Some(("i32.atomic.rmw16.sub_u", ImmKind::MemArg)),
        41 => Some(("i64.atomic.rmw8.sub_u", ImmKind::MemArg)),
        42 => Some(("i64.atomic.rmw16.sub_u", ImmKind::MemArg)),
        43 => Some(("i64.atomic.rmw32.sub_u", ImmKind::MemArg)),
        44 => Some(("i32.atomic.rmw.and", ImmKind::MemArg)),
        45 => Some(("i64.atomic.rmw.and", ImmKind::MemArg)),
        46 => Some(("i32.atomic.rmw8.and_u", ImmKind::MemArg)),
        47 => Some(("i32.atomic.rmw16.and_u", ImmKind::MemArg)),
        48 => Some(("i64.atomic.rmw8.and_u", ImmKind::MemArg)),
        49 => Some(("i64.atomic.rmw16.and_u", ImmKind::MemArg)),
        50 => Some(("i64.atomic.rmw32.and_u", ImmKind::MemArg)),
        51 => Some(("i32.atomic.rmw.or", ImmKind::MemArg)),
        52 => Some(("i64.atomic.rmw.or", ImmKind::MemArg)),
        53 => Some(("i32.atomic.rmw8.or_u", ImmKind::MemArg)),
        54 => Some(("i32.atomic.rmw16.or_u", ImmKind::MemArg)),
        55 => Some(("i64.atomic.rmw8.or_u", ImmKind::MemArg)),
        56 => Some(("i64.atomic.rmw16.or_u", ImmKind::MemArg)),
        57 => Some(("i64.atomic.rmw32.or_u", ImmKind::MemArg)),
        58 => Some(("i32.atomic.rmw.xor", ImmKind::MemArg)),
        59 => Some(("i64.atomic.rmw.xor", ImmKind::MemArg)),
        60 => Some(("i32.atomic.rmw8.xor_u", ImmKind::MemArg)),
        61 => Some(("i32.atomic.rmw16.xor_u", ImmKind::MemArg)),
        62 => Some(("i64.atomic.rmw8.xor_u", ImmKind::MemArg)),
        63 => Some(("i64.atomic.rmw16.xor_u", ImmKind::MemArg)),
        64 => Some(("i64.atomic.rmw32.xor_u", ImmKind::MemArg)),
        65 => Some(("i32.atomic.rmw.xchg", ImmKind::MemArg)),
        66 => Some(("i64.atomic.rmw.xchg", ImmKind::MemArg)),
        67 => Some(("i32.atomic.rmw8.xchg_u", ImmKind::MemArg)),
        68 => Some(("i32.atomic.rmw16.xchg_u", ImmKind::MemArg)),
        69 => Some(("i64.atomic.rmw8.xchg_u", ImmKind::MemArg)),
        70 => Some(("i64.atomic.rmw16.xchg_u", ImmKind::MemArg)),
        71 => Some(("i64.atomic.rmw32.xchg_u", ImmKind::MemArg)),
        72 => Some(("i32.atomic.rmw.cmpxchg", ImmKind::MemArg)),
        73 => Some(("i64.atomic.rmw.cmpxchg", ImmKind::MemArg)),
        74 => Some(("i32.atomic.rmw8.cmpxchg_u", ImmKind::MemArg)),
        75 => Some(("i32.atomic.rmw16.cmpxchg_u", ImmKind::MemArg)),
        76 => Some(("i64.atomic.rmw8.cmpxchg_u", ImmKind::MemArg)),
        77 => Some(("i64.atomic.rmw16.cmpxchg_u", ImmKind::MemArg)),
        78 => Some(("i64.atomic.rmw32.cmpxchg_u", ImmKind::MemArg)),
        _ => Option::None,
    }
}

/// Whether a byte introduces one of the prefixed opcode spaces.
pub open spec fn is_prefix_byte(b: u8) -> bool {
    b == 0xFB || b == 0xFC || b == 0xFD || b == 0xFE
}

/// The catalog's row for a sub-opcode of the given prefixed space.
pub open spec fn prefix_op_info_spec(prefix: u8, sub: u32) -> Option<(Seq<char>, ImmKind)> {
    if prefix == 0xFB {
        gc_op_info_spec(sub)
    } else if prefix == 0xFC {
        fc_op_info_spec(sub)
    } else if prefix == 0xFD {
        simd_op_info_spec(sub)
    } else {
        atomic_op_info_spec(sub)
    }
}

/// Looks up a sub-opcode of the given prefixed space in the catalog.
pub fn prefix_op_info(prefix: u8, sub: u32) -> (r: Option<(&'static str, ImmKind)>)
    requires
        is_prefix_byte(prefix),
    ensures
        (match r {
            Some(p) => prefix_op_info_spec(prefix, sub) == Some::<(Seq<char>, ImmKind)>((
                p.0@,
                p.1,
            )),
            Option::None => prefix_op_info_spec(prefix, sub) is None,
        }),
{
    if prefix == 0xFB {
        gc_op_info(sub)
    } else if prefix == 0xFC {
        fc_op_info(sub)
    } else if prefix == 0xFD {
        simd_op_info(sub)
    } else {
        atomic_op_info(sub)
    }
}

/// Whether a byte begins a value-type encoding.
pub open spec fn is_val_type_start(b: u8) -> bool {
    0x7B <= b <= 0x7F || is_ref_type_start(b)
}

/// A block type: an empty marker byte, a value type, or a non-negative
/// 33-bit signed index into the type section. Only the position after it is
/// kept.
pub open spec fn sp_block_type(data: Seq<u8>, pos: int) -> SpRead<int> {
    match sp_byte(data, pos) {
        SpRead::Fail { e } => SpRead::Fail { e },
        SpRead::Val { v: b, end: p1 } => if b == 0x40 {
            SpRead::Val { v: p1, end: p1 }
        } else if is_val_type_start(b) {
            match sp_val_type(data, pos) {
                SpRead::Fail { e } => SpRead::Fail { e },
                SpRead::Val { v: _, end } => SpRead::Val { v: end, end },
            }
        } else {
            match sp_var_s(data, pos, 33) {
                SpRead::Fail { e } => SpRead::Fail { e },
                SpRead::Val { v, end } => if v >= 0 {
                    SpRead::Val { v: end, end }
                } else {
                    SpRead::Fail { e: ErrorV { message: msg_bad_block_type(), offset: pos } }
                },
            }
        },
    }
}

/// Skips a block type.
fn skip_block_type(data: &[u8], pos: usize) -> (r: Result<usize, BinaryError>)
    ensures
        (match r {
            Ok(end) => sp_block_type(data@, pos as int) == (SpRead::Val {
                v: end as int,
                end: end as int,
            }) && pos < end <= data@.len(),
            Err(e) => sp_block_type(data@, pos as int) == (SpRead::<int>::Fail { e: e@ }),
        }),
{
    let (b, p1) = match read_u8(data, pos) {
        Ok(p) => p,
        Err(e) => {
            return Err(e);
        },
    };
    if b == 0x40 {
        Ok(p1)
    } else if (0x7B <= b && b <= 0x7F) || (0x6A <= b && b <= 0x73) || b == 0x63 || b == 0x64 {
        match read_val_type(data, pos) {
            Err(e) => Err(e),
            Ok((_, end)) => Ok(end),
        }
    } else {
        match read_var_s(data, pos, 33) {
            Err(e) => Err(e),
            Ok((v, end)) => if v >= 0 {
                Ok(end)
            } else {
                Err(mk_err("malformed block type", pos))
            },
        }
    }
}

/// What skipping an instruction's immediates of the given shape consumes:
/// the position after them, or the error met while reading them.
pub open spec fn sp_skip_imm(data: Seq<u8>, pos: int, k: ImmKind) -> SpRead<int> {
    match k {
        ImmKind::NoImm => SpRead::Val { v: pos, end: pos },
        ImmKind::BlockType => sp_block_type(data, pos),
        ImmKind::U32 => match sp_var_u32(data, pos) {
            SpRead::Fail { e } => SpRead::Fail { e },
            SpRead::Val { v: _, end } => SpRead::Val { v: end, end },
        },
        ImmKind::U32U32 => match sp_var_u32(data, pos) {
            SpRead::Fail { e } => SpRead::Fail { e },
            SpRead::Val { v: _, end: p1 } => match sp_var_u32(data, p1) {
                SpRead::Fail { e } => SpRead::Fail { e },
                SpRead::Val { v: _, end } => SpRead::Val { v: end, end },
            },
        },
        ImmKind::MemArg => match sp_var_u32(data, pos) {
            SpRead::Fail { e } => SpRead::Fail { e },
            SpRead::Val { v: _, end: p1 } => match sp_var_u64(data, p1) {
                SpRead::Fail { e } => SpRead::Fail { e },
                SpRead::Val { v: _, end } => SpRead::Val { v: end, end },
            },
        },
        ImmKind::I32 => match sp_var_s(data, pos, 32) {
            SpRead::Fail { e } => SpRead::Fail { e },
            SpRead::Val { v: _, end } => SpRead::Val { v: end, end },
        },
        ImmKind::I64 => match sp_var_s(data, pos, 64) {
            SpRead::Fail { e } => SpRead::Fail { e },
            SpRead::Val { v: _, end } => SpRead::Val { v: end, end },
        },
        ImmKind::F32Bytes => match sp_bytes(data, pos, 4) {
            SpRead::Fail { e } => SpRead::Fail { e },
            SpRead::Val { v: _, end } => SpRead::Val { v: end, end },
        },
        ImmKind::F64Bytes => match sp_bytes(data, pos, 8) {
            SpRead::Fail { e } => SpRead::Fail { e },
            SpRead::Val { v: _, end } => SpRead::Val { v: end, end },
        },
        ImmKind::BrTable => match sp_var_u32(data, pos) {
            SpRead::Fail { e } => SpRead::Fail { e },
            SpRead::Val { v: n, end: p1 } => match sp_items::<u32>(data, p1, n as nat) {
                SpRead::Fail { e } => SpRead::Fail { e },
                SpRead::Val { v: _, end: p2 } => match sp_var_u32(data, p2) {
                    SpRead::Fail { e } => SpRead::Fail { e },
                    SpRead::Val { v: _, end } => SpRead::Val { v: end, end },
                },
            },
        },
        ImmKind::HeapTypeImm => match sp_heap_type(data, pos) {
            SpRead::Fail { e } => SpRead::Fail { e },
            SpRead::Val { v: _, end } => SpRead::Val { v: end, end },
        },
        ImmKind::SelectTypes => match sp_var_u32(data, pos) {
            SpRead::Fail { e } => SpRead::Fail { e },
            SpRead::Val { v: n, end: p1 } => match sp_items::<ValType>(data, p1, n as nat) {
                SpRead::Fail { e } => SpRead::Fail { e },
                SpRead::Val { v: _, end } => SpRead::Val { v: end, end },
            },
        },
        ImmKind::ByteImm => match sp_byte(data, pos) {
            SpRead::Fail { e } => SpRead::Fail { e },
            SpRead::Val { v: _, end } => SpRead::Val { v: end, end },
        },
        ImmKind::Bytes16 => match sp_bytes(data, pos, 16) {
            SpRead::Fail { e } => SpRead::Fail { e },
            SpRead::Val { v: _, end } => SpRead::Val { v: end, end },
        },
        ImmKind::MemArgLane => match sp_var_u32(data, pos) {
            SpRead::Fail { e } => SpRead::Fail { e },
            SpRead::Val { v: _, end: p1 } => match sp_var_u64(data, p1) {
                SpRead::Fail { e } => SpRead::Fail { e },
                SpRead::Val { v: _, end: p2 } => match sp_byte(data, p2) {
                    SpRead::Fail { e } => SpRead::Fail { e },
                    SpRead::Val { v: _, end } => SpRead::Val { v: end, end },
                },
            },
        },
        ImmKind::BrOnCast => match sp_byte(data, pos) {
            SpRead::Fail { e } => SpRead::Fail { e },
            SpRead::Val { v: _, end: p1 } => match sp_var_u32(data, p1) {
                SpRead::Fail { e } => SpRead::Fail { e },
                SpRead::Val { v: _, end: p2 } => match sp_heap_type(data, p2) {
                    SpRead::Fail { e } => SpRead::Fail { e },
                    SpRead::Val { v: _, end: p3 } => match sp_heap_type(data, p3) {
                        SpRead::Fail { e } => SpRead::Fail { e },
                        SpRead::Val { v: _, end } => SpRead::Val { v: end, end },
                    },
                },
            },
        },
    }
}

/// Skips an instruction's immediates of the given shape.
fn skip_imm(data: &[u8], pos: usize, k: ImmKind) -> (r: Result<usize, BinaryError>)
    requires
        pos <= data@.len(),
    ensures
        (match r {
            Ok(end) => sp_skip_imm(data@, pos as int, k) == (SpRead::Val {
                v: end as int,
                end: end as int,
            }) && pos <= end <= data@.len(),
            Err(e) => sp_skip_imm(data@, pos as int, k) == (SpRead::<int>::Fail { e: e@ }),
        }),
{
    match k {
        ImmKind::NoImm => Ok(pos),
        ImmKind::BlockType => skip_block_type(data, pos),
        ImmKind::U32 => match read_var_u32(data, pos) {
            Err(e) => Err(e),
            Ok((_, end)) => Ok(end),
        },
        ImmKind::U32U32 => {
            let (_, p1) = match read_var_u32(data, pos) {
                Ok(p) => p,
                Err(e) => {
                    return Err(e);
                },
            };
            match read_var_u32(data, p1) {
                Err(e) => Err(e),
                Ok((_, end)) => Ok(end),
            }
        },
        ImmKind::MemArg => {
            let (_, p1) = match read_var_u32(data, pos) {
                Ok(p) => p,
                Err(e) => {
                    return Err(e);
                },
            };
            match read_var_u64(data, p1) {
                Err(e) => Err(e),
                Ok((_, end)) => Ok(end),
            }
        },
        ImmKind::I32 => match read_var_s(data, pos, 32) {
            Err(e) => Err(e),
            Ok((_, end)) => Ok(end),
        },
        ImmKind::I64 => match read_var_s(data, pos, 64) {
            Err(e) => Err(e),
            Ok((_, end)) => Ok(end),
        },
        ImmKind::F32Bytes => match read_bytes(data, pos, 4) {
            Err(e) => Err(e),
            Ok((_, end)) => Ok(end),
        },
        ImmKind::F64Bytes => match read_bytes(data, pos, 8) {
            Err(e) => Err(e),
            Ok((_, end)) => Ok(end),
        },
        ImmKind::BrTable => {
            let (n, p1) = match read_var_u32(data, pos) {
                Ok(p) => p,
                Err(e) => {
                    return Err(e);
                },
            };
            let (_, p2) = match read_items::<u32>(data, p1, n) {
                Ok(p) => p,
                Err(e) => {
                    return Err(e);
                },
            };
            match read_var_u32(data, p2) {
                Err(e) => Err(e),
                Ok((_, end)) => Ok(end),
            }
        },
        ImmKind::HeapTypeImm => match read_heap_type(data, pos) {
            Err(e) => Err(e),
            Ok((_, end)) => Ok(end),
        },
        ImmKind::SelectTypes => {
            let (n, p1) = match read_var_u32(data, pos) {
                Ok(p) => p,
                Err(e) => {
                    return Err(e);
                },
            };
            match read_items::<ValType>(data, p1, n) {
                Err(e) => Err(e),
                Ok((_, end)) => Ok(end),
            }
        },
        ImmKind::ByteImm => match read_u8(data, pos) {
            Err(e) => Err(e),
            Ok((_, end)) => Ok(end),
        },
        ImmKind::Bytes16 => match read_bytes(data, pos, 16) {
            Err(e) => Err(e),
            Ok((_, end)) => Ok(end),
        },
        ImmKind::MemArgLane => {
            let (_, p1) = match read_var_u32(data, pos) {
                Ok(p) => p,
                Err(e) => {
                    return Err(e);
                },
            };
            let (_, p2) = match read_var_u64(data, p1) {
                Ok(p) => p,
                Err(e) => {
                    return Err(e);
                },
            };
            match read_u8(data, p2) {
                Err(e) => Err(e),
                Ok((_, end)) => Ok(end),
            }
        },
        ImmKind::BrOnCast => {
            let (_, p1) = match read_u8(data, pos) {
                Ok(p) => p,
                Err(e) => {
                    return Err(e);
                },
            };
            let (_, p2) = match read_var_u32(data, p1) {
                Ok(p) => p,
                Err(e) => {
                    return Err(e);
                },
            };
            let (_, p3) = match read_heap_type(data, p2) {
                Ok(p) => p,
                Err(e) => {
                    return Err(e);
                },
            };
            match read_heap_type(data, p3) {
                Err(e) => Err(e),
                Ok((_, end)) => Ok(end),
            }
        },
    }
}

/// One instruction: its opcode — a single byte, or the `0xFC` prefix and a
/// sub-opcode — resolved against the catalog, then its immediates. An opcode
/// with no catalog row is an error at the opcode's offset; otherwise the
/// instruction decodes to exactly the catalog's name for it.
#[verifier::opaque]
pub open spec fn sp_op(data: Seq<u8>, pos: int) -> SpRead<OperatorV> {
    match sp_byte(data, pos) {
        SpRead::Fail { e } => SpRead::Fail { e },
        SpRead::Val { v: b, end: p1 } => if is_prefix_byte(b) {
            match sp_var_u32(data, p1) {
                SpRead::Fail { e } => SpRead::Fail { e },
                SpRead::Val { v: sub, end: p2 } => match prefix_op_info_spec(b, sub) {
                    Option::None => SpRead::Fail {
                        e: ErrorV { message: msg_unknown_opcode(), offset: pos },
                    },
                    Some(info) => match sp_skip_imm(data, p2, info.1) {
                        SpRead::Fail { e } => SpRead::Fail { e },
                        SpRead::Val { v: _, end } => SpRead::Val {
                            v: OperatorV { name: info.0 },
                            end,
                        },
                    },
                },
            }
        } else {
            match op_info_spec(b) {
                Option::None => SpRead::Fail {
                    e: ErrorV { message: msg_unknown_opcode(), offset: pos },
                },
                Some(info) => match sp_skip_imm(data, p1, info.1) {
                    SpRead::Fail { e } => SpRead::Fail { e },
                    SpRead::Val { v: _, end } => SpRead::Val { v: OperatorV { name: info.0 }, end },
                },
            }
        },
    }
}

/// Decodes one instruction beginning at `pos`.
pub fn read_op(data: &[u8], pos: usize) -> (r: Result<(Operator, usize), BinaryError>)
    ensures
        read_view(r) == sp_op(data@, pos as int),
        r matches Ok(p) ==> pos < p.1 <= data@.len(),
{
    proof {
        reveal(sp_op);
    }
    let (b, p1) = match read_u8(data, pos) {
        Ok(p) => p,
        Err(e) => {
            return Err(e);
        },
    };
    if b == 0xFB || b == 0xFC || b == 0xFD || b == 0xFE {
        let (sub, p2) = match read_var_u32(data, p1) {
            Ok(p) => p,
            Err(e) => {
                return Err(e);
            },
        };
        match prefix_op_info(b, sub) {
            Option::None => Err(mk_err("unknown opcode", pos)),
            Some((name, imm)) => match skip_imm(data, p2, imm) {
                Err(e) => Err(e),
                Ok(end) => Ok((Operator { name: name.to_owned() }, end)),
            },
        }
    } else {
        match op_info(b) {
            Option::None => Err(mk_err("unknown opcode", pos)),
            Some((name, imm)) => match skip_imm(data, p1, imm) {
                Err(e) => Err(e),
                Ok(end) => Ok((Operator { name: name.to_owned() }, end)),
            },
        }
    }
}

/// A constant expression as one item of a counted run: the initializers of
/// an element segment with expression items.
impl crate::sections::CountedItem for ConstExpr {
    open spec fn sp_item(data: Seq<u8>, pos: int) -> SpRead<ConstExprV> {
        sp_const_expr(data, pos)
    }

    fn read_item(data: &[u8], pos: usize) -> (r: Result<(ConstExpr, usize), BinaryError>) {
        read_const_expr(data, pos)
    }
}

/// The position after a constant expression beginning at `pos`: its
/// instructions are scanned, tracking the nesting depth of blocks, until the
/// `end` opcode that closes the expression. The returned position is just
/// after that final `end` byte.
pub open spec fn sp_expr_end(data: Seq<u8>, pos: int, depth: nat) -> SpRead<int>
    decreases data.len() - pos,
{
    match sp_byte(data, pos) {
        SpRead::Fail { e } => SpRead::Fail { e },
        SpRead::Val { v: b, end: p1 } => if b == 0x0B {
            if depth == 0 {
                SpRead::Val { v: p1, end: p1 }
            } else {
                sp_expr_end(data, p1, (depth - 1) as nat)
            }
        } else {
            let nd: nat = if b == 0x02 || b == 0x03 || b == 0x04 {
                depth + 1
            } else {
                depth
            };
            match sp_op(data, pos) {
                SpRead::Fail { e } => SpRead::Fail { e },
                SpRead::Val { v: _, end } => if pos < end <= data.len() {
                    sp_expr_end(data, end, nd)
                } else {
                    SpRead::Fail { e: ErrorV { message: msg_unknown_opcode(), offset: pos } }
                },
            }
        },
    }
}

/// A constant expression: the raw bytes of its instruction sequence,
/// terminating `end` opcode included.
pub open spec fn sp_const_expr(data: Seq<u8>, pos: int) -> SpRead<ConstExprV> {
    match sp_expr_end(data, pos, 0) {
        SpRead::Fail { e } => SpRead::Fail { e },
        SpRead::Val { v: _, end } => SpRead::Val {
            v: ConstExprV { data: data.subrange(pos, end) },
            end,
        },
    }
}

/// Reads a constant expression, capturing its raw bytes.
pub fn read_const_expr(data: &[u8], pos: usize) -> (r: Result<(ConstExpr, usize), BinaryError>)
    ensures
        read_view(r) == sp_const_expr(data@, pos as int),
        r matches Ok(p) ==> pos < p.1 <= data@.len(),
{
    if pos > data.len() {
        return Err(mk_err("unexpected end of input", pos));
    }
    let mut cur: usize = pos;
    let mut depth: usize = 0;
    loop
        invariant
            pos <= cur <= data@.len(),
            depth <= cur - pos,
            sp_expr_end(data@, pos as int, 0) == sp_expr_end(data@, cur as int, depth as nat),
        decreases data@.len() - cur,
    {
        let (b, p1) = match read_u8(data, cur) {
            Ok(p) => p,
            Err(e) => {
                return Err(e);
            },
        };
        if b == 0x0B {
            if depth == 0 {
                let s = vstd::slice::slice_subrange(data, pos, p1);
                return Ok((ConstExpr { data: vstd::slice::slice_to_vec(s) }, p1));
            }
            depth = depth - 1;
            cur = p1;
        } else {
            let nd: usize = if b == 0x02 || b == 0x03 || b == 0x04 {
                depth + 1
            } else {
                depth
            };
            match read_op(data, cur) {
                Err(e) => {
                    return Err(e);
                },
                Ok((_, end)) => {
                    cur = end;
                    depth = nd;
                },
            }
        }
    }
}

} // verus!

//! Readers for the small type grammar shared by several sections: heap
//! types, reference types, value types, limits, and the fixed-shape types
//! built from them.

use vstd::prelude::*;
use crate::error::{BinaryError, ErrorV, mk_err, msg_bad_heap_type, msg_bad_value_type,
    msg_bad_table_flags, msg_bad_memory_flags, msg_shared_no_max, msg_bad_mutability,
    msg_bad_tag_attribute};
use crate::cursor::{SpRead, read_view, sp_byte, read_u8, sp_var_u32, read_var_u32, sp_var_u64,
    read_var_u64, sp_var_s, read_var_s};
use crate::types::{HeapType, RefType, ValType, TableType, MemoryType, GlobalType, TagKind,
    TagType};

verus! {

/// Whether a byte is the one-byte encoding of an abstract heap type.
pub open spec fn is_abs_heap(b: u8) -> bool {
    0x6A <= b <= 0x73
}

/// The abstract heap type a one-byte encoding stands for.
pub open spec fn abs_heap(b: u8) -> HeapType {
    if b == 0x6A {
        HeapType::Array
    } else if b == 0x6B {
        HeapType::Struct
    } else if b == 0x6C {
        HeapType::I31
    } else if b == 0x6D {
        HeapType::Eq
    } else if b == 0x6E {
        HeapType::Any
    } else if b == 0x6F {
        HeapType::Extern
    } else if b == 0x70 {
        HeapType::Func
    } else if b == 0x71 {
        HeapType::NoneHeap
    } else if b == 0x72 {
        HeapType::NoExtern
    } else {
        HeapType::NoFunc
    }
}

/// A heap type: either the one-byte encoding of an abstract heap type, or a
/// non-negative 33-bit signed index into the type section.
pub open spec fn sp_heap_type(data: Seq<u8>, pos: int) -> SpRead<HeapType> {
    match sp_byte(data, pos) {
        SpRead::Fail { e } => SpRead::Fail { e },
        SpRead::Val { v: b, end: p1 } => if is_abs_heap(b) {
            SpRead::Val { v: abs_heap(b), end: p1 }
        } else {
            match sp_var_s(data, pos, 33) {
                SpRead::Fail { e } => SpRead::Fail { e },
                SpRead::Val { v, end } => if v >= 0 {
                    SpRead::Val { v: HeapType::TypedFunc(v as u32), end }
                } else {
                    SpRead::Fail { e: ErrorV { message: msg_bad_heap_type(), offset: pos } }
                },
            }
        },
    }
}

/// Reads a heap type.
pub fn read_heap_type(data: &[u8], pos: usize) -> (r: Result<(HeapType, usize), BinaryError>)
    ensures
        read_view(r) == sp_heap_type(data@, pos as int),
        r matches Ok(p) ==> pos < p.1 <= data@.len(),
{
    let (b, p1) = match read_u8(data, pos) {
        Ok(p) => p,
        Err(e) => {
            return Err(e);
        },
    };
    if 0x6A <= b && b <= 0x73 {
        let ht = if b == 0x6A {
            HeapType::Array
        } else if b == 0x6B {
            HeapType::Struct
        } else if b == 0x6C {
            HeapType::I31
        } else if b == 0x6D {
            HeapType::Eq
        } else if b == 0x6E {
            HeapType::Any
        } else if b == 0x6F {
            HeapType::Extern
        } else if b == 0x70 {
            HeapType::Func
        } else if b == 0x71 {
            HeapType::NoneHeap
        } else if b == 0x72 {
            HeapType::NoExtern
        } else {
            HeapType::NoFunc
        };
        Ok((ht, p1))
    } else {
        match read_var_s(data, pos, 33) {
            Err(e) => Err(e),
            Ok((v, end)) => if v >= 0 {
                proof {
                    vstd::arithmetic::power2::lemma2_to64();
                    vstd::arithmetic::power2::lemma2_to64_rest();
                }
                Ok((HeapType::TypedFunc(v as u32), end))
            } else {
                Err(mk_err("unknown heap type", pos))
            },
        }
    }
}

/// Whether a byte begins a reference-type encoding: an abstract heap type
/// shorthand, or one of the explicit nullable/non-nullable forms.
pub open spec fn is_ref_type_start(b: u8) -> bool {
    is_abs_heap(b) || b == 0x63 || b == 0x64
}

/// A reference type: a one-byte abstract shorthand is nullable; the explicit
/// forms carry nullability in their leading byte and a heap type after it.
pub open spec fn sp_ref_type(data: Seq<u8>, pos: int) -> SpRead<RefType> {
    match sp_byte(data, pos) {
        SpRead::Fail { e } => SpRead::Fail { e },
        SpRead::Val { v: b, end: p1 } => if is_abs_heap(b) {
            SpRead::Val { v: RefType { heap_type: abs_heap(b), nullable: true }, end: p1 }
        } else if b == 0x63 || b == 0x64 {
            match sp_heap_type(data, p1) {
                SpRead::Fail { e } => SpRead::Fail { e },
                SpRead::Val { v: ht, end } => SpRead::Val {
                    v: RefType { heap_type: ht, nullable: b == 0x63 },
                    end,
                },
            }
        } else {
            SpRead::Fail { e: ErrorV { message: msg_bad_value_type(), offset: pos } }
        },
    }
}

/// Reads a reference type.
pub fn read_ref_type(data: &[u8], pos: usize) -> (r: Result<(RefType, usize), BinaryError>)
    ensures
        read_view(r) == sp_ref_type(data@, pos as int),
        r matches Ok(p) ==> pos < p.1 <= data@.len(),
{
    let (b, p1) = match read_u8(data, pos) {
        Ok(p) => p,
        Err(e) => {
            return Err(e);
        },
    };
    if 0x6A <= b && b <= 0x73 {
        let (ht, end) = match read_heap_type(data, pos) {
            Ok(p) => p,
            Err(e) => {
                return Err(e);
            },
        };
        Ok((RefType { heap_type: ht, nullable: true }, end))
    } else if b == 0x63 || b == 0x64 {
        match read_heap_type(data, p1) {
            Err(e) => Err(e),
            Ok((ht, end)) => Ok((RefType { heap_type: ht, nullable: b == 0x63 }, end)),
        }
    } else {
        Err(mk_err("unknown value type", pos))
    }
}

/// A value type: a numeric or vector type in one byte, or a reference type.
pub open spec fn sp_val_type(data: Seq<u8>, pos: int) -> SpRead<ValType> {
    match sp_byte(data, pos) {
        SpRead::Fail { e } => SpRead::Fail { e },
        SpRead::Val { v: b, end: p1 } => if b == 0x7F {
            SpRead::Val { v: ValType::I32, end: p1 }
        } else if b == 0x7E {
            SpRead::Val { v: ValType::I64, end: p1 }
        } else if b == 0x7D {
            SpRead::Val { v: ValType::F32, end: p1 }
        } else if b == 0x7C {
            SpRead::Val { v: ValType::F64, end: p1 }
        } else if b == 0x7B {
            SpRead::Val { v: ValType::V128, end: p1 }
        } else if is_ref_type_start(b) {
            match sp_ref_type(data, pos) {
                SpRead::Fail { e } => SpRead::Fail { e },
                SpRead::Val { v: rt, end } => SpRead::Val { v: ValType::Ref(rt), end },
            }
        } else {
            SpRead::Fail { e: ErrorV { message: msg_bad_value_type(), offset: pos } }
        },
    }
}

/// Reads a value type.
pub fn read_val_type(data: &[u8], pos: usize) -> (r: Result<(ValType, usize), BinaryError>)
    ensures
        read_view(r) == sp_val_type(data@, pos as int),
        r matches Ok(p) ==> pos < p.1 <= data@.len(),
{
    let (b, p1) = match read_u8(data, pos) {
        Ok(p) => p,
        Err(e) => {
            return Err(e);
        },
    };
    if b == 0x7F {
        Ok((ValType::I32, p1))
    } else if b == 0x7E {
        Ok((ValType::I64, p1))
    } else if b == 0x7D {
        Ok((ValType::F32, p1))
    } else if b == 0x7C {
        Ok((ValType::F64, p1))
    } else if b == 0x7B {
        Ok((ValType::V128, p1))
    } else if (0x6A <= b && b <= 0x73) || b == 0x63 || b == 0x64 {
        match read_ref_type(data, pos) {
            Err(e) => Err(e),
            Ok((rt, end)) => Ok((ValType::Ref(rt), end)),
        }
    } else {
        Err(mk_err("unknown value type", pos))
    }
}

/// A value type as one item of a counted run: the parameter and result types
/// of a function type, or the operand types of a typed `select`.
impl crate::sections::CountedItem for ValType {
    open spec fn sp_item(data: Seq<u8>, pos: int) -> SpRead<ValType> {
        sp_val_type(data, pos)
    }

    fn read_item(data: &[u8], pos: usize) -> (r: Result<(ValType, usize), BinaryError>) {
        read_val_type(data, pos)
    }
}

/// The type of a table: its element reference type, then a flags byte saying
/// whether a maximum follows, then the limits.
pub open spec fn sp_table_type(data: Seq<u8>, pos: int) -> SpRead<TableType> {
    match sp_ref_type(data, pos) {
        SpRead::Fail { e } => SpRead::Fail { e },
        SpRead::Val { v: et, end: p1 } => match sp_byte(data, p1) {
            SpRead::Fail { e } => SpRead::Fail { e },
            SpRead::Val { v: flags, end: p2 } => if flags == 0 {
                match sp_var_u32(data, p2) {
                    SpRead::Fail { e } => SpRead::Fail { e },
                    SpRead::Val { v: initial, end } => SpRead::Val {
                        v: TableType { element_type: et, initial, maximum: Option::None },
                        end,
                    },
                }
            } else if flags == 1 {
                match sp_var_u32(data, p2) {
                    SpRead::Fail { e } => SpRead::Fail { e },
                    SpRead::Val { v: initial, end: p3 } => match sp_var_u32(data, p3) {
                        SpRead::Fail { e } => SpRead::Fail { e },
                        SpRead::Val { v: max, end } => SpRead::Val {
                            v: TableType { element_type: et, initial, maximum: Option::Some(max) },
                            end,
                        },
                    },
                }
            } else {
                SpRead::Fail { e: ErrorV { message: msg_bad_table_flags(), offset: p1 } }
            },
        },
    }
}

/// Reads a table type.
pub fn read_table_type(data: &[u8], pos: usize) -> (r: Result<(TableType, usize), BinaryError>)
    ensures
        read_view(r) == sp_table_type(data@, pos as int),
        r matches Ok(p) ==> pos < p.1 <= data@.len(),
{
    let (et, p1) = match read_ref_type(data, pos) {
        Ok(p) => p,
        Err(e) => {
            return Err(e);
        },
    };
    let (flags, p2) = match read_u8(data, p1) {
        Ok(p) => p,
        Err(e) => {
            return Err(e);
        },
    };
    if flags == 0 {
        match read_var_u32(data, p2) {
            Err(e) => Err(e),
            Ok((initial, end)) => Ok(
                (TableType { element_type: et, initial, maximum: Option::None }, end),
            ),
        }
    } else if flags == 1 {
        let (initial, p3) = match read_var_u32(data, p2) {
            Ok(p) => p,
            Err(e) => {
                return Err(e);
            },
        };
        match read_var_u32(data, p3) {
            Err(e) => Err(e),
            Ok((max, end)) => Ok(
                (TableType { element_type: et, initial, maximum: Option::Some(max) }, end),
            ),
        }
    } else {
        Err(mk_err("malformed table limits flags", p1))
    }
}

/// The type of a memory: one flags byte — bit 0 says a maximum follows,
/// bit 1 marks a shared memory, bit 2 a 64-bit memory — then the limits, as
/// 64-bit integers for a 64-bit memory and 32-bit ones otherwise. A flags
/// byte above 0x07 is malformed, and so is a shared memory without a
/// maximum; both errors point at the flags byte.
pub open spec fn sp_memory_type(data: Seq<u8>, pos: int) -> SpRead<MemoryType> {
    match sp_byte(data, pos) {
        SpRead::Fail { e } => SpRead::Fail { e },
        SpRead::Val { v: flags, end: p1 } => if flags > 7 {
            SpRead::Fail { e: ErrorV { message: msg_bad_memory_flags(), offset: pos } }
        } else if flags & 2 != 0 && flags & 1 == 0 {
            SpRead::Fail { e: ErrorV { message: msg_shared_no_max(), offset: pos } }
        } else {
            let bits: nat = if flags & 4 != 0 {
                64
            } else {
                32
            };
            match sp_limit(data, p1, bits) {
                SpRead::Fail { e } => SpRead::Fail { e },
                SpRead::Val { v: initial, end: p2 } => if flags & 1 != 0 {
                    match sp_limit(data, p2, bits) {
                        SpRead::Fail { e } => SpRead::Fail { e },
                        SpRead::Val { v: max, end } => SpRead::Val {
                            v: MemoryType {
                                memory64: flags & 4 != 0,
                                shared: flags & 2 != 0,
                                initial,
                                maximum: Option::Some(max),
                            },
                            end,
                        },
                    }
                } else {
                    SpRead::Val {
                        v: MemoryType {
                            memory64: flags & 4 != 0,
                            shared: flags & 2 != 0,
                            initial,
                            maximum: Option::None,
                        },
                        end: p2,
                    }
                },
            }
        },
    }
}

/// One limit field of a memory type, read at the given width.
pub open spec fn sp_limit(data: Seq<u8>, pos: int, bits: nat) -> SpRead<u64> {
    if bits == 64 {
        sp_var_u64(data, pos)
    } else {
        match sp_var_u32(data, pos) {
            SpRead::Fail { e } => SpRead::Fail { e },
            SpRead::Val { v, end } => SpRead::Val { v: v as u64, end },
        }
    }
}

/// Reads one limit field of a memory type at the given width.
fn read_limit(data: &[u8], pos: usize, bits: u32) -> (r: Result<(u64, usize), BinaryError>)
    requires
        bits == 32 || bits == 64,
    ensures
        read_view(r) == sp_limit(data@, pos as int, bits as nat),
        r matches Ok(p) ==> pos < p.1 <= data@.len(),
{
    if bits == 64 {
        read_var_u64(data, pos)
    } else {
        match read_var_u32(data, pos) {
            Err(e) => Err(e),
            Ok((v, end)) => Ok((v as u64, end)),
        }
    }
}

/// Reads a memory type.
pub fn read_memory_type(data: &[u8], pos: usize) -> (r: Result<(MemoryType, usize), BinaryError>)
    ensures
        read_view(r) == sp_memory_type(data@, pos as int),
        r matches Ok(p) ==> pos < p.1 <= data@.len(),
{
    let (flags, p1) = match read_u8(data, pos) {
        Ok(p) => p,
        Err(e) => {
            return Err(e);
        },
    };
    if flags > 7 {
        return Err(mk_err("malformed memory limits flags", pos));
    }
    if flags & 2 != 0 && flags & 1 == 0 {
        return Err(mk_err("shared memory must have a maximum", pos));
    }
    let bits: u32 = if flags & 4 != 0 {
        64
    } else {
        32
    };
    let (initial, p2) = match read_limit(data, p1, bits) {
        Ok(p) => p,
        Err(e) => {
            return Err(e);
        },
    };
    if flags & 1 != 0 {
        match read_limit(data, p2, bits) {
            Err(e) => Err(e),
            Ok((max, end)) => Ok(
                (
                    MemoryType {
                        memory64: flags & 4 != 0,
                        shared: flags & 2 != 0,
                        initial,
                        maximum: Option::Some(max),
                    },
                    end,
                ),
            ),
        }
    } else {
        Ok(
            (
                MemoryType {
                    memory64: flags & 4 != 0,
                    shared: flags & 2 != 0,
                    initial,
                    maximum: Option::None,
                },
                p2,
            ),
        )
    }
}

/// The type of a global: its value type, then a mutability byte that must be
/// 0 (immutable) or 1 (mutable).
pub open spec fn sp_global_type(data: Seq<u8>, pos: int) -> SpRead<GlobalType> {
    match sp_val_type(data, pos) {
        SpRead::Fail { e } => SpRead::Fail { e },
        SpRead::Val { v: ct, end: p1 } => match sp_byte(data, p1) {
            SpRead::Fail { e } => SpRead::Fail { e },
            SpRead::Val { v: m, end } => if m == 0 || m == 1 {
                SpRead::Val { v: GlobalType { content_type: ct, mutable: m == 1 }, end }
            } else {
                SpRead::Fail { e: ErrorV { message: msg_bad_mutability(), offset: p1 } }
            },
        },
    }
}

/// Reads a global type.
pub fn read_global_type(data: &[u8], pos: usize) -> (r: Result<(GlobalType, usize), BinaryError>)
    ensures
        read_view(r) == sp_global_type(data@, pos as int),
        r matches Ok(p) ==> pos < p.1 <= data@.len(),
{
    let (ct, p1) = match read_val_type(data, pos) {
        Ok(p) => p,
        Err(e) => {
            return Err(e);
        },
    };
    match read_u8(data, p1) {
        Err(e) => Err(e),
        Ok((m, end)) => if m == 0 || m == 1 {
            Ok((GlobalType { content_type: ct, mutable: m == 1 }, end))
        } else {
            Err(mk_err("malformed mutability flag", p1))
        },
    }
}

/// The type of a tag: an attribute byte that must be 0 (an exception), then
/// the index of the tag's function type.
pub open spec fn sp_tag_type(data: Seq<u8>, pos: int) -> SpRead<TagType> {
    match sp_byte(data, pos) {
        SpRead::Fail { e } => SpRead::Fail { e },
        SpRead::Val { v: a, end: p1 } => if a == 0 {
            match sp_var_u32(data, p1) {
                SpRead::Fail { e } => SpRead::Fail { e },
                SpRead::Val { v: idx, end } => SpRead::Val {
                    v: TagType { kind: TagKind::Exception, func_type_idx: idx },
                    end,
                },
            }
        } else {
            SpRead::Fail { e: ErrorV { message: msg_bad_tag_attribute(), offset: pos } }
        },
    }
}

/// Reads a tag type.
pub fn read_tag_type(data: &[u8], pos: usize) -> (r: Result<(TagType, usize), BinaryError>)
    ensures
        read_view(r) == sp_tag_type(data@, pos as int),
        r matches Ok(p) ==> pos < p.1 <= data@.len(),
{
    let (a, p1) = match read_u8(data, pos) {
        Ok(p) => p,
        Err(e) => {
            return Err(e);
        },
    };
    if a == 0 {
        match read_var_u32(data, p1) {
            Err(e) => Err(e),
            Ok((idx, end)) => Ok((TagType { kind: TagKind::Exception, func_type_idx: idx }, end)),
        }
    } else {
        Err(mk_err("unknown tag attribute", pos))
    }
}

} // verus!

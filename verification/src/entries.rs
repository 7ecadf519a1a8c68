//! One decoder per section entry kind, each an implementation of
//! `SectionEntry` pairing the entry's spec-level decoding with its
//! executable decoder.
//!
//! Unless noted otherwise, an error inside an entry loses the position of
//! the next entry and stops the section. The two established recoverable
//! failures are an import entry whose type tag byte is unrecognized (the
//! next entry begins right after the tag) and a naming entry whose name is
//! not valid UTF-8 (the name's length is known, so the next entry's position
//! is too). Resuming right after an unrecognized tag is a best-effort guess:
//! if the malformed entry carried payload beyond its tag, those bytes are
//! read as the next entry, which then usually fails in turn.

use vstd::prelude::*;
use vstd::utf8::{valid_utf8, decode_utf8};
use crate::error::{BinaryError, ErrorV, mk_err, msg_eof, msg_bad_int, msg_bad_type_form,
    msg_bad_import_tag, msg_bad_table_init, msg_bad_external_kind, msg_bad_element_kind,
    msg_bad_elem_item_kind, msg_bad_data_kind};
use crate::cursor::{SpRead, SpLebRaw, sp_byte, read_u8, sp_var_u32, read_var_u32, sp_leb_u_raw,
    leb_u, LebU, sp_bytes, read_bytes, string_from_utf8};
use crate::grammar::{sp_ref_type, read_ref_type, sp_table_type, read_table_type, sp_memory_type,
    read_memory_type, sp_global_type, read_global_type, sp_tag_type, read_tag_type};
use crate::operators::{sp_const_expr, read_const_expr};
use crate::sections::{SpEntry, EntryOutcome, SectionEntry, sp_items, read_items,
    items_view, sp_entries, sp_entries_fin, SpEntriesFin, parse_entries_at,
    lemma_sp_entries_stopped};
use crate::types::{HeapType, RefType, ValType, FuncType, FuncTypeV, TypeNoOffset, TypeNoOffsetV,
    Type, TypeV, TypeRef, Import, ImportV, Function, FunctionV, MemoryType, Table, TableV, TableInit,
    TableInitV, Global, GlobalV, Export, ExportV, ExternalKind, Element, ElementV, ElementKind,
    ElementKindV, ElementKindActive, ElementKindActiveV, ElementItems, ElementItemsV, ConstExpr,
    ConstExprV, Data, DataV, DataKind, DataKindV, DataKindActive, DataKindActiveV, FunctionBody,
    FunctionBodyV, Range, Naming, NamingV, IndirectNaming, IndirectNamingV, results_view};

verus! {

/// A type-section entry: the function-type form byte, the parameter types
/// and the result types, flattened into one sequence; any other form byte is
/// an error at the entry's first byte. The entry records its own offset.
impl SectionEntry for Type {
    open spec fn sp(data: Seq<u8>, pos: int) -> SpEntry<TypeV> {
        match sp_byte(data, pos) {
            SpRead::Fail { e } => SpEntry::Stop { e },
            SpRead::Val { v: form, end: p1 } => if form != 0x60 {
                SpEntry::Stop { e: ErrorV { message: msg_bad_type_form(), offset: pos } }
            } else {
                match sp_var_u32(data, p1) {
                    SpRead::Fail { e } => SpEntry::Stop { e },
                    SpRead::Val { v: np, end: p2 } => match sp_items::<ValType>(
                        data,
                        p2,
                        np as nat,
                    ) {
                        SpRead::Fail { e } => SpEntry::Stop { e },
                        SpRead::Val { v: params, end: p3 } => match sp_var_u32(data, p3) {
                            SpRead::Fail { e } => SpEntry::Stop { e },
                            SpRead::Val { v: nr, end: p4 } => match sp_items::<ValType>(
                                data,
                                p4,
                                nr as nat,
                            ) {
                                SpRead::Fail { e } => SpEntry::Stop { e },
                                SpRead::Val { v: results, end: p5 } => SpEntry::Val {
                                    v: TypeV {
                                        t: TypeNoOffsetV::Func(
                                            FuncTypeV {
                                                params_results: params + results,
                                                len_params: np as int,
                                            },
                                        ),
                                        offset: pos,
                                    },
                                    end: p5,
                                },
                            },
                        },
                    },
                }
            },
        }
    }

    fn parse_entry(data: &[u8], pos: usize) -> (r: EntryOutcome<Type>) {
        let (form, p1) = match read_u8(data, pos) {
            Ok(p) => p,
            Err(e) => {
                return EntryOutcome::Stop(e);
            },
        };
        if form != 0x60 {
            return EntryOutcome::Stop(mk_err("unknown type form", pos));
        }
        let (np, p2) = match read_var_u32(data, p1) {
            Ok(p) => p,
            Err(e) => {
                return EntryOutcome::Stop(e);
            },
        };
        let (params, p3) = match read_items::<ValType>(data, p2, np) {
            Ok(p) => p,
            Err(e) => {
                return EntryOutcome::Stop(e);
            },
        };
        let (nr, p4) = match read_var_u32(data, p3) {
            Ok(p) => p,
            Err(e) => {
                return EntryOutcome::Stop(e);
            },
        };
        let (mut results, p5) = match read_items::<ValType>(data, p4, nr) {
            Ok(p) => p,
            Err(e) => {
                return EntryOutcome::Stop(e);
            },
        };
        proof {
            assert(items_view(params@) =~= params@);
            assert(items_view(results@) =~= results@);
        }
        let mut pr = params;
        pr.append(&mut results);
        EntryOutcome::Val(
            Type { t: TypeNoOffset::Func(FuncType { params_results: pr, len_params: np as usize }), offset: pos },
            p5,
        )
    }
}

/// An import entry: the module name, the item name, then a type reference
/// discriminated by a tag byte. An unrecognized tag is the one recoverable
/// failure: it is reported at the tag's offset and the next entry begins
/// right after the tag byte. The entry records its own offset.
impl SectionEntry for Import {
    open spec fn sp(data: Seq<u8>, pos: int) -> SpEntry<ImportV> {
        match crate::cursor::sp_string(data, pos) {
            SpRead::Fail { e } => SpEntry::Stop { e },
            SpRead::Val { v: module, end: p1 } => match crate::cursor::sp_string(data, p1) {
                SpRead::Fail { e } => SpEntry::Stop { e },
                SpRead::Val { v: name, end: p2 } => match sp_byte(data, p2) {
                    SpRead::Fail { e } => SpEntry::Stop { e },
                    SpRead::Val { v: tag, end: p3 } => if tag == 0x00 {
                        match sp_var_u32(data, p3) {
                            SpRead::Fail { e } => SpEntry::Stop { e },
                            SpRead::Val { v: idx, end } => SpEntry::Val {
                                v: ImportV { module, name, ty: TypeRef::Func(idx), offset: pos },
                                end,
                            },
                        }
                    } else if tag == 0x01 {
                        match sp_table_type(data, p3) {
                            SpRead::Fail { e } => SpEntry::Stop { e },
                            SpRead::Val { v: tt, end } => SpEntry::Val {
                                v: ImportV { module, name, ty: TypeRef::Table(tt), offset: pos },
                                end,
                            },
                        }
                    } else if tag == 0x02 {
                        match sp_memory_type(data, p3) {
                            SpRead::Fail { e } => SpEntry::Stop { e },
                            SpRead::Val { v: mt, end } => SpEntry::Val {
                                v: ImportV { module, name, ty: TypeRef::Memory(mt), offset: pos },
                                end,
                            },
                        }
                    } else if tag == 0x03 {
                        match sp_global_type(data, p3) {
                            SpRead::Fail { e } => SpEntry::Stop { e },
                            SpRead::Val { v: gt, end } => SpEntry::Val {
                                v: ImportV { module, name, ty: TypeRef::Global(gt), offset: pos },
                                end,
                            },
                        }
                    } else if tag == 0x04 {
                        match sp_tag_type(data, p3) {
                            SpRead::Fail { e } => SpEntry::Stop { e },
                            SpRead::Val { v: tt, end } => SpEntry::Val {
                                v: ImportV { module, name, ty: TypeRef::Tag(tt), offset: pos },
                                end,
                            },
                        }
                    } else {
                        SpEntry::Skip {
                            e: ErrorV { message: msg_bad_import_tag(), offset: p2 },
                            end: p3,
                        }
                    },
                },
            },
        }
    }

    fn parse_entry(data: &[u8], pos: usize) -> (r: EntryOutcome<Import>) {
        let (module, p1) = match crate::cursor::read_string(data, pos) {
            Ok(p) => p,
            Err(e) => {
                return EntryOutcome::Stop(e);
            },
        };
        let (name, p2) = match crate::cursor::read_string(data, p1) {
            Ok(p) => p,
            Err(e) => {
                return EntryOutcome::Stop(e);
            },
        };
        let (tag, p3) = match read_u8(data, p2) {
            Ok(p) => p,
            Err(e) => {
                return EntryOutcome::Stop(e);
            },
        };
        if tag == 0x00 {
            match read_var_u32(data, p3) {
                Err(e) => EntryOutcome::Stop(e),
                Ok((idx, end)) => EntryOutcome::Val(
                    Import { module, name, ty: TypeRef::Func(idx), offset: pos },
                    end,
                ),
            }
        } else if tag == 0x01 {
            match read_table_type(data, p3) {
                Err(e) => EntryOutcome::Stop(e),
                Ok((tt, end)) => EntryOutcome::Val(
                    Import { module, name, ty: TypeRef::Table(tt), offset: pos },
                    end,
                ),
            }
        } else if tag == 0x02 {
            match read_memory_type(data, p3) {
                Err(e) => EntryOutcome::Stop(e),
                Ok((mt, end)) => EntryOutcome::Val(
                    Import { module, name, ty: TypeRef::Memory(mt), offset: pos },
                    end,
                ),
            }
        } else if tag == 0x03 {
            match read_global_type(data, p3) {
                Err(e) => EntryOutcome::Stop(e),
                Ok((gt, end)) => EntryOutcome::Val(
                    Import { module, name, ty: TypeRef::Global(gt), offset: pos },
                    end,
                ),
            }
        } else if tag == 0x04 {
            match read_tag_type(data, p3) {
                Err(e) => EntryOutcome::Stop(e),
                Ok((tt, end)) => EntryOutcome::Val(
                    Import { module, name, ty: TypeRef::Tag(tt), offset: pos },
                    end,
                ),
            }
        } else {
            EntryOutcome::Skip(mk_err("unknown import type tag", p2), p3)
        }
    }
}

/// A function-section entry: one index into the type section. The entry
/// records its own offset.
impl SectionEntry for Function {
    open spec fn sp(data: Seq<u8>, pos: int) -> SpEntry<FunctionV> {
        match sp_var_u32(data, pos) {
            SpRead::Fail { e } => SpEntry::Stop { e },
            SpRead::Val { v: idx, end } => SpEntry::Val {
                v: FunctionV { type_idx: idx, offset: pos },
                end,
            },
        }
    }

    fn parse_entry(data: &[u8], pos: usize) -> (r: EntryOutcome<Function>) {
        match read_var_u32(data, pos) {
            Err(e) => EntryOutcome::Stop(e),
            Ok((idx, end)) => EntryOutcome::Val(Function { type_idx: idx, offset: pos }, end),
        }
    }
}

/// A table-section entry: either a plain table type, initialized to null
/// references, or — introduced by the `0x40 0x00` header — a table type
/// followed by an explicit constant-expression initializer.
impl SectionEntry for Table {
    open spec fn sp(data: Seq<u8>, pos: int) -> SpEntry<TableV> {
        match sp_byte(data, pos) {
            SpRead::Fail { e } => SpEntry::Stop { e },
            SpRead::Val { v: b, end: p1 } => if b == 0x40 {
                match sp_byte(data, p1) {
                    SpRead::Fail { e } => SpEntry::Stop { e },
                    SpRead::Val { v: z, end: p2 } => if z != 0 {
                        SpEntry::Stop { e: ErrorV { message: msg_bad_table_init(), offset: p1 } }
                    } else {
                        match sp_table_type(data, p2) {
                            SpRead::Fail { e } => SpEntry::Stop { e },
                            SpRead::Val { v: ty, end: p3 } => match sp_const_expr(data, p3) {
                                SpRead::Fail { e } => SpEntry::Stop { e },
                                SpRead::Val { v: ce, end } => SpEntry::Val {
                                    v: TableV { ty, init: TableInitV::Expr(ce) },
                                    end,
                                },
                            },
                        }
                    },
                }
            } else {
                match sp_table_type(data, pos) {
                    SpRead::Fail { e } => SpEntry::Stop { e },
                    SpRead::Val { v: ty, end } => SpEntry::Val {
                        v: TableV { ty, init: TableInitV::RefNull },
                        end,
                    },
                }
            },
        }
    }

    fn parse_entry(data: &[u8], pos: usize) -> (r: EntryOutcome<Table>) {
        let (b, p1) = match read_u8(data, pos) {
            Ok(p) => p,
            Err(e) => {
                return EntryOutcome::Stop(e);
            },
        };
        if b == 0x40 {
            let (z, p2) = match read_u8(data, p1) {
                Ok(p) => p,
                Err(e) => {
                    return EntryOutcome::Stop(e);
                },
            };
            if z != 0 {
                return EntryOutcome::Stop(mk_err("malformed table initializer", p1));
            }
            let (ty, p3) = match read_table_type(data, p2) {
                Ok(p) => p,
                Err(e) => {
                    return EntryOutcome::Stop(e);
                },
            };
            match read_const_expr(data, p3) {
                Err(e) => EntryOutcome::Stop(e),
                Ok((ce, end)) => EntryOutcome::Val(Table { ty, init: TableInit::Expr(ce) }, end),
            }
        } else {
            match read_table_type(data, pos) {
                Err(e) => EntryOutcome::Stop(e),
                Ok((ty, end)) => EntryOutcome::Val(Table { ty, init: TableInit::RefNull }, end),
            }
        }
    }
}

/// A memory-section entry: one memory type.
impl SectionEntry for MemoryType {
    open spec fn sp(data: Seq<u8>, pos: int) -> SpEntry<MemoryType> {
        match sp_memory_type(data, pos) {
            SpRead::Fail { e } => SpEntry::Stop { e },
            SpRead::Val { v, end } => SpEntry::Val { v, end },
        }
    }

    fn parse_entry(data: &[u8], pos: usize) -> (r: EntryOutcome<MemoryType>) {
        match read_memory_type(data, pos) {
            Err(e) => EntryOutcome::Stop(e),
            Ok((mt, end)) => EntryOutcome::Val(mt, end),
        }
    }
}

/// A global-section entry: the global's type, then its initializer
/// expression.
impl SectionEntry for Global {
    open spec fn sp(data: Seq<u8>, pos: int) -> SpEntry<GlobalV> {
        match sp_global_type(data, pos) {
            SpRead::Fail { e } => SpEntry::Stop { e },
            SpRead::Val { v: ty, end: p1 } => match sp_const_expr(data, p1) {
                SpRead::Fail { e } => SpEntry::Stop { e },
                SpRead::Val { v: ce, end } => SpEntry::Val {
                    v: GlobalV { ty, init_expr: ce },
                    end,
                },
            },
        }
    }

    fn parse_entry(data: &[u8], pos: usize) -> (r: EntryOutcome<Global>) {
        let (ty, p1) = match read_global_type(data, pos) {
            Ok(p) => p,
            Err(e) => {
                return EntryOutcome::Stop(e);
            },
        };
        match read_const_expr(data, p1) {
            Err(e) => EntryOutcome::Stop(e),
            Ok((ce, end)) => EntryOutcome::Val(Global { ty, init_expr: ce }, end),
        }
    }
}

/// An export-section entry: the export's name, its kind byte, and the index
/// of the exported item; a kind byte with no recognized mapping is an error
/// at the kind byte's offset.
impl SectionEntry for Export {
    open spec fn sp(data: Seq<u8>, pos: int) -> SpEntry<ExportV> {
        match crate::cursor::sp_string(data, pos) {
            SpRead::Fail { e } => SpEntry::Stop { e },
            SpRead::Val { v: name, end: p1 } => match sp_byte(data, p1) {
                SpRead::Fail { e } => SpEntry::Stop { e },
                SpRead::Val { v: k, end: p2 } => if k > 4 {
                    SpEntry::Stop { e: ErrorV { message: msg_bad_external_kind(), offset: p1 } }
                } else {
                    match sp_var_u32(data, p2) {
                        SpRead::Fail { e } => SpEntry::Stop { e },
                        SpRead::Val { v: idx, end } => SpEntry::Val {
                            v: ExportV { name, kind: spec_external_kind(k), index: idx },
                            end,
                        },
                    }
                },
            },
        }
    }

    fn parse_entry(data: &[u8], pos: usize) -> (r: EntryOutcome<Export>) {
        let (name, p1) = match crate::cursor::read_string(data, pos) {
            Ok(p) => p,
            Err(e) => {
                return EntryOutcome::Stop(e);
            },
        };
        let (k, p2) = match read_u8(data, p1) {
            Ok(p) => p,
            Err(e) => {
                return EntryOutcome::Stop(e);
            },
        };
        if k > 4 {
            return EntryOutcome::Stop(mk_err("unknown external kind", p1));
        }
        let kind = if k == 0 {
            ExternalKind::Func
        } else if k == 1 {
            ExternalKind::Table
        } else if k == 2 {
            ExternalKind::Memory
        } else if k == 3 {
            ExternalKind::Global
        } else {
            ExternalKind::Tag
        };
        match read_var_u32(data, p2) {
            Err(e) => EntryOutcome::Stop(e),
            Ok((idx, end)) => EntryOutcome::Val(Export { name, kind, index: idx }, end),
        }
    }
}

/// The external kind a kind byte below 5 stands for.
pub open spec fn spec_external_kind(k: u8) -> ExternalKind {
    if k == 0 {
        ExternalKind::Func
    } else if k == 1 {
        ExternalKind::Table
    } else if k == 2 {
        ExternalKind::Memory
    } else if k == 3 {
        ExternalKind::Global
    } else {
        ExternalKind::Tag
    }
}

/// The default element type of a segment that does not state one: a
/// nullable function reference.
pub open spec fn spec_funcref() -> RefType {
    RefType { heap_type: HeapType::Func, nullable: true }
}

/// The placement of an element segment, after its flags: an active segment
/// reads its table index — explicit only when the flags say so — and its
/// offset expression; a passive or declared segment reads nothing here.
pub open spec fn sp_elem_kind(data: Seq<u8>, pos: int, flags: u32) -> SpRead<ElementKindV> {
    if flags & 1 == 0 {
        if flags == 2 || flags == 6 {
            match sp_var_u32(data, pos) {
                SpRead::Fail { e } => SpRead::Fail { e },
                SpRead::Val { v: tidx, end: p } => match sp_const_expr(data, p) {
                    SpRead::Fail { e } => SpRead::Fail { e },
                    SpRead::Val { v: ce, end } => SpRead::Val {
                        v: ElementKindV::Active(
                            ElementKindActiveV { table_index: tidx, offset_expr: ce },
                        ),
                        end,
                    },
                },
            }
        } else {
            match sp_const_expr(data, pos) {
                SpRead::Fail { e } => SpRead::Fail { e },
                SpRead::Val { v: ce, end } => SpRead::Val {
                    v: ElementKindV::Active(
                        ElementKindActiveV { table_index: 0, offset_expr: ce },
                    ),
                    end,
                },
            }
        }
    } else if flags == 3 || flags == 7 {
        SpRead::Val { v: ElementKindV::Declared, end: pos }
    } else {
        SpRead::Val { v: ElementKindV::Passive, end: pos }
    }
}

fn read_elem_kind(data: &[u8], pos: usize, flags: u32) -> (r: Result<
    (ElementKind, usize),
    BinaryError,
>)
    requires
        flags <= 7,
        pos <= data@.len(),
    ensures
        (match r {
            Ok(p) => sp_elem_kind(data@, pos as int, flags) == (SpRead::Val {
                v: p.0@,
                end: p.1 as int,
            }) && pos <= p.1 <= data@.len(),
            Err(e) => sp_elem_kind(data@, pos as int, flags) == (SpRead::<ElementKindV>::Fail {
                e: e@,
            }),
        }),
{
    if flags & 1 == 0 {
        if flags == 2 || flags == 6 {
            let (tidx, p) = match read_var_u32(data, pos) {
                Ok(p) => p,
                Err(e) => {
                    return Err(e);
                },
            };
            match read_const_expr(data, p) {
                Err(e) => Err(e),
                Ok((ce, end)) => Ok(
                    (
                        ElementKind::Active(
                            ElementKindActive { table_index: tidx, offset_expr: ce },
                        ),
                        end,
                    ),
                ),
            }
        } else {
            match read_const_expr(data, pos) {
                Err(e) => Err(e),
                Ok((ce, end)) => Ok(
                    (
                        ElementKind::Active(ElementKindActive { table_index: 0, offset_expr: ce }),
                        end,
                    ),
                ),
            }
        }
    } else if flags == 3 || flags == 7 {
        Ok((ElementKind::Declared, pos))
    } else {
        Ok((ElementKind::Passive, pos))
    }
}

/// The element type of a segment, after its placement: segments with flags 0
/// or 4 take the default function reference; the other function-index forms
/// read an element-kind byte that must be 0; the expression forms read an
/// explicit reference type.
pub open spec fn sp_elem_type(data: Seq<u8>, pos: int, flags: u32) -> SpRead<RefType> {
    if flags == 0 || flags == 4 {
        SpRead::Val { v: spec_funcref(), end: pos }
    } else if flags < 4 {
        match sp_byte(data, pos) {
            SpRead::Fail { e } => SpRead::Fail { e },
            SpRead::Val { v: b, end } => if b == 0 {
                SpRead::Val { v: spec_funcref(), end }
            } else {
                SpRead::Fail { e: ErrorV { message: msg_bad_elem_item_kind(), offset: pos } }
            },
        }
    } else {
        sp_ref_type(data, pos)
    }
}

fn read_elem_type(data: &[u8], pos: usize, flags: u32) -> (r: Result<(RefType, usize), BinaryError>)
    requires
        flags <= 7,
        pos <= data@.len(),
    ensures
        (match r {
            Ok(p) => sp_elem_type(data@, pos as int, flags) == (SpRead::Val {
                v: p.0,
                end: p.1 as int,
            }) && pos <= p.1 <= data@.len(),
            Err(e) => sp_elem_type(data@, pos as int, flags) == (SpRead::<RefType>::Fail {
                e: e@,
            }),
        }),
{
    if flags == 0 || flags == 4 {
        Ok((RefType { heap_type: HeapType::Func, nullable: true }, pos))
    } else if flags < 4 {
        match read_u8(data, pos) {
            Err(e) => Err(e),
            Ok((b, end)) => if b == 0 {
                Ok((RefType { heap_type: HeapType::Func, nullable: true }, end))
            } else {
                Err(mk_err("unknown element item kind", pos))
            },
        }
    } else {
        read_ref_type(data, pos)
    }
}

/// The items of an element segment: a counted run of function indices, or —
/// when the flags select expression items — of constant expressions.
pub open spec fn sp_elem_items(data: Seq<u8>, pos: int, flags: u32) -> SpRead<ElementItemsV> {
    match sp_var_u32(data, pos) {
        SpRead::Fail { e } => SpRead::Fail { e },
        SpRead::Val { v: cnt, end: p } => if flags & 4 == 0 {
            match sp_items::<u32>(data, p, cnt as nat) {
                SpRead::Fail { e } => SpRead::Fail { e },
                SpRead::Val { v: fs, end } => SpRead::Val {
                    v: ElementItemsV::Functions(fs),
                    end,
                },
            }
        } else {
            match sp_items::<ConstExpr>(data, p, cnt as nat) {
                SpRead::Fail { e } => SpRead::Fail { e },
                SpRead::Val { v: es, end } => SpRead::Val {
                    v: ElementItemsV::Expressions(es),
                    end,
                },
            }
        },
    }
}

fn read_elem_items(data: &[u8], pos: usize, flags: u32) -> (r: Result<
    (ElementItems, usize),
    BinaryError,
>)
    requires
        flags <= 7,
    ensures
        (match r {
            Ok(p) => sp_elem_items(data@, pos as int, flags) == (SpRead::Val {
                v: p.0@,
                end: p.1 as int,
            }) && pos <= p.1 <= data@.len(),
            Err(e) => sp_elem_items(data@, pos as int, flags) == (SpRead::<ElementItemsV>::Fail {
                e: e@,
            }),
        }),
{
    let (cnt, p) = match read_var_u32(data, pos) {
        Ok(p) => p,
        Err(e) => {
            return Err(e);
        },
    };
    if flags & 4 == 0 {
        match read_items::<u32>(data, p, cnt) {
            Err(e) => Err(e),
            Ok((fs, end)) => {
                proof {
                    assert(items_view(fs@) =~= fs@);
                }
                Ok((ElementItems::Functions(fs), end))
            },
        }
    } else {
        match read_items::<ConstExpr>(data, p, cnt) {
            Err(e) => Err(e),
            Ok((es, end)) => {
                proof {
                    assert(items_view(es@) =~= es@.map_values(|e2: ConstExpr| e2@));
                }
                Ok((ElementItems::Expressions(es), end))
            },
        }
    }
}

/// An element-section entry: a kind/flags integer — any value above 7 is an
/// error at the entry's first byte — then, as the flags direct, the
/// segment's placement, its element type, and its items.
impl SectionEntry for Element {
    open spec fn sp(data: Seq<u8>, pos: int) -> SpEntry<ElementV> {
        match sp_var_u32(data, pos) {
            SpRead::Fail { e } => SpEntry::Stop { e },
            SpRead::Val { v: flags, end: p1 } => if flags > 7 {
                SpEntry::Stop { e: ErrorV { message: msg_bad_element_kind(), offset: pos } }
            } else {
                match sp_elem_kind(data, p1, flags) {
                    SpRead::Fail { e } => SpEntry::Stop { e },
                    SpRead::Val { v: kind, end: p2 } => match sp_elem_type(data, p2, flags) {
                        SpRead::Fail { e } => SpEntry::Stop { e },
                        SpRead::Val { v: ty, end: p3 } => match sp_elem_items(data, p3, flags) {
                            SpRead::Fail { e } => SpEntry::Stop { e },
                            SpRead::Val { v: items, end } => SpEntry::Val {
                                v: ElementV { kind, items, ty },
                                end,
                            },
                        },
                    },
                }
            },
        }
    }

    fn parse_entry(data: &[u8], pos: usize) -> (r: EntryOutcome<Element>) {
        let (flags, p1) = match read_var_u32(data, pos) {
            Ok(p) => p,
            Err(e) => {
                return EntryOutcome::Stop(e);
            },
        };
        if flags > 7 {
            return EntryOutcome::Stop(mk_err("malformed element kind flags", pos));
        }
        let (kind, p2) = match read_elem_kind(data, p1, flags) {
            Ok(p) => p,
            Err(e) => {
                return EntryOutcome::Stop(e);
            },
        };
        let (ty, p3) = match read_elem_type(data, p2, flags) {
            Ok(p) => p,
            Err(e) => {
                return EntryOutcome::Stop(e);
            },
        };
        match read_elem_items(data, p3, flags) {
            Err(e) => EntryOutcome::Stop(e),
            Ok((items, end)) => EntryOutcome::Val(Element { kind, items, ty }, end),
        }
    }
}

/// The raw contents of a data segment: a byte count, then that many bytes.
pub open spec fn sp_data_bytes(data: Seq<u8>, pos: int) -> SpRead<Seq<u8>> {
    match sp_var_u32(data, pos) {
        SpRead::Fail { e } => SpRead::Fail { e },
        SpRead::Val { v: n, end: p } => sp_bytes(data, p, n as int),
    }
}

fn read_data_bytes(data: &[u8], pos: usize) -> (r: Result<(Vec<u8>, usize), BinaryError>)
    ensures
        (match r {
            Ok(p) => sp_data_bytes(data@, pos as int) == (SpRead::Val {
                v: p.0@,
                end: p.1 as int,
            }) && pos <= p.1 <= data@.len(),
            Err(e) => sp_data_bytes(data@, pos as int) == (SpRead::<Seq<u8>>::Fail { e: e@ }),
        }),
{
    let (n, p) = match read_var_u32(data, pos) {
        Ok(p) => p,
        Err(e) => {
            return Err(e);
        },
    };
    if (n as u64) <= (data.len() - p) as u64 {
        read_bytes(data, p, n as usize)
    } else {
        Err(mk_err("unexpected end of input", p))
    }
}

/// A data-section entry: a kind/flags integer — 0 is an active segment on
/// memory 0, 1 a passive segment, 2 an active segment with an explicit
/// memory index, anything else an error at the entry's first byte — then
/// the offset expression where the segment is active, then the raw bytes.
impl SectionEntry for Data {
    open spec fn sp(data: Seq<u8>, pos: int) -> SpEntry<DataV> {
        match sp_var_u32(data, pos) {
            SpRead::Fail { e } => SpEntry::Stop { e },
            SpRead::Val { v: flags, end: p1 } => if flags == 0 {
                match sp_const_expr(data, p1) {
                    SpRead::Fail { e } => SpEntry::Stop { e },
                    SpRead::Val { v: ce, end: p2 } => match sp_data_bytes(data, p2) {
                        SpRead::Fail { e } => SpEntry::Stop { e },
                        SpRead::Val { v: bs, end } => SpEntry::Val {
                            v: DataV {
                                kind: DataKindV::Active(
                                    DataKindActiveV { memory_index: 0, offset_expr: ce },
                                ),
                                data: bs,
                            },
                            end,
                        },
                    },
                }
            } else if flags == 1 {
                match sp_data_bytes(data, p1) {
                    SpRead::Fail { e } => SpEntry::Stop { e },
                    SpRead::Val { v: bs, end } => SpEntry::Val {
                        v: DataV { kind: DataKindV::Passive, data: bs },
                        end,
                    },
                }
            } else if flags == 2 {
                match sp_var_u32(data, p1) {
                    SpRead::Fail { e } => SpEntry::Stop { e },
                    SpRead::Val { v: mi, end: p2 } => match sp_const_expr(data, p2) {
                        SpRead::Fail { e } => SpEntry::Stop { e },
                        SpRead::Val { v: ce, end: p3 } => match sp_data_bytes(data, p3) {
                            SpRead::Fail { e } => SpEntry::Stop { e },
                            SpRead::Val { v: bs, end } => SpEntry::Val {
                                v: DataV {
                                    kind: DataKindV::Active(
                                        DataKindActiveV { memory_index: mi, offset_expr: ce },
                                    ),
                                    data: bs,
                                },
                                end,
                            },
                        },
                    },
                }
            } else {
                SpEntry::Stop { e: ErrorV { message: msg_bad_data_kind(), offset: pos } }
            },
        }
    }

    fn parse_entry(data: &[u8], pos: usize) -> (r: EntryOutcome<Data>) {
        let (flags, p1) = match read_var_u32(data, pos) {
            Ok(p) => p,
            Err(e) => {
                return EntryOutcome::Stop(e);
            },
        };
        if flags == 0 {
            let (ce, p2) = match read_const_expr(data, p1) {
                Ok(p) => p,
                Err(e) => {
                    return EntryOutcome::Stop(e);
                },
            };
            match read_data_bytes(data, p2) {
                Err(e) => EntryOutcome::Stop(e),
                Ok((bs, end)) => EntryOutcome::Val(
                    Data {
                        kind: DataKind::Active(
                            DataKindActive { memory_index: 0, offset_expr: ce },
                        ),
                        data: bs,
                    },
                    end,
                ),
            }
        } else if flags == 1 {
            match read_data_bytes(data, p1) {
                Err(e) => EntryOutcome::Stop(e),
                Ok((bs, end)) => EntryOutcome::Val(Data { kind: DataKind::Passive, data: bs }, end),
            }
        } else if flags == 2 {
            let (mi, p2) = match read_var_u32(data, p1) {
                Ok(p) => p,
                Err(e) => {
                    return EntryOutcome::Stop(e);
                },
            };
            let (ce, p3) = match read_const_expr(data, p2) {
                Ok(p) => p,
                Err(e) => {
                    return EntryOutcome::Stop(e);
                },
            };
            match read_data_bytes(data, p3) {
                Err(e) => EntryOutcome::Stop(e),
                Ok((bs, end)) => EntryOutcome::Val(
                    Data {
                        kind: DataKind::Active(
                            DataKindActive { memory_index: mi, offset_expr: ce },
                        ),
                        data: bs,
                    },
                    end,
                ),
            }
        } else {
            EntryOutcome::Stop(mk_err("malformed data kind flags", pos))
        }
    }
}

/// A code-section entry: the body's declared size, then that many bytes,
/// kept as a byte range. The body's operator stream is decoded on demand by
/// `parse_function_body` and starts out empty.
impl SectionEntry for FunctionBody {
    open spec fn sp(data: Seq<u8>, pos: int) -> SpEntry<FunctionBodyV> {
        match sp_var_u32(data, pos) {
            SpRead::Fail { e } => SpEntry::Stop { e },
            SpRead::Val { v: size, end: p1 } => if p1 + size > data.len() {
                SpEntry::Stop { e: ErrorV { message: msg_eof(), offset: p1 } }
            } else {
                SpEntry::Val {
                    v: FunctionBodyV {
                        range: Range { start: p1 as usize, end: (p1 + size) as usize },
                        ops: Seq::empty(),
                    },
                    end: p1 + size,
                }
            },
        }
    }

    fn parse_entry(data: &[u8], pos: usize) -> (r: EntryOutcome<FunctionBody>) {
        let (size, p1) = match read_var_u32(data, pos) {
            Ok(p) => p,
            Err(e) => {
                return EntryOutcome::Stop(e);
            },
        };
        if (size as u64) <= (data.len() - p1) as u64 {
            let end = p1 + size as usize;
            let body = FunctionBody { range: Range { start: p1, end }, ops: Vec::new() };
            proof {
                assert(results_view(body.ops@) =~= Seq::<
                    Result<crate::types::OperatorV, ErrorV>,
                >::empty());
            }
            EntryOutcome::Val(body, end)
        } else {
            EntryOutcome::Stop(mk_err("unexpected end of input", p1))
        }
    }
}

/// A naming entry of the name custom section: the index being named, then
/// its name. A name that is not valid UTF-8 is recoverable — the error is
/// reported at the name field's offset and the next entry begins after the
/// name's bytes, whose extent the length prefix gives.
impl SectionEntry for Naming {
    open spec fn sp(data: Seq<u8>, pos: int) -> SpEntry<NamingV> {
        match sp_var_u32(data, pos) {
            SpRead::Fail { e } => SpEntry::Stop { e },
            SpRead::Val { v: idx, end: p1 } => match sp_leb_u_raw(data, p1, 32) {
                SpLebRaw::Eof => SpEntry::Stop {
                    e: ErrorV { message: msg_eof(), offset: p1 },
                },
                SpLebRaw::Bad => SpEntry::Stop {
                    e: ErrorV { message: msg_bad_int(), offset: p1 },
                },
                SpLebRaw::Val { v: n, end: p2 } => if p2 + n > data.len() {
                    SpEntry::Stop { e: ErrorV { message: msg_eof(), offset: p1 } }
                } else {
                    let bs = data.subrange(p2, p2 + n);
                    if valid_utf8(bs) {
                        SpEntry::Val {
                            v: NamingV { index: idx, name: decode_utf8(bs) },
                            end: p2 + n,
                        }
                    } else {
                        SpEntry::Skip {
                            e: ErrorV { message: crate::error::msg_bad_utf8(), offset: p1 },
                            end: p2 + n,
                        }
                    }
                },
            },
        }
    }

    fn parse_entry(data: &[u8], pos: usize) -> (r: EntryOutcome<Naming>) {
        let (idx, p1) = match read_var_u32(data, pos) {
            Ok(p) => p,
            Err(e) => {
                return EntryOutcome::Stop(e);
            },
        };
        match leb_u(data, p1, 32) {
            LebU::Eof => EntryOutcome::Stop(mk_err("unexpected end of input", p1)),
            LebU::Bad => EntryOutcome::Stop(mk_err("malformed LEB128 integer", p1)),
            LebU::Val(n, p2) => {
                if (n as u64) <= (data.len() - p2) as u64 {
                    let n = n as usize;
                    let s = vstd::slice::slice_subrange(data, p2, p2 + n);
                    match string_from_utf8(vstd::slice::slice_to_vec(s)) {
                        Some(st) => EntryOutcome::Val(Naming { index: idx, name: st }, p2 + n),
                        Option::None => EntryOutcome::Skip(
                            mk_err("invalid UTF-8 string", p1),
                            p2 + n,
                        ),
                    }
                } else {
                    EntryOutcome::Stop(mk_err("unexpected end of input", p1))
                }
            },
        }
    }
}

/// An indirect-naming entry: the outer index, then a counted run of naming
/// entries for the inner indices. A recoverable failure inside the group is
/// kept beside its siblings; a failure that loses the cursor ends the group
/// sequence with that error.
impl SectionEntry for IndirectNaming {
    open spec fn sp(data: Seq<u8>, pos: int) -> SpEntry<IndirectNamingV> {
        match sp_var_u32(data, pos) {
            SpRead::Fail { e } => SpEntry::Stop { e },
            SpRead::Val { v: idx, end: p1 } => match sp_var_u32(data, p1) {
                SpRead::Fail { e } => SpEntry::Stop { e },
                SpRead::Val { v: cnt, end: p2 } => match sp_entries_fin::<Naming>(
                    data,
                    p2,
                    cnt as nat,
                ) {
                    SpEntriesFin::Done(end) => SpEntry::Val {
                        v: IndirectNamingV {
                            index: idx,
                            names: sp_entries::<Naming>(data, p2, cnt as nat),
                        },
                        end,
                    },
                    SpEntriesFin::Stopped(e) => SpEntry::Stop { e },
                },
            },
        }
    }

    fn parse_entry(data: &[u8], pos: usize) -> (r: EntryOutcome<IndirectNaming>) {
        let (idx, p1) = match read_var_u32(data, pos) {
            Ok(p) => p,
            Err(e) => {
                return EntryOutcome::Stop(e);
            },
        };
        let (cnt, p2) = match read_var_u32(data, p1) {
            Ok(p) => p,
            Err(e) => {
                return EntryOutcome::Stop(e);
            },
        };
        let (mut names, fin) = parse_entries_at::<Naming>(data, p2, cnt);
        match fin {
            Some(end) => {
                if end > pos {
                    EntryOutcome::Val(IndirectNaming { index: idx, names }, end)
                } else {
                    // The run of names is empty only when its count is zero,
                    // and even then its end lies after the two indices read
                    // before it.
                    proof {
                        assert(false);
                    }
                    EntryOutcome::Stop(mk_err("unexpected end of input", pos))
                }
            },
            Option::None => {
                proof {
                    let fin0 = sp_entries_fin::<Naming>(data@, p2 as int, cnt as nat);
                    if let SpEntriesFin::Stopped(e) = fin0 {
                        lemma_sp_entries_stopped::<Naming>(data@, p2 as int, cnt as nat, e);
                    }
                }
                match names.pop() {
                    Some(Err(e)) => EntryOutcome::Stop(e),
                    _ => {
                        proof {
                            assert(false);
                        }
                        EntryOutcome::Stop(mk_err("unexpected end of input", pos))
                    },
                }
            },
        }
    }
}

} // verus!

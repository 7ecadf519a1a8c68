use wasm_tools::{parse_type_section, parse_import_section, parse_function_section,
    parse_table_section, parse_memory_section, parse_global_section, parse_export_section};
use wasm_tools::types::{Type, TypeNoOffset, FuncType, ValType, TypeRef, TableType, TableInit,
    RefType, HeapType, ExternalKind, Range};

#[test]
fn type_section_one_func_type() {
    // One function type (i32, i32) -> i32; the entry begins right after the
    // one-byte count, at offset 1.
    let data = [0x01, 0x60, 0x02, 0x7F, 0x7F, 0x01, 0x7F];
    let r = parse_type_section(&data, 0).unwrap();
    assert_eq!(r.len(), 1);
    let expected = Type {
        t: TypeNoOffset::Func(FuncType {
            params_results: vec![ValType::I32, ValType::I32, ValType::I32],
            len_params: 2,
        }),
        offset: 1,
    };
    assert_eq!(r[0].as_ref().unwrap(), &expected);
}

#[test]
fn type_section_rejects_unknown_form() {
    let data = [0x01, 0x61, 0x00, 0x00];
    let r = parse_type_section(&data, 0).unwrap();
    assert_eq!(r.len(), 1);
    let e = r[0].as_ref().unwrap_err();
    assert_eq!(e.message, "unknown type form");
    assert_eq!(e.offset, 1);
}

#[test]
fn type_section_empty() {
    let data = [0x00];
    let r = parse_type_section(&data, 0).unwrap();
    assert!(r.is_empty());
}

#[test]
fn type_section_count_unreadable() {
    let e = parse_type_section(&[], 0).unwrap_err();
    assert_eq!(e.message, "unexpected end of input");
    assert_eq!(e.offset, 0);
}

#[test]
fn type_section_at_nonzero_offset() {
    // Three padding bytes, then the payload; all offsets stay absolute.
    let data = [0xAA, 0xAA, 0xAA, 0x01, 0x60, 0x00, 0x01, 0x7E];
    let r = parse_type_section(&data, 3).unwrap();
    assert_eq!(r.len(), 1);
    let t = r[0].as_ref().unwrap();
    assert_eq!(t.offset, 4);
    let TypeNoOffset::Func(ft) = &t.t;
    assert_eq!(ft.params_results, vec![ValType::I64]);
    assert_eq!(ft.len_params, 0);
}

#[test]
fn import_section_error_does_not_suppress_later_entries() {
    // Three entries; the middle one has an unrecognized type tag. Its error
    // points at the tag byte, and the entry after it still decodes.
    let data = [
        0x03, // count
        0x01, b'a', 0x01, b'b', 0x00, 0x05, // import "a"."b" func 5, offset 1
        0x01, b'c', 0x01, b'd', 0x07, // unknown tag 0x07 at offset 11
        0x01, b'e', 0x01, b'f', 0x00, 0x09, // import "e"."f" func 9, offset 12
    ];
    let s = parse_import_section(&data, 0).unwrap();
    assert_eq!(s.range, Range { start: 0, end: data.len() });
    assert_eq!(s.imports.len(), 3);
    let i0 = s.imports[0].as_ref().unwrap();
    assert_eq!(i0.module, "a");
    assert_eq!(i0.name, "b");
    assert_eq!(i0.ty, TypeRef::Func(5));
    assert_eq!(i0.offset, 1);
    let e = s.imports[1].as_ref().unwrap_err();
    assert_eq!(e.message, "unknown import type tag");
    assert_eq!(e.offset, 11);
    let i2 = s.imports[2].as_ref().unwrap();
    assert_eq!(i2.module, "e");
    assert_eq!(i2.name, "f");
    assert_eq!(i2.ty, TypeRef::Func(9));
    assert_eq!(i2.offset, 12);
}

#[test]
fn import_section_all_type_refs() {
    let data = [
        0x04, // count
        0x01, b'm', 0x01, b't', 0x01, 0x70, 0x00, 0x10, // table funcref min 16
        0x01, b'm', 0x01, b'g', 0x03, 0x7F, 0x01, // global i32 mutable
        0x01, b'm', 0x01, b'h', 0x02, 0x01, 0x02, 0x04, // memory min 2 max 4
        0x01, b'm', 0x01, b'x', 0x04, 0x00, 0x03, // tag, exception, type 3
    ];
    let s = parse_import_section(&data, 0).unwrap();
    assert_eq!(s.imports.len(), 4);
    match s.imports[0].as_ref().unwrap().ty {
        TypeRef::Table(tt) => {
            assert_eq!(tt.initial, 16);
            assert_eq!(tt.maximum, None);
            assert!(tt.element_type.nullable);
            assert_eq!(tt.element_type.heap_type, HeapType::Func);
        },
        _ => panic!("expected a table import"),
    }
    match s.imports[1].as_ref().unwrap().ty {
        TypeRef::Global(gt) => {
            assert_eq!(gt.content_type, ValType::I32);
            assert!(gt.mutable);
        },
        _ => panic!("expected a global import"),
    }
    match s.imports[2].as_ref().unwrap().ty {
        TypeRef::Memory(mt) => {
            assert_eq!(mt.initial, 2);
            assert_eq!(mt.maximum, Some(4));
            assert!(!mt.shared);
            assert!(!mt.memory64);
        },
        _ => panic!("expected a memory import"),
    }
    match s.imports[3].as_ref().unwrap().ty {
        TypeRef::Tag(tt) => {
            assert_eq!(tt.func_type_idx, 3);
        },
        _ => panic!("expected a tag import"),
    }
}

#[test]
fn import_section_bad_tag_attribute() {
    // A tag import whose attribute byte is not the exception attribute.
    let data = [0x01, 0x01, b'm', 0x01, b'n', 0x04, 0x01, 0x00];
    let s = parse_import_section(&data, 0).unwrap();
    assert_eq!(s.imports.len(), 1);
    let e = s.imports[0].as_ref().unwrap_err();
    assert_eq!(e.message, "unknown tag attribute");
    assert_eq!(e.offset, 6);
}

#[test]
fn type_section_offsets_increase() {
    let data = [0x02, 0x60, 0x00, 0x00, 0x60, 0x00, 0x00];
    let r = parse_type_section(&data, 0).unwrap();
    assert_eq!(r.len(), 2);
    assert_eq!(r[0].as_ref().unwrap().offset, 1);
    assert_eq!(r[1].as_ref().unwrap().offset, 4);
}

#[test]
fn import_section_bad_utf8_module_stops() {
    // A module name that is not UTF-8 loses the cursor: only this error.
    let data = [0x02, 0x01, 0xFF, 0x01, b'b', 0x00, 0x00, 0x01, b'a', 0x01, b'b', 0x00, 0x00];
    let s = parse_import_section(&data, 0).unwrap();
    assert_eq!(s.imports.len(), 1);
    let e = s.imports[0].as_ref().unwrap_err();
    assert_eq!(e.message, "invalid UTF-8 string");
    assert_eq!(e.offset, 1);
}

#[test]
fn function_section_entries_and_offsets() {
    let data = [0x03, 0x05, 0x80, 0x01, 0x07];
    let r = parse_function_section(&data, 0).unwrap();
    assert_eq!(r.len(), 3);
    let f0 = r[0].as_ref().unwrap();
    assert_eq!((f0.type_idx, f0.offset), (5, 1));
    let f1 = r[1].as_ref().unwrap();
    assert_eq!((f1.type_idx, f1.offset), (128, 2));
    let f2 = r[2].as_ref().unwrap();
    assert_eq!((f2.type_idx, f2.offset), (7, 4));
    // Offsets strictly increase in declaration order.
    assert!(f0.offset < f1.offset && f1.offset < f2.offset);
}

#[test]
fn function_section_truncated_yields_fewer_entries() {
    let full = [0x03, 0x01, 0x02, 0x03];
    let fl = parse_function_section(&full, 0).unwrap();
    assert_eq!(fl.iter().filter(|r| r.is_ok()).count(), 3);
    // Sliced short: the lost byte costs an entry; the rest decode as before
    // and nothing is invented in their place.
    let tr = parse_function_section(&full[..3], 0).unwrap();
    assert_eq!(tr.len(), 3);
    assert_eq!(tr.iter().filter(|r| r.is_ok()).count(), 2);
    assert_eq!(tr[0], fl[0]);
    assert_eq!(tr[1], fl[1]);
    let e = tr[2].as_ref().unwrap_err();
    assert_eq!(e.message, "unexpected end of input");
    assert_eq!(e.offset, 3);
}

#[test]
fn import_section_truncated_yields_fewer_entries() {
    let full = [
        0x02, // count
        0x01, b'a', 0x01, b'b', 0x00, 0x05, // import "a"."b" func 5
        0x01, b'c', 0x01, b'd', 0x00, 0x07, // import "c"."d" func 7
    ];
    let fl = parse_import_section(&full, 0).unwrap();
    assert_eq!(fl.imports.iter().filter(|r| r.is_ok()).count(), 2);
    // Cut inside the second entry: the first still decodes, the second is
    // lost to an end-of-input error inside the slice, nothing is invented.
    let s = parse_import_section(&full[..9], 0).unwrap();
    assert_eq!(s.imports.len(), 2);
    assert_eq!(s.imports.iter().filter(|r| r.is_ok()).count(), 1);
    assert_eq!(s.imports[0], fl.imports[0]);
    let e = s.imports[1].as_ref().unwrap_err();
    assert_eq!(e.message, "unexpected end of input");
    assert!(e.offset <= 9);
}

#[test]
fn table_section_plain_and_explicit_init() {
    let data = [
        0x02, // count
        0x70, 0x01, 0x01, 0x80, 0x02, // funcref, min 1 max 256
        0x40, 0x00, 0x6F, 0x00, 0x02, 0x41, 0x00, 0x0B, // explicit init expr
    ];
    let r = parse_table_section(&data, 0).unwrap();
    assert_eq!(r.len(), 2);
    let t0 = r[0].as_ref().unwrap();
    assert_eq!(
        t0.ty,
        TableType {
            element_type: RefType { heap_type: HeapType::Func, nullable: true },
            initial: 1,
            maximum: Some(256),
        },
    );
    assert_eq!(t0.init, TableInit::RefNull);
    let t1 = r[1].as_ref().unwrap();
    assert_eq!(t1.ty.element_type.heap_type, HeapType::Extern);
    assert_eq!(t1.ty.initial, 2);
    match &t1.init {
        TableInit::Expr(ce) => assert_eq!(ce.data, vec![0x41, 0x00, 0x0B]),
        TableInit::RefNull => panic!("expected an explicit initializer"),
    }
}

#[test]
fn table_section_bad_limits_flags() {
    let data = [0x01, 0x70, 0x05, 0x00];
    let r = parse_table_section(&data, 0).unwrap();
    let e = r[0].as_ref().unwrap_err();
    assert_eq!(e.message, "malformed table limits flags");
    assert_eq!(e.offset, 2);
}

#[test]
fn table_section_bad_init_header() {
    let data = [0x01, 0x40, 0x01, 0x70, 0x00, 0x00];
    let r = parse_table_section(&data, 0).unwrap();
    let e = r[0].as_ref().unwrap_err();
    assert_eq!(e.message, "malformed table initializer");
    assert_eq!(e.offset, 2);
}

#[test]
fn memory_section_shared_without_maximum_is_malformed() {
    // Shared flag set, no maximum: the error points at the flags byte.
    let data = [0x01, 0x02, 0x01];
    let r = parse_memory_section(&data, 0).unwrap();
    assert_eq!(r.len(), 1);
    let e = r[0].as_ref().unwrap_err();
    assert_eq!(e.message, "shared memory must have a maximum");
    assert_eq!(e.offset, 1);
}

#[test]
fn memory_section_limits_forms() {
    let data = [
        0x04, // count
        0x00, 0x05, // min 5
        0x01, 0x05, 0x0A, // min 5 max 10
        0x03, 0x01, 0x02, // shared with max
        0x05, 0x80, 0x80, 0x80, 0x80, 0x10, 0x80, 0x80, 0x80, 0x80, 0x20, // memory64
    ];
    let r = parse_memory_section(&data, 0).unwrap();
    assert_eq!(r.len(), 4);
    let m0 = r[0].as_ref().unwrap();
    assert_eq!((m0.initial, m0.maximum, m0.shared, m0.memory64), (5, None, false, false));
    let m1 = r[1].as_ref().unwrap();
    assert_eq!((m1.initial, m1.maximum), (5, Some(10)));
    let m2 = r[2].as_ref().unwrap();
    assert!(m2.shared && m2.maximum.is_some());
    let m3 = r[3].as_ref().unwrap();
    assert!(m3.memory64);
    assert_eq!(m3.initial, 1u64 << 32);
    assert_eq!(m3.maximum, Some(1u64 << 33));
}

#[test]
fn memory_section_bad_flags() {
    let data = [0x01, 0x08, 0x00];
    let r = parse_memory_section(&data, 0).unwrap();
    let e = r[0].as_ref().unwrap_err();
    assert_eq!(e.message, "malformed memory limits flags");
    assert_eq!(e.offset, 1);
}

#[test]
fn global_section_types_and_init() {
    let data = [
        0x02, // count
        0x7F, 0x00, 0x41, 0x2A, 0x0B, // immutable i32, init i32.const 42
        0x7E, 0x01, 0x42, 0x00, 0x0B, // mutable i64, init i64.const 0
    ];
    let r = parse_global_section(&data, 0).unwrap();
    assert_eq!(r.len(), 2);
    let g0 = r[0].as_ref().unwrap();
    assert_eq!(g0.ty.content_type, ValType::I32);
    assert!(!g0.ty.mutable);
    assert_eq!(g0.init_expr.data, vec![0x41, 0x2A, 0x0B]);
    let g1 = r[1].as_ref().unwrap();
    assert_eq!(g1.ty.content_type, ValType::I64);
    assert!(g1.ty.mutable);
}

#[test]
fn global_section_bad_mutability() {
    let data = [0x01, 0x7F, 0x02, 0x41, 0x00, 0x0B];
    let r = parse_global_section(&data, 0).unwrap();
    let e = r[0].as_ref().unwrap_err();
    assert_eq!(e.message, "malformed mutability flag");
    assert_eq!(e.offset, 2);
}

#[test]
fn export_section_kinds() {
    let data = [
        0x03, // count
        0x03, b'f', b'o', b'o', 0x00, 0x01, // func 1
        0x01, b'm', 0x02, 0x00, // memory 0
        0x01, b'g', 0x03, 0x07, // global 7
    ];
    let r = parse_export_section(&data, 0).unwrap();
    assert_eq!(r.len(), 3);
    let e0 = r[0].as_ref().unwrap();
    assert_eq!(e0.name, "foo");
    assert_eq!(e0.kind, ExternalKind::Func);
    assert_eq!(e0.index, 1);
    assert_eq!(r[1].as_ref().unwrap().kind, ExternalKind::Memory);
    let e2 = r[2].as_ref().unwrap();
    assert_eq!(e2.kind, ExternalKind::Global);
    assert_eq!(e2.index, 7);
}

#[test]
fn export_section_unknown_kind() {
    let data = [0x01, 0x01, b'x', 0x07, 0x00];
    let r = parse_export_section(&data, 0).unwrap();
    let e = r[0].as_ref().unwrap_err();
    assert_eq!(e.message, "unknown external kind");
    assert_eq!(e.offset, 3);
}

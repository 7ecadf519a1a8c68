use wasm_tools::cursor::{read_u8, read_bytes, read_var_u32, read_var_u64, read_var_s,
    read_string};
use wasm_tools::grammar::{read_heap_type, read_val_type, read_ref_type};
use wasm_tools::types::{HeapType, ValType};
use wasm_tools::error::BinaryError;
use wasm_tools::ident2ts;

#[test]
fn leb_u32_values() {
    assert_eq!(read_var_u32(&[0x00], 0).unwrap(), (0, 1));
    assert_eq!(read_var_u32(&[0x7F], 0).unwrap(), (127, 1));
    assert_eq!(read_var_u32(&[0x80, 0x01], 0).unwrap(), (128, 2));
    assert_eq!(read_var_u32(&[0xE5, 0x8E, 0x26], 0).unwrap(), (624485, 3));
    assert_eq!(read_var_u32(&[0xFF, 0xFF, 0xFF, 0xFF, 0x0F], 0).unwrap(), (u32::MAX, 5));
    // A non-minimal encoding of zero is accepted.
    assert_eq!(read_var_u32(&[0x80, 0x00], 0).unwrap(), (0, 2));
}

#[test]
fn leb_u32_overflow_is_malformed() {
    // The fifth byte carries bits beyond the 32nd.
    let e = read_var_u32(&[0xFF, 0xFF, 0xFF, 0xFF, 0x7F], 0).unwrap_err();
    assert_eq!(e.message, "malformed LEB128 integer");
    assert_eq!(e.offset, 0);
    // A sixth continuation byte is never allowed.
    let e = read_var_u32(&[0x80, 0x80, 0x80, 0x80, 0x80, 0x01], 0).unwrap_err();
    assert_eq!(e.message, "malformed LEB128 integer");
}

#[test]
fn leb_u32_eof_points_at_read_start() {
    let e = read_var_u32(&[0x80], 0).unwrap_err();
    assert_eq!(e.message, "unexpected end of input");
    assert_eq!(e.offset, 0);
    let e = read_var_u32(&[0x01, 0x80, 0x80], 1).unwrap_err();
    assert_eq!(e.offset, 1);
}

#[test]
fn leb_u64_values() {
    assert_eq!(read_var_u64(&[0x2A], 0).unwrap(), (42, 1));
    let max = [0xFF, 0xFF, 0xFF, 0xFF, 0xFF, 0xFF, 0xFF, 0xFF, 0xFF, 0x01];
    assert_eq!(read_var_u64(&max, 0).unwrap(), (u64::MAX, 10));
    let over = [0xFF, 0xFF, 0xFF, 0xFF, 0xFF, 0xFF, 0xFF, 0xFF, 0xFF, 0x02];
    assert_eq!(over.len(), 10);
    let e = read_var_u64(&over, 0).unwrap_err();
    assert_eq!(e.message, "malformed LEB128 integer");
}

#[test]
fn leb_signed_values() {
    assert_eq!(read_var_s(&[0x7F], 0, 32).unwrap(), (-1, 1));
    assert_eq!(read_var_s(&[0x3F], 0, 32).unwrap(), (63, 1));
    assert_eq!(read_var_s(&[0x40], 0, 32).unwrap(), (-64, 1));
    assert_eq!(read_var_s(&[0xC0, 0x00], 0, 32).unwrap(), (64, 2));
    assert_eq!(read_var_s(&[0x80, 0x7F], 0, 32).unwrap(), (-128, 2));
    // The most negative 32-bit value, and one encoding that overflows it.
    assert_eq!(read_var_s(&[0x80, 0x80, 0x80, 0x80, 0x78], 0, 32).unwrap(), (i32::MIN as i64, 5));
    let e = read_var_s(&[0x80, 0x80, 0x80, 0x80, 0x70], 0, 32).unwrap_err();
    assert_eq!(e.message, "malformed LEB128 integer");
    // 64-bit range.
    assert_eq!(
        read_var_s(&[0xFF, 0xFF, 0xFF, 0xFF, 0xFF, 0xFF, 0xFF, 0xFF, 0xFF, 0x00], 0, 64).unwrap(),
        (i64::MAX, 10),
    );
}

#[test]
fn byte_and_raw_reads() {
    assert_eq!(read_u8(&[9, 7], 1).unwrap(), (7, 2));
    let e = read_u8(&[9], 1).unwrap_err();
    assert_eq!(e.offset, 1);
    let (v, end) = read_bytes(&[1, 2, 3, 4], 1, 2).unwrap();
    assert_eq!(v, vec![2, 3]);
    assert_eq!(end, 3);
    let e = read_bytes(&[1, 2], 1, 5).unwrap_err();
    assert_eq!(e.message, "unexpected end of input");
    assert_eq!(e.offset, 1);
}

#[test]
fn string_reads() {
    let (s, end) = read_string(&[0x03, b'a', b'b', b'c', 0xAA], 0).unwrap();
    assert_eq!(s, "abc");
    assert_eq!(end, 4);
    // Multibyte UTF-8 decodes to its characters.
    let (s, _) = read_string(&[0x02, 0xC3, 0xA9], 0).unwrap();
    assert_eq!(s, "\u{e9}");
    let e = read_string(&[0x02, 0xFF, 0xFF], 0).unwrap_err();
    assert_eq!(e.message, "invalid UTF-8 string");
    assert_eq!(e.offset, 0);
    let e = read_string(&[0x05, b'a'], 0).unwrap_err();
    assert_eq!(e.message, "unexpected end of input");
    assert_eq!(e.offset, 0);
}

#[test]
fn heap_types_abstract_and_indexed() {
    assert_eq!(read_heap_type(&[0x70], 0).unwrap(), (HeapType::Func, 1));
    assert_eq!(read_heap_type(&[0x6F], 0).unwrap(), (HeapType::Extern, 1));
    assert_eq!(read_heap_type(&[0x6E], 0).unwrap(), (HeapType::Any, 1));
    assert_eq!(read_heap_type(&[0x6D], 0).unwrap(), (HeapType::Eq, 1));
    assert_eq!(read_heap_type(&[0x6C], 0).unwrap(), (HeapType::I31, 1));
    assert_eq!(read_heap_type(&[0x6B], 0).unwrap(), (HeapType::Struct, 1));
    assert_eq!(read_heap_type(&[0x6A], 0).unwrap(), (HeapType::Array, 1));
    assert_eq!(read_heap_type(&[0x71], 0).unwrap(), (HeapType::NoneHeap, 1));
    assert_eq!(read_heap_type(&[0x72], 0).unwrap(), (HeapType::NoExtern, 1));
    assert_eq!(read_heap_type(&[0x73], 0).unwrap(), (HeapType::NoFunc, 1));
    assert_eq!(read_heap_type(&[0x2A], 0).unwrap(), (HeapType::TypedFunc(42), 1));
    assert_eq!(read_heap_type(&[0x80, 0x01], 0).unwrap(), (HeapType::TypedFunc(128), 2));
    // A negative index that is no abstract type is malformed.
    let e = read_heap_type(&[0x7F], 0).unwrap_err();
    assert_eq!(e.message, "unknown heap type");
    assert_eq!(e.offset, 0);
}

#[test]
fn value_and_reference_types() {
    assert_eq!(read_val_type(&[0x7F], 0).unwrap(), (ValType::I32, 1));
    assert_eq!(read_val_type(&[0x7E], 0).unwrap(), (ValType::I64, 1));
    assert_eq!(read_val_type(&[0x7D], 0).unwrap(), (ValType::F32, 1));
    assert_eq!(read_val_type(&[0x7C], 0).unwrap(), (ValType::F64, 1));
    assert_eq!(read_val_type(&[0x7B], 0).unwrap(), (ValType::V128, 1));
    let (vt, _) = read_val_type(&[0x70], 0).unwrap();
    match vt {
        ValType::Ref(rt) => {
            assert_eq!(rt.heap_type, HeapType::Func);
            assert!(rt.nullable);
        },
        _ => panic!("expected a reference type"),
    }
    // Explicit non-nullable reference to a type-section entry.
    let (rt, end) = read_ref_type(&[0x64, 0x03], 0).unwrap();
    assert_eq!(rt.heap_type, HeapType::TypedFunc(3));
    assert!(!rt.nullable);
    assert_eq!(end, 2);
    // Explicit nullable form.
    let (rt, _) = read_ref_type(&[0x63, 0x6E], 0).unwrap();
    assert_eq!(rt.heap_type, HeapType::Any);
    assert!(rt.nullable);
    let e = read_val_type(&[0x50], 0).unwrap_err();
    assert_eq!(e.message, "unknown value type");
    assert_eq!(e.offset, 0);
}

#[test]
fn binary_error_marks_itself() {
    let e = BinaryError { message: "unexpected end of input".to_string(), offset: 3 };
    assert!(e.get_is_error());
    assert_eq!(e.offset, 3);
}

#[test]
fn ident2ts_mappings() {
    assert_eq!(ident2ts("i32".to_string()), "number");
    assert_eq!(ident2ts("u16".to_string()), "number");
    assert_eq!(ident2ts("f64".to_string()), "number");
    assert_eq!(ident2ts("i64".to_string()), "bigint");
    assert_eq!(ident2ts("u64".to_string()), "bigint");
    assert_eq!(ident2ts("String".to_string()), "string");
    assert_eq!(ident2ts("bool".to_string()), "bool");
    assert_eq!(ident2ts("RefType".to_string()), "RefType");
    assert_eq!(ident2ts("".to_string()), "");
}

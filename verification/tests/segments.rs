use wasm_tools::{parse_element_section, parse_data_section, parse_code_section,
    parse_custom_section};
use wasm_tools::types::{ElementKind, ElementItems, DataKind, HeapType, Range};

#[test]
fn element_active_explicit_table_expressions_and_reftype() {
    // Flags 6: active with an explicit table index, expression items, and an
    // explicit reference type instead of the function-reference default.
    let data = [
        0x01, // count
        0x06, // flags
        0x02, // table index
        0x41, 0x05, 0x0B, // offset expression: i32.const 5, end
        0x6F, // element type: externref
        0x01, // one item
        0xD0, 0x6F, 0x0B, // ref.null extern, end
    ];
    let r = parse_element_section(&data, 0).unwrap();
    assert_eq!(r.len(), 1);
    let el = r[0].as_ref().unwrap();
    match &el.kind {
        ElementKind::Active(a) => {
            assert_eq!(a.table_index, 2);
            assert_eq!(a.offset_expr.data, vec![0x41, 0x05, 0x0B]);
        },
        _ => panic!("expected an active segment"),
    }
    assert_eq!(el.ty.heap_type, HeapType::Extern);
    assert!(el.ty.nullable);
    match &el.items {
        ElementItems::Expressions(es) => {
            assert_eq!(es.len(), 1);
            assert_eq!(es[0].data, vec![0xD0, 0x6F, 0x0B]);
        },
        ElementItems::Functions(_) => panic!("expected expression items"),
    }
}

#[test]
fn element_active_default_table_function_indices() {
    let data = [0x01, 0x00, 0x41, 0x00, 0x0B, 0x02, 0x03, 0x04];
    let r = parse_element_section(&data, 0).unwrap();
    let el = r[0].as_ref().unwrap();
    match &el.kind {
        ElementKind::Active(a) => assert_eq!(a.table_index, 0),
        _ => panic!("expected an active segment"),
    }
    assert_eq!(el.ty.heap_type, HeapType::Func);
    match &el.items {
        ElementItems::Functions(fs) => assert_eq!(fs, &vec![3, 4]),
        ElementItems::Expressions(_) => panic!("expected function indices"),
    }
}

#[test]
fn element_passive_and_declared() {
    let data = [
        0x02, // count
        0x01, 0x00, 0x01, 0x07, // passive, element kind 0, one function index
        0x03, 0x00, 0x00, // declared, element kind 0, no indices
    ];
    let r = parse_element_section(&data, 0).unwrap();
    assert!(matches!(r[0].as_ref().unwrap().kind, ElementKind::Passive));
    match &r[0].as_ref().unwrap().items {
        ElementItems::Functions(fs) => assert_eq!(fs, &vec![7]),
        ElementItems::Expressions(_) => panic!("expected function indices"),
    }
    assert!(matches!(r[1].as_ref().unwrap().kind, ElementKind::Declared));
}

#[test]
fn element_bad_flags() {
    let data = [0x01, 0x08];
    let r = parse_element_section(&data, 0).unwrap();
    let e = r[0].as_ref().unwrap_err();
    assert_eq!(e.message, "malformed element kind flags");
    assert_eq!(e.offset, 1);
}

#[test]
fn element_bad_item_kind() {
    let data = [0x01, 0x01, 0x05, 0x00];
    let r = parse_element_section(&data, 0).unwrap();
    let e = r[0].as_ref().unwrap_err();
    assert_eq!(e.message, "unknown element item kind");
    assert_eq!(e.offset, 2);
}

#[test]
fn data_section_kinds() {
    let data = [
        0x03, // count
        0x00, 0x41, 0x08, 0x0B, 0x03, b'a', b'b', b'c', // active, memory 0
        0x01, 0x02, 0xDE, 0xAD, // passive
        0x02, 0x01, 0x41, 0x00, 0x0B, 0x01, 0xFF, // active, memory 1
    ];
    let r = parse_data_section(&data, 0).unwrap();
    assert_eq!(r.len(), 3);
    let d0 = r[0].as_ref().unwrap();
    match &d0.kind {
        DataKind::Active(a) => {
            assert_eq!(a.memory_index, 0);
            assert_eq!(a.offset_expr.data, vec![0x41, 0x08, 0x0B]);
        },
        DataKind::Passive => panic!("expected an active segment"),
    }
    assert_eq!(d0.data, b"abc".to_vec());
    let d1 = r[1].as_ref().unwrap();
    assert!(matches!(d1.kind, DataKind::Passive));
    assert_eq!(d1.data, vec![0xDE, 0xAD]);
    let d2 = r[2].as_ref().unwrap();
    match &d2.kind {
        DataKind::Active(a) => assert_eq!(a.memory_index, 1),
        DataKind::Passive => panic!("expected an active segment"),
    }
    assert_eq!(d2.data, vec![0xFF]);
}

#[test]
fn data_section_bad_kind() {
    let data = [0x01, 0x03];
    let r = parse_data_section(&data, 0).unwrap();
    let e = r[0].as_ref().unwrap_err();
    assert_eq!(e.message, "malformed data kind flags");
    assert_eq!(e.offset, 1);
}

#[test]
fn data_section_truncated_bytes() {
    let data = [0x01, 0x01, 0x05, 0xAA];
    let r = parse_data_section(&data, 0).unwrap();
    let e = r[0].as_ref().unwrap_err();
    assert_eq!(e.message, "unexpected end of input");
    assert_eq!(e.offset, 3);
}

#[test]
fn code_section_body_ranges() {
    let data = [
        0x02, // count
        0x02, 0x00, 0x0B, // body of 2 bytes at 2..4
        0x03, 0x00, 0x01, 0x0B, // body of 3 bytes at 5..8
    ];
    let r = parse_code_section(&data, 0).unwrap();
    assert_eq!(r.len(), 2);
    let b0 = r[0].as_ref().unwrap();
    assert_eq!(b0.range, Range { start: 2, end: 4 });
    assert!(b0.ops.is_empty());
    let b1 = r[1].as_ref().unwrap();
    assert_eq!(b1.range, Range { start: 5, end: 8 });
}

#[test]
fn code_section_truncated_body() {
    let data = [0x01, 0x05, 0x00, 0x0B];
    let r = parse_code_section(&data, 0).unwrap();
    let e = r[0].as_ref().unwrap_err();
    assert_eq!(e.message, "unexpected end of input");
    assert_eq!(e.offset, 2);
}

#[test]
fn custom_section_name_and_payload() {
    let data = [0x04, b'n', b'a', b'm', b'e', 0x01, 0x02, 0x03];
    let c = parse_custom_section(&data, 0).unwrap();
    assert_eq!(c.name, "name");
    assert_eq!(c.data, vec![1, 2, 3]);
}

#[test]
fn custom_section_empty_payload() {
    let data = [0x02, b'h', b'i'];
    let c = parse_custom_section(&data, 0).unwrap();
    assert_eq!(c.name, "hi");
    assert!(c.data.is_empty());
}

#[test]
fn custom_section_bad_name() {
    let data = [0x02, 0xFF, 0xFE, 0x00];
    let e = parse_custom_section(&data, 0).unwrap_err();
    assert_eq!(e.message, "invalid UTF-8 string");
    assert_eq!(e.offset, 0);
}

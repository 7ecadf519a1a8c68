use wasm_tools::parse_name_section;
use wasm_tools::types::{Name, Naming};

#[test]
fn name_section_function_names_with_bad_utf8_entry() {
    // One `function` subsection with two naming records; the second record's
    // name is not valid UTF-8. The record-level error points at that name
    // field and does not discard its sibling.
    let data = [
        0x01, 0x0B, // subsection id 1, payload size 11
        0x02, // two namings
        0x00, 0x04, b'm', b'a', b'i', b'n', // index 0, "main"
        0x01, 0x02, 0xFF, 0xFE, // index 1, invalid bytes
    ];
    let r = parse_name_section(&data, 0);
    assert_eq!(r.len(), 1);
    match r[0].as_ref().unwrap() {
        Name::Function(ns) => {
            assert_eq!(ns.len(), 2);
            assert_eq!(ns[0].as_ref().unwrap(), &Naming { index: 0, name: "main".to_string() });
            let e = ns[1].as_ref().unwrap_err();
            assert_eq!(e.message, "invalid UTF-8 string");
            assert_eq!(e.offset, 10);
        },
        _ => panic!("expected a function-name subsection"),
    }
}

#[test]
fn name_section_module_name() {
    let data = [0x00, 0x04, 0x03, b'm', b'o', b'd'];
    let r = parse_name_section(&data, 0);
    assert_eq!(r.len(), 1);
    match r[0].as_ref().unwrap() {
        Name::Module(s) => assert_eq!(s, "mod"),
        _ => panic!("expected a module-name subsection"),
    }
}

#[test]
fn name_section_local_names() {
    // One `local` subsection: names for the locals of function 0.
    let data = [
        0x02, 0x09, // subsection id 2, payload size 9
        0x01, // one group
        0x00, // function index 0
        0x02, // two inner namings
        0x00, 0x01, b'x', // local 0 -> "x"
        0x01, 0x01, b'y', // local 1 -> "y"
    ];
    let r = parse_name_section(&data, 0);
    assert_eq!(r.len(), 1);
    match r[0].as_ref().unwrap() {
        Name::Local(gs) => {
            assert_eq!(gs.len(), 1);
            let g = gs[0].as_ref().unwrap();
            assert_eq!(g.index, 0);
            assert_eq!(g.names.len(), 2);
            assert_eq!(g.names[0].as_ref().unwrap(), &Naming { index: 0, name: "x".to_string() });
            assert_eq!(g.names[1].as_ref().unwrap(), &Naming { index: 1, name: "y".to_string() });
        },
        _ => panic!("expected a local-name subsection"),
    }
}

#[test]
fn name_section_label_names() {
    let data = [
        0x03, 0x06, // subsection id 3, payload size 6
        0x01, // one group
        0x01, // function index 1
        0x01, // one inner naming
        0x00, 0x01, b'l', // label 0 -> "l"
    ];
    let r = parse_name_section(&data, 0);
    assert_eq!(r.len(), 1);
    match r[0].as_ref().unwrap() {
        Name::Label(gs) => {
            let g = gs[0].as_ref().unwrap();
            assert_eq!(g.index, 1);
            assert_eq!(g.names[0].as_ref().unwrap(), &Naming { index: 0, name: "l".to_string() });
        },
        _ => panic!("expected a label-name subsection"),
    }
}

#[test]
fn name_section_unknown_subsection_roundtrips() {
    // An unrecognized identifier decodes to the unknown variant carrying the
    // identifier and the raw payload, never to an error.
    let data = [0x2A, 0x03, 0x09, 0x08, 0x07, 0x00, 0x02, 0x01, b'g'];
    let r = parse_name_section(&data, 0);
    assert_eq!(r.len(), 2);
    match r[0].as_ref().unwrap() {
        Name::Unknown(u) => {
            assert_eq!(u.ty, 0x2A);
            assert_eq!(u.data, vec![9, 8, 7]);
        },
        _ => panic!("expected an unknown subsection"),
    }
    match r[1].as_ref().unwrap() {
        Name::Module(s) => assert_eq!(s, "g"),
        _ => panic!("expected a module-name subsection"),
    }
}

#[test]
fn name_section_several_map_kinds() {
    let data = [
        0x04, 0x04, 0x01, 0x00, 0x01, b't', // type names
        0x07, 0x04, 0x01, 0x02, 0x01, b'g', // global names
        0x09, 0x04, 0x01, 0x00, 0x01, b'd', // data names
    ];
    let r = parse_name_section(&data, 0);
    assert_eq!(r.len(), 3);
    assert!(matches!(r[0].as_ref().unwrap(), Name::Type(_)));
    match r[1].as_ref().unwrap() {
        Name::Global(ns) => {
            assert_eq!(ns[0].as_ref().unwrap(), &Naming { index: 2, name: "g".to_string() });
        },
        _ => panic!("expected a global-name subsection"),
    }
    assert!(matches!(r[2].as_ref().unwrap(), Name::Data(_)));
}

#[test]
fn name_section_bad_subsection_payload_is_contained() {
    // The first subsection's payload is malformed (its count runs off the
    // payload), but its size is known, so the next subsection still decodes.
    let data = [
        0x01, 0x01, 0x80, // function subsection whose count is cut short
        0x00, 0x02, 0x01, b'm', // module subsection
    ];
    let r = parse_name_section(&data, 0);
    assert_eq!(r.len(), 2);
    let e = r[0].as_ref().unwrap_err();
    assert_eq!(e.message, "unexpected end of input");
    assert_eq!(e.offset, 2);
    match r[1].as_ref().unwrap() {
        Name::Module(s) => assert_eq!(s, "m"),
        _ => panic!("expected a module-name subsection"),
    }
}

#[test]
fn name_section_truncated_subsection_extent() {
    // The declared payload size runs past the buffer: the run ends with that
    // error and nothing after it.
    let data = [0x00, 0x7F, 0x01];
    let r = parse_name_section(&data, 0);
    assert_eq!(r.len(), 1);
    let e = r[0].as_ref().unwrap_err();
    assert_eq!(e.message, "unexpected end of input");
    assert_eq!(e.offset, 2);
}

#[test]
fn name_section_empty() {
    let r = parse_name_section(&[], 0);
    assert!(r.is_empty());
}

#[test]
fn name_section_inner_names_cannot_cross_payload_end() {
    // The subsection claims one naming whose name length reaches past the
    // subsection's own payload, even though the buffer holds more bytes:
    // the record fails rather than reading into the next subsection.
    let data = [
        0x01, 0x04, // function subsection, payload size 4
        0x01, 0x00, 0x05, b'a', // one naming: name of 5 bytes, only 1 in payload
        b'b', b'c', b'd', b'e', // bytes beyond the payload
    ];
    let r = parse_name_section(&data, 0);
    assert_eq!(r.len(), 2);
    match r[0].as_ref().unwrap() {
        Name::Function(ns) => {
            assert_eq!(ns.len(), 1);
            let e = ns[0].as_ref().unwrap_err();
            assert_eq!(e.message, "unexpected end of input");
            assert_eq!(e.offset, 4);
        },
        _ => panic!("expected a function-name subsection"),
    }
}

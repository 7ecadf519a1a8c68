use wasm_tools::parse_function_body;
use wasm_tools::operators::{op_info, fc_op_info, gc_op_info, simd_op_info, atomic_op_info,
    ImmKind, read_op, read_const_expr};

fn names(body: &[u8]) -> Vec<Result<String, (String, usize)>> {
    parse_function_body(body, 0)
        .unwrap()
        .into_iter()
        .map(|r| match r {
            Ok(op) => Ok(op.name),
            Err(e) => Err((e.message, e.offset)),
        })
        .collect()
}

#[test]
fn body_arithmetic_ops() {
    // No locals; i32.const 5, i32.const 2, i32.add, end.
    let body = [0x00, 0x41, 0x05, 0x41, 0x02, 0x6A, 0x0B];
    assert_eq!(
        names(&body),
        vec![
            Ok("i32.const".to_string()),
            Ok("i32.const".to_string()),
            Ok("i32.add".to_string()),
            Ok("end".to_string()),
        ],
    );
}

#[test]
fn body_locals_are_consumed() {
    // One declaration of two i32 locals before the instructions.
    let body = [0x01, 0x02, 0x7F, 0x20, 0x00, 0x21, 0x01, 0x0B];
    assert_eq!(
        names(&body),
        vec![
            Ok("local.get".to_string()),
            Ok("local.set".to_string()),
            Ok("end".to_string()),
        ],
    );
}

#[test]
fn body_unknown_opcode_stops_stream() {
    // 0x1D is outside the catalog: the stream ends with that error, at the
    // opcode's offset, and nothing is decoded after it.
    let body = [0x00, 0x01, 0x1D, 0x01, 0x0B];
    assert_eq!(
        names(&body),
        vec![Ok("nop".to_string()), Err(("unknown opcode".to_string(), 2))],
    );
}

#[test]
fn body_prefixed_ops() {
    let body = [0x00, 0xFC, 0x0A, 0x00, 0x00, 0xFC, 0x00, 0x0B];
    assert_eq!(
        names(&body),
        vec![
            Ok("memory.copy".to_string()),
            Ok("i32.trunc_sat_f32_s".to_string()),
            Ok("end".to_string()),
        ],
    );
}

#[test]
fn body_unknown_prefixed_opcode() {
    let body = [0x00, 0xFC, 0x3F, 0x0B];
    assert_eq!(names(&body), vec![Err(("unknown opcode".to_string(), 1))]);
}

#[test]
fn body_control_and_branch_table() {
    // block (empty type), br_table with two labels and a default, end, end.
    let body = [0x00, 0x02, 0x40, 0x0E, 0x02, 0x00, 0x01, 0x00, 0x0B, 0x0B];
    assert_eq!(
        names(&body),
        vec![
            Ok("block".to_string()),
            Ok("br_table".to_string()),
            Ok("end".to_string()),
            Ok("end".to_string()),
        ],
    );
}

#[test]
fn body_typed_select_and_memory_ops() {
    let body = [
        0x00, // no locals
        0x1C, 0x01, 0x7F, // select with one value type
        0x28, 0x02, 0x00, // i32.load align 2 offset 0
        0x43, 0x00, 0x00, 0x80, 0x3F, // f32.const (four raw bytes)
        0x0B,
    ];
    assert_eq!(
        names(&body),
        vec![
            Ok("select".to_string()),
            Ok("i32.load".to_string()),
            Ok("f32.const".to_string()),
            Ok("end".to_string()),
        ],
    );
}

#[test]
fn body_reference_ops() {
    let body = [0x00, 0xD0, 0x70, 0xD1, 0xD2, 0x00, 0x0B];
    assert_eq!(
        names(&body),
        vec![
            Ok("ref.null".to_string()),
            Ok("ref.is_null".to_string()),
            Ok("ref.func".to_string()),
            Ok("end".to_string()),
        ],
    );
}

#[test]
fn body_bad_block_type() {
    // 0x7A is neither empty, a value type, nor a non-negative type index.
    let body = [0x00, 0x02, 0x7A, 0x0B];
    assert_eq!(names(&body), vec![Err(("malformed block type".to_string(), 2))]);
}

#[test]
fn body_block_with_index_type() {
    // A non-negative type-section index is a valid block type.
    let body = [0x00, 0x02, 0x1F, 0x0B, 0x0B];
    assert_eq!(
        names(&body),
        vec![Ok("block".to_string()), Ok("end".to_string()), Ok("end".to_string())],
    );
}

#[test]
fn body_truncated_immediate() {
    // i64.const with its operand cut off: the error points at the operand.
    let body = [0x00, 0x42, 0x80];
    assert_eq!(names(&body), vec![Err(("unexpected end of input".to_string(), 2))]);
}

#[test]
fn body_bad_locals_fail_whole_call() {
    // The local declaration's type byte is missing: a section-level error,
    // not a per-operator one.
    let body = [0x01, 0x01];
    let e = parse_function_body(&body, 0).unwrap_err();
    assert_eq!(e.message, "unexpected end of input");
    assert_eq!(e.offset, 2);
}

#[test]
fn catalog_has_no_row_for_unassigned_bytes() {
    assert!(op_info(0x0A).is_none());
    assert!(op_info(0x1D).is_none());
    assert!(op_info(0x27).is_none());
    assert!(op_info(0xC5).is_none());
    assert!(op_info(0xD7).is_none());
    assert!(op_info(0xFB).is_none());
    assert!(op_info(0xFC).is_none());
    assert!(op_info(0xFD).is_none());
    assert!(op_info(0xFE).is_none());
    assert!(op_info(0xFF).is_none());
    assert!(fc_op_info(18).is_none());
    assert!(fc_op_info(0xFFFF).is_none());
    assert!(gc_op_info(31).is_none());
    assert!(simd_op_info(154).is_none());
    assert!(simd_op_info(276).is_none());
    assert!(atomic_op_info(0x04).is_none());
    assert!(atomic_op_info(0x4F).is_none());
}

#[test]
fn catalog_counts_recognized_variants() {
    // The closed set: 197 single-byte variants, and 18 + 31 + 256 + 67
    // across the four prefixed spaces.
    let single = (0u8..=255).filter(|b| op_info(*b).is_some()).count();
    assert_eq!(single, 197);
    assert_eq!((0u32..1000).filter(|s| fc_op_info(*s).is_some()).count(), 18);
    assert_eq!((0u32..1000).filter(|s| gc_op_info(*s).is_some()).count(), 31);
    assert_eq!((0u32..1000).filter(|s| simd_op_info(*s).is_some()).count(), 256);
    assert_eq!((0u32..1000).filter(|s| atomic_op_info(*s).is_some()).count(), 67);
}

#[test]
fn body_exception_handling_ops() {
    // try (empty type), throw tag 0, catch tag 1, end, end.
    let body = [0x00, 0x06, 0x40, 0x08, 0x00, 0x07, 0x01, 0x0B, 0x0B];
    assert_eq!(
        names(&body),
        vec![
            Ok("try".to_string()),
            Ok("throw".to_string()),
            Ok("catch".to_string()),
            Ok("end".to_string()),
            Ok("end".to_string()),
        ],
    );
}

#[test]
fn body_function_reference_ops() {
    let body = [0x00, 0x14, 0x00, 0xD5, 0x00, 0xD4, 0x0B];
    assert_eq!(
        names(&body),
        vec![
            Ok("call_ref".to_string()),
            Ok("br_on_null".to_string()),
            Ok("ref.as_non_null".to_string()),
            Ok("end".to_string()),
        ],
    );
}

#[test]
fn body_gc_ops() {
    let body = [
        0x00, // no locals
        0xFB, 0x00, 0x02, // struct.new type 2
        0xFB, 0x14, 0x6E, // ref.test any
        0xFB, 0x18, 0x01, 0x00, 0x6E, 0x6D, // br_on_cast flags, label, two heap types
        0xFB, 0x1C, // ref.i31
        0x0B,
    ];
    assert_eq!(
        names(&body),
        vec![
            Ok("struct.new".to_string()),
            Ok("ref.test".to_string()),
            Ok("br_on_cast".to_string()),
            Ok("ref.i31".to_string()),
            Ok("end".to_string()),
        ],
    );
}

#[test]
fn body_vector_ops() {
    let body = [
        0x00, // no locals
        0xFD, 0x0C, 1, 2, 3, 4, 5, 6, 7, 8, 9, 10, 11, 12, 13, 14, 15, 16, // v128.const
        0xFD, 0x0D, 0, 0, 0, 0, 0, 0, 0, 0, 0, 0, 0, 0, 0, 0, 0, 0, // i8x16.shuffle
        0xFD, 0x15, 0x03, // i8x16.extract_lane_s lane 3
        0xFD, 0x54, 0x00, 0x00, 0x01, // v128.load8_lane align, offset, lane
        0xFD, 0x80, 0x02, // i8x16.relaxed_swizzle (sub-opcode 256)
        0x0B,
    ];
    assert_eq!(
        names(&body),
        vec![
            Ok("v128.const".to_string()),
            Ok("i8x16.shuffle".to_string()),
            Ok("i8x16.extract_lane_s".to_string()),
            Ok("v128.load8_lane".to_string()),
            Ok("i8x16.relaxed_swizzle".to_string()),
            Ok("end".to_string()),
        ],
    );
}

#[test]
fn body_atomic_ops() {
    let body = [
        0x00, // no locals
        0xFE, 0x10, 0x02, 0x00, // i32.atomic.load align 2 offset 0
        0xFE, 0x03, 0x00, // atomic.fence, flags byte
        0xFE, 0x4E, 0x03, 0x00, // i64.atomic.rmw32.cmpxchg_u
        0x0B,
    ];
    assert_eq!(
        names(&body),
        vec![
            Ok("i32.atomic.load".to_string()),
            Ok("atomic.fence".to_string()),
            Ok("i64.atomic.rmw32.cmpxchg_u".to_string()),
            Ok("end".to_string()),
        ],
    );
}

#[test]
fn body_truncated_vector_constant() {
    // v128.const with only four of its sixteen bytes.
    let body = [0x00, 0xFD, 0x0C, 1, 2, 3, 4];
    assert_eq!(names(&body), vec![Err(("unexpected end of input".to_string(), 3))]);
}

#[test]
fn catalog_rows_and_immediate_shapes() {
    assert_eq!(op_info(0x6A), Some(("i32.add", ImmKind::NoImm)));
    assert_eq!(op_info(0x10), Some(("call", ImmKind::U32)));
    assert_eq!(op_info(0x11), Some(("call_indirect", ImmKind::U32U32)));
    assert_eq!(op_info(0x28), Some(("i32.load", ImmKind::MemArg)));
    assert_eq!(op_info(0x02), Some(("block", ImmKind::BlockType)));
    assert_eq!(op_info(0x0E), Some(("br_table", ImmKind::BrTable)));
    assert_eq!(op_info(0xD0), Some(("ref.null", ImmKind::HeapTypeImm)));
    assert_eq!(op_info(0x44), Some(("f64.const", ImmKind::F64Bytes)));
    assert_eq!(op_info(0x12), Some(("return_call", ImmKind::U32)),);
    assert_eq!(fc_op_info(8), Some(("memory.init", ImmKind::U32U32)));
    assert_eq!(fc_op_info(17), Some(("table.fill", ImmKind::U32)));
    assert_eq!(op_info(0x06), Some(("try", ImmKind::BlockType)));
    assert_eq!(op_info(0x14), Some(("call_ref", ImmKind::U32)));
    assert_eq!(gc_op_info(5), Some(("struct.set", ImmKind::U32U32)));
    assert_eq!(gc_op_info(24), Some(("br_on_cast", ImmKind::BrOnCast)));
    assert_eq!(simd_op_info(12), Some(("v128.const", ImmKind::Bytes16)));
    assert_eq!(simd_op_info(27), Some(("i32x4.extract_lane", ImmKind::ByteImm)));
    assert_eq!(simd_op_info(88), Some(("v128.store8_lane", ImmKind::MemArgLane)));
    assert_eq!(simd_op_info(110), Some(("i8x16.add", ImmKind::NoImm)));
    assert_eq!(atomic_op_info(0x00), Some(("memory.atomic.notify", ImmKind::MemArg)));
    assert_eq!(atomic_op_info(0x1E), Some(("i32.atomic.rmw.add", ImmKind::MemArg)));
}

#[test]
fn read_op_positions() {
    let data = [0x41, 0x80, 0x01, 0x6A];
    let (op, end) = read_op(&data, 0).unwrap();
    assert_eq!(op.name, "i32.const");
    assert_eq!(end, 3);
    let (op2, end2) = read_op(&data, 3).unwrap();
    assert_eq!(op2.name, "i32.add");
    assert_eq!(end2, 4);
}

#[test]
fn const_expr_captures_bytes_with_end() {
    let data = [0x41, 0x2A, 0x0B, 0x77];
    let (ce, end) = read_const_expr(&data, 0).unwrap();
    assert_eq!(ce.data, vec![0x41, 0x2A, 0x0B]);
    assert_eq!(end, 3);
}

#[test]
fn const_expr_tracks_block_nesting() {
    // block ... end inside the expression does not terminate it; only the
    // matching outer end does.
    let data = [0x02, 0x40, 0x0B, 0x41, 0x00, 0x0B, 0xAA];
    let (ce, end) = read_const_expr(&data, 0).unwrap();
    assert_eq!(end, 6);
    assert_eq!(ce.data, vec![0x02, 0x40, 0x0B, 0x41, 0x00, 0x0B]);
}

#[test]
fn const_expr_unterminated_is_eof() {
    let data = [0x41, 0x2A];
    let e = read_const_expr(&data, 0).unwrap_err();
    assert_eq!(e.message, "unexpected end of input");
    assert_eq!(e.offset, 2);
}

//! The single error shape used by every decoder: a message and the absolute
//! byte offset of the read that failed.

use vstd::prelude::*;

verus! {

/// An error produced while decoding. `offset` is absolute within the buffer
/// handed to the decoder and points at the position where the failing read
/// began, so a diagnostic can name the exact malformed byte.
#[derive(Debug, Clone, PartialEq, Eq)]
pub struct BinaryError {
    pub message: String,
    pub offset: usize,
}

/// Mathematical mirror of `BinaryError`.
pub ghost struct ErrorV {
    pub message: Seq<char>,
    pub offset: int,
}

impl View for BinaryError {
    type V = ErrorV;

    open spec fn view(&self) -> ErrorV {
        ErrorV { message: self.message@, offset: self.offset as int }
    }
}

impl BinaryError {
    /// Marks a value of this type as an error, in contrast to the decoded
    /// entries it stands beside in a result sequence.
    pub fn get_is_error(&self) -> (r: bool)
        ensures
            r,
    {
        true
    }
}

/// Message of an `UnexpectedEof` error: fewer bytes remain than the read requires.
pub open spec fn msg_eof() -> Seq<char> {
    "unexpected end of input"@
}

/// Message of a `Malformed` error on a variable-length integer: the encoding
/// overflows its declared bit width or carries too many continuation bytes.
pub open spec fn msg_bad_int() -> Seq<char> {
    "malformed LEB128 integer"@
}

/// Message of an `InvalidUtf8` error: a string field is not valid UTF-8.
pub open spec fn msg_bad_utf8() -> Seq<char> {
    "invalid UTF-8 string"@
}

/// Message of an `UnknownOpcode` error: an instruction byte sequence matches
/// nothing in the operator catalog.
pub open spec fn msg_unknown_opcode() -> Seq<char> {
    "unknown opcode"@
}

/// Message of a `Malformed` error on a type-section entry whose leading form
/// byte is not the function-type form.
pub open spec fn msg_bad_type_form() -> Seq<char> {
    "unknown type form"@
}

/// Message of a `Malformed` error on a value-type byte with no recognized mapping.
pub open spec fn msg_bad_value_type() -> Seq<char> {
    "unknown value type"@
}

/// Message of a `Malformed` error on a heap-type encoding with no recognized mapping.
pub open spec fn msg_bad_heap_type() -> Seq<char> {
    "unknown heap type"@
}

/// Message of a `Malformed` error on an import entry whose type tag byte has
/// no recognized mapping.
pub open spec fn msg_bad_import_tag() -> Seq<char> {
    "unknown import type tag"@
}

/// Message of a `Malformed` error on a table entry's limits flags byte.
pub open spec fn msg_bad_table_flags() -> Seq<char> {
    "malformed table limits flags"@
}

/// Message of a `Malformed` error on a table entry's explicit-initializer header.
pub open spec fn msg_bad_table_init() -> Seq<char> {
    "malformed table initializer"@
}

/// Message of a `Malformed` error on a memory entry's limits flags byte.
pub open spec fn msg_bad_memory_flags() -> Seq<char> {
    "malformed memory limits flags"@
}

/// Message of the `Malformed` error on a shared memory with no maximum:
/// a shared memory must declare an explicit maximum.
pub open spec fn msg_shared_no_max() -> Seq<char> {
    "shared memory must have a maximum"@
}

/// Message of a `Malformed` error on a global's mutability byte.
pub open spec fn msg_bad_mutability() -> Seq<char> {
    "malformed mutability flag"@
}

/// Message of a `Malformed` error on an export entry's kind byte.
pub open spec fn msg_bad_external_kind() -> Seq<char> {
    "unknown external kind"@
}

/// Message of a `Malformed` error on an element entry's kind/flags integer.
pub open spec fn msg_bad_element_kind() -> Seq<char> {
    "malformed element kind flags"@
}

/// Message of a `Malformed` error on an element item kind byte that is not
/// the function-reference kind.
pub open spec fn msg_bad_elem_item_kind() -> Seq<char> {
    "unknown element item kind"@
}

/// Message of a `Malformed` error on a block type that is neither empty, a
/// value type, nor a type-section index.
pub open spec fn msg_bad_block_type() -> Seq<char> {
    "malformed block type"@
}

/// Message of a `Malformed` error on a data entry's kind/flags integer.
pub open spec fn msg_bad_data_kind() -> Seq<char> {
    "malformed data kind flags"@
}

/// Message of a `Malformed` error on a tag type whose attribute byte is not
/// the exception attribute.
pub open spec fn msg_bad_tag_attribute() -> Seq<char> {
    "unknown tag attribute"@
}

/// Builds a `BinaryError` carrying the given message at the given offset.
pub fn mk_err(msg: &str, offset: usize) -> (e: BinaryError)
    ensures
        e@ == (ErrorV { message: msg@, offset: offset as int }),
{
    BinaryError { message: msg.to_owned(), offset }
}

} // verus!

//! Decoder for the sections of a binary module in the WebAssembly encoding.
//!
//! Each `parse_*` function takes a byte buffer and the absolute offset at
//! which the section's payload begins, and returns either a section-level
//! `BinaryError` or one decoded entry (or entry-level error) per declared
//! element, in declaration order. All offsets in results and errors are
//! absolute within the buffer handed in. No function here panics or reads
//! past the end of the buffer, and none requires anything of its input:
//! every byte sequence decodes to entries or to typed errors.
//!
//! Each public decoder carries a contract equating its result with a
//! spec-level decoding function over the buffer's mathematical view; the
//! laws the decoders obey — offsets increasing across a section's entries,
//! truncation never inventing entries, the operator catalog being closed —
//! are stated and proved in the `laws` module.

pub mod error;
pub mod cursor;
pub mod types;
pub mod sections;
pub mod grammar;
pub mod operators;
pub mod entries;
pub mod body;
pub mod namesec;
pub mod laws;
pub mod tsnames;

pub use crate::body::parse_function_body;
pub use crate::namesec::parse_name_section;
pub use crate::tsnames::ident2ts;

use vstd::prelude::*;
use crate::error::{BinaryError, ErrorV};
use crate::cursor::{SpRead, sp_string, read_string, read_bytes};
use crate::sections::{sp_section, parse_entries, section_view};
use crate::types::{Type, Import, ImportV, ImportSection, Function, Table, MemoryType, Global,
    Export, Element, Data, FunctionBody, CustomSection, CustomSectionV, Range};

verus! {

/// Decodes a type section: one `Type` per declared entry; only the
/// function-type form is recognized.
pub fn parse_type_section(data: &[u8], offset: usize) -> (r: Result<
    Vec<Result<Type, BinaryError>>,
    BinaryError,
>)
    ensures
        section_view(r) == sp_section::<Type>(data@, offset as int),
{
    parse_entries::<Type>(data, offset)
}

/// Decodes an import section: its entries together with the byte range that
/// was handed to the decoder as the section's extent.
pub fn parse_import_section(data: &[u8], offset: usize) -> (r: Result<ImportSection, BinaryError>)
    ensures
        (match r {
            Ok(s) => sp_section::<Import>(data@, offset as int) == Ok::<
                Seq<Result<ImportV, ErrorV>>,
                ErrorV,
            >(s@.imports) && s@.range == (Range { start: offset, end: data@.len() as usize }),
            Err(e) => sp_section::<Import>(data@, offset as int) == Err::<
                Seq<Result<ImportV, ErrorV>>,
                ErrorV,
            >(e@),
        }),
{
    match parse_entries::<Import>(data, offset) {
        Err(e) => Err(e),
        Ok(imports) => Ok(
            ImportSection { imports, range: Range { start: offset, end: data.len() } },
        ),
    }
}

/// Decodes a function section: one type index per declared function.
pub fn parse_function_section(data: &[u8], offset: usize) -> (r: Result<
    Vec<Result<Function, BinaryError>>,
    BinaryError,
>)
    ensures
        section_view(r) == sp_section::<Function>(data@, offset as int),
{
    parse_entries::<Function>(data, offset)
}

/// Decodes a table section: one table type and initializer per entry.
pub fn parse_table_section(data: &[u8], offset: usize) -> (r: Result<
    Vec<Result<Table, BinaryError>>,
    BinaryError,
>)
    ensures
        section_view(r) == sp_section::<Table>(data@, offset as int),
{
    parse_entries::<Table>(data, offset)
}

/// Decodes a memory section: one memory type per entry.
pub fn parse_memory_section(data: &[u8], offset: usize) -> (r: Result<
    Vec<Result<MemoryType, BinaryError>>,
    BinaryError,
>)
    ensures
        section_view(r) == sp_section::<MemoryType>(data@, offset as int),
{
    parse_entries::<MemoryType>(data, offset)
}

/// Decodes a global section: one global type and initializer expression per
/// entry.
pub fn parse_global_section(data: &[u8], offset: usize) -> (r: Result<
    Vec<Result<Global, BinaryError>>,
    BinaryError,
>)
    ensures
        section_view(r) == sp_section::<Global>(data@, offset as int),
{
    parse_entries::<Global>(data, offset)
}

/// Decodes an export section: one name, kind and index per entry.
pub fn parse_export_section(data: &[u8], offset: usize) -> (r: Result<
    Vec<Result<Export, BinaryError>>,
    BinaryError,
>)
    ensures
        section_view(r) == sp_section::<Export>(data@, offset as int),
{
    parse_entries::<Export>(data, offset)
}

/// Decodes an element section: one element segment per entry.
pub fn parse_element_section(data: &[u8], offset: usize) -> (r: Result<
    Vec<Result<Element, BinaryError>>,
    BinaryError,
>)
    ensures
        section_view(r) == sp_section::<Element>(data@, offset as int),
{
    parse_entries::<Element>(data, offset)
}

/// Decodes a code section: one function body range per entry. The bodies'
/// operator streams are decoded on demand by `parse_function_body`.
pub fn parse_code_section(data: &[u8], offset: usize) -> (r: Result<
    Vec<Result<FunctionBody, BinaryError>>,
    BinaryError,
>)
    ensures
        section_view(r) == sp_section::<FunctionBody>(data@, offset as int),
{
    parse_entries::<FunctionBody>(data, offset)
}

/// Decodes a data section: one data segment per entry.
pub fn parse_data_section(data: &[u8], offset: usize) -> (r: Result<
    Vec<Result<Data, BinaryError>>,
    BinaryError,
>)
    ensures
        section_view(r) == sp_section::<Data>(data@, offset as int),
{
    parse_entries::<Data>(data, offset)
}

/// What a custom section decodes to: its name, then the rest of the buffer
/// as opaque bytes.
pub open spec fn sp_custom_section(data: Seq<u8>, offset: int) -> Result<CustomSectionV, ErrorV> {
    match sp_string(data, offset) {
        SpRead::Fail { e } => Err(e),
        SpRead::Val { v: name, end: p } => Ok(
            CustomSectionV { name, data: data.subrange(p, data.len() as int) },
        ),
    }
}

/// Decodes a custom section: a name, then the remainder of the buffer as
/// uninterpreted bytes.
pub fn parse_custom_section(data: &[u8], offset: usize) -> (r: Result<CustomSection, BinaryError>)
    ensures
        (match r {
            Ok(c) => sp_custom_section(data@, offset as int) == Ok::<CustomSectionV, ErrorV>(c@),
            Err(e) => sp_custom_section(data@, offset as int) == Err::<CustomSectionV, ErrorV>(e@),
        }),
{
    let (name, p) = match read_string(data, offset) {
        Ok(p) => p,
        Err(e) => {
            return Err(e);
        },
    };
    match read_bytes(data, p, data.len() - p) {
        Err(e) => Err(e),
        Ok((bs, _)) => Ok(CustomSection { name, data: bs }),
    }
}

} // verus!

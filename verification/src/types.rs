//! The typed data model that the section decoders populate.
//!
//! Every entity is a value produced once by a decoder and owned by its
//! caller. Cross-references between entities are indices (`type_idx`,
//! `table_index`, `memory_index`), never pointers; resolving them against a
//! fully assembled module is a later concern. Each type that owns heap data
//! has a mathematical mirror (`...V`) over `Seq` and `int`, reached through
//! `View`, which the decoder contracts speak of.

use vstd::prelude::*;
use crate::error::{BinaryError, ErrorV};

verus! {

/// A heap type of a reference.
#[derive(Debug, Clone, Copy, PartialEq, Eq)]
pub enum HeapType {
    /// Function of the type at the given index in the type section.
    TypedFunc(u32),
    /// Untyped (any) function.
    Func,
    /// External heap type.
    Extern,
    /// The common supertype (top) of all internal types.
    Any,
    /// The common subtype (bottom) of all internal types.
    NoneHeap,
    /// The common subtype (bottom) of all external types.
    NoExtern,
    /// The common subtype (bottom) of all function types.
    NoFunc,
    /// The common supertype of all referenceable types on which comparison is allowed.
    Eq,
    /// The common supertype of all struct types.
    Struct,
    /// The common supertype of all array types.
    Array,
    /// The unboxed-scalar heap type.
    I31,
}

/// A reference type: a heap type plus nullability.
#[derive(Debug, Clone, Copy, PartialEq, Eq)]
pub struct RefType {
    pub heap_type: HeapType,
    pub nullable: bool,
}

/// The type of a value in a module.
#[derive(Debug, Clone, Copy, PartialEq, Eq)]
pub enum ValType {
    I32,
    I64,
    F32,
    F64,
    V128,
    Ref(RefType),
}

/// The type of a function: the parameter types followed by the result types,
/// flattened into one sequence to avoid a second allocation per type.
#[derive(Debug, Clone, PartialEq, Eq)]
pub struct FuncType {
    /// The combined parameter and result types.
    pub params_results: Vec<ValType>,
    /// How many of `params_results` are parameters; the rest are results.
    pub len_params: usize,
}

/// Mathematical mirror of `FuncType`.
pub ghost struct FuncTypeV {
    pub params_results: Seq<ValType>,
    pub len_params: int,
}

/// A type-section entry without its offset; only the function form is
/// recognized in this scope.
#[derive(Debug, Clone, PartialEq, Eq)]
pub enum TypeNoOffset {
    Func(FuncType),
}

/// Mathematical mirror of `TypeNoOffset`.
pub ghost enum TypeNoOffsetV {
    Func(FuncTypeV),
}

/// A type-section entry together with the absolute offset it was decoded at.
#[derive(Debug, Clone, PartialEq, Eq)]
pub struct Type {
    pub t: TypeNoOffset,
    pub offset: usize,
}

/// Mathematical mirror of `Type`.
pub ghost struct TypeV {
    pub t: TypeNoOffsetV,
    pub offset: int,
}

/// The type of a table: its element type and its limits.
#[derive(Debug, Clone, Copy, PartialEq, Eq)]
pub struct TableType {
    /// The table's element type.
    pub element_type: RefType,
    /// Initial size of the table, in elements.
    pub initial: u32,
    /// Optional maximum size of the table, in elements.
    pub maximum: Option<u32>,
}

/// The type of a memory: its limits and its addressing/sharing attributes.
#[derive(Debug, Clone, Copy, PartialEq, Eq)]
pub struct MemoryType {
    /// Whether this is a 64-bit memory, using a 64-bit index.
    pub memory64: bool,
    /// Whether this memory may be shared across threads; a valid shared
    /// memory always carries a maximum.
    pub shared: bool,
    /// Initial size of the memory, in pages.
    pub initial: u64,
    /// Optional maximum size of the memory, in pages.
    pub maximum: Option<u64>,
}

/// The type of a global: its content type and mutability.
#[derive(Debug, Clone, Copy, PartialEq, Eq)]
pub struct GlobalType {
    /// The global's value type.
    pub content_type: ValType,
    /// Whether the global is mutable.
    pub mutable: bool,
}

/// The kind of a tag.
#[derive(Debug, Clone, Copy, PartialEq, Eq)]
pub enum TagKind {
    /// The tag is an exception type.
    Exception,
}

/// The type of a tag.
#[derive(Debug, Clone, Copy, PartialEq, Eq)]
pub struct TagType {
    /// The kind of the tag.
    pub kind: TagKind,
    /// The index of the function type this tag uses.
    pub func_type_idx: u32,
}

/// What an import refers to, discriminated by the entry's leading tag byte.
#[derive(Debug, Clone, Copy, PartialEq, Eq)]
pub enum TypeRef {
    Func(u32),
    Table(TableType),
    Memory(MemoryType),
    Global(GlobalType),
    Tag(TagType),
}

/// An import: the module it comes from, its name, what it refers to, and the
/// absolute offset of the entry.
#[derive(Debug, Clone, PartialEq, Eq)]
pub struct Import {
    /// The module being imported from.
    pub module: String,
    /// The name of the imported item.
    pub name: String,
    /// The type of the imported item.
    pub ty: TypeRef,
    /// The absolute byte offset of the entry.
    pub offset: usize,
}

/// Mathematical mirror of `Import`.
pub ghost struct ImportV {
    pub module: Seq<char>,
    pub name: Seq<char>,
    pub ty: TypeRef,
    pub offset: int,
}

/// A function-section entry: the index of the function's type, and the
/// absolute offset of the entry.
#[derive(Debug, Clone, Copy, PartialEq, Eq)]
pub struct Function {
    pub type_idx: u32,
    pub offset: usize,
}

/// Mathematical mirror of `Function`.
pub ghost struct FunctionV {
    pub type_idx: u32,
    pub offset: int,
}

/// An initializer expression, captured as the raw bytes of its instruction
/// sequence, terminating `end` opcode included.
#[derive(Debug, Clone, PartialEq, Eq)]
pub struct ConstExpr {
    pub data: Vec<u8>,
}

/// Mathematical mirror of `ConstExpr`.
pub ghost struct ConstExprV {
    pub data: Seq<u8>,
}

/// How a table's contents are initialized.
#[derive(Debug, Clone, PartialEq, Eq)]
pub enum TableInit {
    /// The table is initialized to all-null elements.
    RefNull,
    /// Each element is initialized with the given constant expression.
    Expr(ConstExpr),
}

/// Mathematical mirror of `TableInit`.
pub ghost enum TableInitV {
    RefNull,
    Expr(ConstExprV),
}

/// A table-section entry: the table's type and its initializer.
#[derive(Debug, Clone, PartialEq, Eq)]
pub struct Table {
    /// The type of the table, including its element type and limits.
    pub ty: TableType,
    /// The initialization mode of the table.
    pub init: TableInit,
}

/// Mathematical mirror of `Table`.
pub ghost struct TableV {
    pub ty: TableType,
    pub init: TableInitV,
}

/// A global-section entry: the global's type and its initializer expression.
#[derive(Debug, Clone, PartialEq, Eq)]
pub struct Global {
    /// The type of the global.
    pub ty: GlobalType,
    /// The global's initialization expression.
    pub init_expr: ConstExpr,
}

/// Mathematical mirror of `Global`.
pub ghost struct GlobalV {
    pub ty: GlobalType,
    pub init_expr: ConstExprV,
}

/// The kind of an exported or imported item.
#[derive(Debug, Clone, Copy, PartialEq, Eq)]
pub enum ExternalKind {
    Func,
    Table,
    Memory,
    Global,
    Tag,
}

/// An export-section entry.
#[derive(Debug, Clone, PartialEq, Eq)]
pub struct Export {
    /// The name of the exported item.
    pub name: String,
    /// The kind of the export.
    pub kind: ExternalKind,
    /// The index of the exported item.
    pub index: u32,
}

/// Mathematical mirror of `Export`.
pub ghost struct ExportV {
    pub name: Seq<char>,
    pub kind: ExternalKind,
    pub index: u32,
}

/// The placement of an active element segment.
#[derive(Debug, Clone, PartialEq, Eq)]
pub struct ElementKindActive {
    /// The index of the table being initialized.
    pub table_index: u32,
    /// The offset expression of the segment.
    pub offset_expr: ConstExpr,
}

/// Mathematical mirror of `ElementKindActive`.
pub ghost struct ElementKindActiveV {
    pub table_index: u32,
    pub offset_expr: ConstExprV,
}

/// The kind of an element segment.
#[derive(Debug, Clone, PartialEq, Eq)]
pub enum ElementKind {
    /// The segment is passive.
    Passive,
    /// The segment is active.
    Active(ElementKindActive),
    /// The segment is declared.
    Declared,
}

/// Mathematical mirror of `ElementKind`.
pub ghost enum ElementKindV {
    Passive,
    Active(ElementKindActiveV),
    Declared,
}

/// The items of an element segment.
#[derive(Debug, Clone, PartialEq, Eq)]
pub enum ElementItems {
    /// The segment holds function indices.
    Functions(Vec<u32>),
    /// The segment holds constant expressions that initialize the table.
    Expressions(Vec<ConstExpr>),
}

/// Mathematical mirror of `ElementItems`.
pub ghost enum ElementItemsV {
    Functions(Seq<u32>),
    Expressions(Seq<ConstExprV>),
}

/// An element-section entry.
#[derive(Debug, Clone, PartialEq, Eq)]
pub struct Element {
    /// The kind of the segment.
    pub kind: ElementKind,
    /// The initial elements of the segment.
    pub items: ElementItems,
    /// The type of the elements.
    pub ty: RefType,
}

/// Mathematical mirror of `Element`.
pub ghost struct ElementV {
    pub kind: ElementKindV,
    pub items: ElementItemsV,
    pub ty: RefType,
}

/// A half-open range of byte offsets into the buffer handed to the decoder.
#[derive(Debug, Clone, Copy, PartialEq, Eq)]
pub struct Range {
    pub start: usize,
    pub end: usize,
}

/// One decoded instruction, reduced to its canonical name in the operator
/// catalog; its operands are consumed but not retained.
#[derive(Debug, Clone, PartialEq, Eq)]
pub struct Operator {
    pub name: String,
}

/// Mathematical mirror of `Operator`.
pub ghost struct OperatorV {
    pub name: Seq<char>,
}

/// A code-section entry: the byte range of one function's body. Its operator
/// stream is decoded on demand by `parse_function_body` and starts out empty.
#[derive(Debug, Clone, PartialEq, Eq)]
pub struct FunctionBody {
    pub range: Range,
    pub ops: Vec<Result<Operator, BinaryError>>,
}

/// Mathematical mirror of `FunctionBody`.
pub ghost struct FunctionBodyV {
    pub range: Range,
    pub ops: Seq<Result<OperatorV, ErrorV>>,
}

/// The placement of an active data segment.
#[derive(Debug, Clone, PartialEq, Eq)]
pub struct DataKindActive {
    /// The index of the memory being initialized.
    pub memory_index: u32,
    /// The offset expression of the segment.
    pub offset_expr: ConstExpr,
}

/// Mathematical mirror of `DataKindActive`.
pub ghost struct DataKindActiveV {
    pub memory_index: u32,
    pub offset_expr: ConstExprV,
}

/// The kind of a data segment.
#[derive(Debug, Clone, PartialEq, Eq)]
pub enum DataKind {
    /// The segment is passive.
    Passive,
    /// The segment is active.
    Active(DataKindActive),
}

/// Mathematical mirror of `DataKind`.
pub ghost enum DataKindV {
    Passive,
    Active(DataKindActiveV),
}

/// A data-section entry.
#[derive(Debug, Clone, PartialEq, Eq)]
pub struct Data {
    /// The kind of the segment.
    pub kind: DataKind,
    /// The raw bytes of the segment.
    pub data: Vec<u8>,
}

/// Mathematical mirror of `Data`.
pub ghost struct DataV {
    pub kind: DataKindV,
    pub data: Seq<u8>,
}

/// A custom section: its name and its uninterpreted payload.
#[derive(Debug, Clone, PartialEq, Eq)]
pub struct CustomSection {
    pub name: String,
    pub data: Vec<u8>,
}

/// Mathematical mirror of `CustomSection`.
pub ghost struct CustomSectionV {
    pub name: Seq<char>,
    pub data: Seq<u8>,
}

/// A name for one index, from the name custom section.
#[derive(Debug, Clone, PartialEq, Eq)]
pub struct Naming {
    /// The index being named.
    pub index: u32,
    /// The name of the index.
    pub name: String,
}

/// Mathematical mirror of `Naming`.
pub ghost struct NamingV {
    pub index: u32,
    pub name: Seq<char>,
}

/// An indirect name group from the name custom section: names for the inner
/// indices under one outer index.
#[derive(Debug, Clone, PartialEq, Eq)]
pub struct IndirectNaming {
    /// The outer index of the group.
    pub index: u32,
    /// The names within the group, each independently fallible.
    pub names: Vec<Result<Naming, BinaryError>>,
}

/// Mathematical mirror of `IndirectNaming`.
pub ghost struct IndirectNamingV {
    pub index: u32,
    pub names: Seq<Result<NamingV, ErrorV>>,
}

/// A name subsection with an unrecognized identifier, kept losslessly as its
/// identifier and raw payload.
#[derive(Debug, Clone, PartialEq, Eq)]
pub struct NameUnknown {
    /// The identifier of the subsection.
    pub ty: u8,
    /// The raw contents of the subsection.
    pub data: Vec<u8>,
}

/// Mathematical mirror of `NameUnknown`.
pub ghost struct NameUnknownV {
    pub ty: u8,
    pub data: Seq<u8>,
}

/// One subsection of the name custom section.
#[derive(Debug, Clone, PartialEq, Eq)]
pub enum Name {
    /// The module's own name.
    Module(String),
    /// Names of functions.
    Function(Vec<Result<Naming, BinaryError>>),
    /// Names of locals, grouped by function.
    Local(Vec<Result<IndirectNaming, BinaryError>>),
    /// Names of labels, grouped by function.
    Label(Vec<Result<IndirectNaming, BinaryError>>),
    /// Names of types.
    Type(Vec<Result<Naming, BinaryError>>),
    /// Names of tables.
    Table(Vec<Result<Naming, BinaryError>>),
    /// Names of memories.
    Memory(Vec<Result<Naming, BinaryError>>),
    /// Names of globals.
    Global(Vec<Result<Naming, BinaryError>>),
    /// Names of element segments.
    Element(Vec<Result<Naming, BinaryError>>),
    /// Names of data segments.
    Data(Vec<Result<Naming, BinaryError>>),
    /// A subsection with an unrecognized identifier, kept as opaque bytes.
    Unknown(NameUnknown),
}

/// Mathematical mirror of `Name`.
pub ghost enum NameV {
    Module(Seq<char>),
    Function(Seq<Result<NamingV, ErrorV>>),
    Local(Seq<Result<IndirectNamingV, ErrorV>>),
    Label(Seq<Result<IndirectNamingV, ErrorV>>),
    Type(Seq<Result<NamingV, ErrorV>>),
    Table(Seq<Result<NamingV, ErrorV>>),
    Memory(Seq<Result<NamingV, ErrorV>>),
    Global(Seq<Result<NamingV, ErrorV>>),
    Element(Seq<Result<NamingV, ErrorV>>),
    Data(Seq<Result<NamingV, ErrorV>>),
    Unknown(NameUnknownV),
}

/// A decoded import section: its entries and the byte range that was handed
/// to the decoder as the section's extent.
pub struct ImportSection {
    pub imports: Vec<Result<Import, BinaryError>>,
    pub range: Range,
}

/// Mathematical mirror of `ImportSection`.
pub ghost struct ImportSectionV {
    pub imports: Seq<Result<ImportV, ErrorV>>,
    pub range: Range,
}

/// Maps a sequence of decoded entries (or entry-level errors) to its
/// mathematical mirror.
pub open spec fn results_view<T: View>(s: Seq<Result<T, BinaryError>>) -> Seq<
    Result<T::V, ErrorV>,
> {
    s.map_values(
        |r: Result<T, BinaryError>|
            match r {
                Ok(t) => Ok(t@),
                Err(e) => Err(e@),
            },
    )
}

impl View for HeapType {
    type V = HeapType;

    open spec fn view(&self) -> HeapType {
        *self
    }
}

impl View for RefType {
    type V = RefType;

    open spec fn view(&self) -> RefType {
        *self
    }
}

impl View for ValType {
    type V = ValType;

    open spec fn view(&self) -> ValType {
        *self
    }
}

impl View for TableType {
    type V = TableType;

    open spec fn view(&self) -> TableType {
        *self
    }
}

impl View for MemoryType {
    type V = MemoryType;

    open spec fn view(&self) -> MemoryType {
        *self
    }
}

impl View for GlobalType {
    type V = GlobalType;

    open spec fn view(&self) -> GlobalType {
        *self
    }
}

impl View for TagType {
    type V = TagType;

    open spec fn view(&self) -> TagType {
        *self
    }
}

impl View for TypeRef {
    type V = TypeRef;

    open spec fn view(&self) -> TypeRef {
        *self
    }
}

impl View for ExternalKind {
    type V = ExternalKind;

    open spec fn view(&self) -> ExternalKind {
        *self
    }
}

impl View for Function {
    type V = FunctionV;

    open spec fn view(&self) -> FunctionV {
        FunctionV { type_idx: self.type_idx, offset: self.offset as int }
    }
}

impl View for Range {
    type V = Range;

    open spec fn view(&self) -> Range {
        *self
    }
}

impl View for FuncType {
    type V = FuncTypeV;

    open spec fn view(&self) -> FuncTypeV {
        FuncTypeV { params_results: self.params_results@, len_params: self.len_params as int }
    }
}

impl View for TypeNoOffset {
    type V = TypeNoOffsetV;

    open spec fn view(&self) -> TypeNoOffsetV {
        match self {
            TypeNoOffset::Func(f) => TypeNoOffsetV::Func(f@),
        }
    }
}

impl View for Type {
    type V = TypeV;

    open spec fn view(&self) -> TypeV {
        TypeV { t: self.t@, offset: self.offset as int }
    }
}

impl View for Import {
    type V = ImportV;

    open spec fn view(&self) -> ImportV {
        ImportV {
            module: self.module@,
            name: self.name@,
            ty: self.ty,
            offset: self.offset as int,
        }
    }
}

impl View for ConstExpr {
    type V = ConstExprV;

    open spec fn view(&self) -> ConstExprV {
        ConstExprV { data: self.data@ }
    }
}

impl View for TableInit {
    type V = TableInitV;

    open spec fn view(&self) -> TableInitV {
        match self {
            TableInit::RefNull => TableInitV::RefNull,
            TableInit::Expr(e) => TableInitV::Expr(e@),
        }
    }
}

impl View for Table {
    type V = TableV;

    open spec fn view(&self) -> TableV {
        TableV { ty: self.ty, init: self.init@ }
    }
}

impl View for Global {
    type V = GlobalV;

    open spec fn view(&self) -> GlobalV {
        GlobalV { ty: self.ty, init_expr: self.init_expr@ }
    }
}

impl View for Export {
    type V = ExportV;

    open spec fn view(&self) -> ExportV {
        ExportV { name: self.name@, kind: self.kind, index: self.index }
    }
}

impl View for ElementKindActive {
    type V = ElementKindActiveV;

    open spec fn view(&self) -> ElementKindActiveV {
        ElementKindActiveV { table_index: self.table_index, offset_expr: self.offset_expr@ }
    }
}

impl View for ElementKind {
    type V = ElementKindV;

    open spec fn view(&self) -> ElementKindV {
        match self {
            ElementKind::Passive => ElementKindV::Passive,
            ElementKind::Active(a) => ElementKindV::Active(a@),
            ElementKind::Declared => ElementKindV::Declared,
        }
    }
}

impl View for ElementItems {
    type V = ElementItemsV;

    open spec fn view(&self) -> ElementItemsV {
        match self {
            ElementItems::Functions(fs) => ElementItemsV::Functions(fs@),
            ElementItems::Expressions(es) => ElementItemsV::Expressions(
                es@.map_values(|e: ConstExpr| e@),
            ),
        }
    }
}

impl View for Element {
    type V = ElementV;

    open spec fn view(&self) -> ElementV {
        ElementV { kind: self.kind@, items: self.items@, ty: self.ty }
    }
}

impl View for Operator {
    type V = OperatorV;

    open spec fn view(&self) -> OperatorV {
        OperatorV { name: self.name@ }
    }
}

impl View for FunctionBody {
    type V = FunctionBodyV;

    open spec fn view(&self) -> FunctionBodyV {
        FunctionBodyV { range: self.range, ops: results_view(self.ops@) }
    }
}

impl View for DataKindActive {
    type V = DataKindActiveV;

    open spec fn view(&self) -> DataKindActiveV {
        DataKindActiveV { memory_index: self.memory_index, offset_expr: self.offset_expr@ }
    }
}

impl View for DataKind {
    type V = DataKindV;

    open spec fn view(&self) -> DataKindV {
        match self {
            DataKind::Passive => DataKindV::Passive,
            DataKind::Active(a) => DataKindV::Active(a@),
        }
    }
}

impl View for Data {
    type V = DataV;

    open spec fn view(&self) -> DataV {
        DataV { kind: self.kind@, data: self.data@ }
    }
}

impl View for CustomSection {
    type V = CustomSectionV;

    open spec fn view(&self) -> CustomSectionV {
        CustomSectionV { name: self.name@, data: self.data@ }
    }
}

impl View for Naming {
    type V = NamingV;

    open spec fn view(&self) -> NamingV {
        NamingV { index: self.index, name: self.name@ }
    }
}

impl View for IndirectNaming {
    type V = IndirectNamingV;

    open spec fn view(&self) -> IndirectNamingV {
        IndirectNamingV { index: self.index, names: results_view(self.names@) }
    }
}

impl View for NameUnknown {
    type V = NameUnknownV;

    open spec fn view(&self) -> NameUnknownV {
        NameUnknownV { ty: self.ty, data: self.data@ }
    }
}

impl View for ImportSection {
    type V = ImportSectionV;

    open spec fn view(&self) -> ImportSectionV {
        ImportSectionV { imports: results_view(self.imports@), range: self.range }
    }
}

impl View for Name {
    type V = NameV;

    open spec fn view(&self) -> NameV {
        match self {
            Name::Module(s) => NameV::Module(s@),
            Name::Function(v) => NameV::Function(results_view(v@)),
            Name::Local(v) => NameV::Local(results_view(v@)),
            Name::Label(v) => NameV::Label(results_view(v@)),
            Name::Type(v) => NameV::Type(results_view(v@)),
            Name::Table(v) => NameV::Table(results_view(v@)),
            Name::Memory(v) => NameV::Memory(results_view(v@)),
            Name::Global(v) => NameV::Global(results_view(v@)),
            Name::Element(v) => NameV::Element(results_view(v@)),
            Name::Data(v) => NameV::Data(results_view(v@)),
            Name::Unknown(u) => NameV::Unknown(u@),
        }
    }
}

} // verus!

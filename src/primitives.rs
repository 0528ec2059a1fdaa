use vstd::prelude::*;

verus! {

/// The classes of faults that decoding or validation can report.
#[derive(Clone, Copy, Debug, PartialEq, Eq, Structural)]
pub enum ErrorKind {
    UnexpectedEof,
    InvalidHeader,
    InvalidLeb128,
    InvalidUtf8,
    InvalidType,
    UnknownOpcode,
    DuplicateSection,
    SectionOutOfOrder,
    BadSectionLength,
    BadCodeSection,
    IndexOutOfBounds,
    TypeMismatch,
    StackUnderflow,
    InvalidLimits,
    InvalidAlignment,
    LimitExceeded,
    IllegalConstantExpr,
    UnsupportedFeature,
    GlobalIsImmutable,
    StringTooLong,
    InvalidSectionCode,
    InvalidExternalKind,
    DuplicateExportName,
    DataCountMismatch,
    InvalidLaneIndex,
}

/// A fault together with the byte position at which it was detected.
#[derive(Clone, Copy, Debug, PartialEq, Eq, Structural)]
pub struct BinaryReaderError {
    pub kind: ErrorKind,
    pub offset: usize,
}

pub type Result<T> = core::result::Result<T, BinaryReaderError>;

/// A half-open byte range `[start, end)` of the input.
#[derive(Clone, Copy, Debug, PartialEq, Eq, Structural)]
pub struct Range {
    pub start: usize,
    pub end: usize,
}

/// Value types, plus the two codes that only occur in type and block positions.
#[derive(Clone, Copy, Debug, PartialEq, Eq, Structural)]
pub enum Type {
    I32,
    I64,
    F32,
    F64,
    V128,
    AnyFunc,
    AnyRef,
    Func,
    EmptyBlockType,
}

/// The type of a block: a single value type (or none), or an index into the
/// type section.
#[derive(Clone, Copy, Debug, PartialEq, Eq, Structural)]
pub enum TypeOrFuncType {
    Type(Type),
    FuncType(u32),
}

#[derive(Clone, Copy, Debug, PartialEq, Eq, Structural)]
pub enum ExternalKind {
    Function,
    Table,
    Memory,
    Global,
}

/// Initial size and optional maximum of a table or memory.
#[derive(Clone, Copy, Debug, PartialEq, Eq, Structural)]
pub struct ResizableLimits {
    pub initial: u32,
    pub maximum: Option<u32>,
}

#[derive(Clone, Copy, Debug, PartialEq, Eq, Structural)]
pub struct TableType {
    pub element_type: Type,
    pub limits: ResizableLimits,
}

#[derive(Clone, Copy, Debug, PartialEq, Eq, Structural)]
pub struct MemoryType {
    pub limits: ResizableLimits,
    pub shared: bool,
}

#[derive(Clone, Copy, Debug, PartialEq, Eq, Structural)]
pub struct GlobalType {
    pub content_type: Type,
    pub mutable: bool,
}

/// The payload of an import entry.
#[derive(Clone, Copy, Debug, PartialEq, Eq, Structural)]
pub enum ImportSectionEntryType {
    Function(u32),
    Table(TableType),
    Memory(MemoryType),
    Global(GlobalType),
}

/// Alignment exponent and offset of a load or store.
#[derive(Clone, Copy, Debug, PartialEq, Eq, Structural)]
pub struct MemoryImmediate {
    pub flags: u32,
    pub offset: u32,
}

/// Section identifiers; a custom section carries the range of its name.
#[derive(Clone, Copy, Debug, PartialEq, Eq, Structural)]
pub enum SectionCode {
    Custom { name: Range },
    Type,
    Import,
    Function,
    Table,
    Memory,
    Global,
    Export,
    Start,
    Element,
    Code,
    Data,
    DataCount,
}

/// The bits of a 32-bit float, kept as they were read.
#[derive(Clone, Copy, Debug, PartialEq, Eq, Structural)]
pub struct Ieee32 {
    pub bits: u32,
}

/// The bits of a 64-bit float, kept as they were read.
#[derive(Clone, Copy, Debug, PartialEq, Eq, Structural)]
pub struct Ieee64 {
    pub bits: u64,
}

/// The immediates of `br_table`: where its target depths are encoded, how
/// many there are, and the default depth.
#[derive(Clone, Copy, Debug, PartialEq, Eq, Structural)]
pub struct BrTable {
    pub targets: Range,
    pub count: u32,
    pub default: u32,
}

/// A decoded instruction. Loads, stores, atomic memory accesses and the
/// numeric instructions without immediates keep their opcode, which fixes
/// their typing.
#[derive(Clone, Copy, Debug, PartialEq, Eq, Structural)]
pub enum Operator {
    Unreachable,
    Nop,
    Block { ty: TypeOrFuncType },
    Loop { ty: TypeOrFuncType },
    If { ty: TypeOrFuncType },
    Else,
    End,
    Br { relative_depth: u32 },
    BrIf { relative_depth: u32 },
    BrTable { table: BrTable },
    Return,
    Call { function_index: u32 },
    CallIndirect { index: u32, table_index: u32 },
    Drop,
    Select,
    LocalGet { local_index: u32 },
    LocalSet { local_index: u32 },
    LocalTee { local_index: u32 },
    GlobalGet { global_index: u32 },
    GlobalSet { global_index: u32 },
    Load { code: u8, memarg: MemoryImmediate },
    Store { code: u8, memarg: MemoryImmediate },
    MemorySize { reserved: u32 },
    MemoryGrow { reserved: u32 },
    I32Const { value: i32 },
    I64Const { value: i64 },
    F32Const { value: Ieee32 },
    F64Const { value: Ieee64 },
    Numeric { code: u8 },
    TruncSat { code: u32 },
    MemoryInit { segment: u32, mem: u32 },
    DataDrop { segment: u32 },
    MemoryCopy { dst: u32, src: u32 },
    MemoryFill { mem: u32 },
    TableInit { segment: u32, table: u32 },
    ElemDrop { segment: u32 },
    TableCopy { dst: u32, src: u32 },
    TableGet { table: u32 },
    TableSet { table: u32 },
    TableGrow { table: u32 },
    TableSize { table: u32 },
    TableFill { table: u32 },
    /// SIMD loads and stores (prefix 0xfd): their sub-opcode and immediate.
    SimdMemory { code: u32, memarg: MemoryImmediate },
    /// SIMD loads and stores of one lane.
    SimdMemoryLane { code: u32, memarg: MemoryImmediate, lane: u8 },
    /// `v128.const`: the range of its sixteen bytes.
    V128Const { value: Range },
    /// `i8x16.shuffle`: the range of its sixteen lane indices.
    I8x16Shuffle { lanes: Range },
    /// Lane extraction and replacement.
    SimdLane { code: u32, lane: u8 },
    /// The SIMD operators without immediates.
    Simd { code: u32 },
    Atomic { code: u32, memarg: MemoryImmediate },
    AtomicFence { flags: u8 },
    RefNull,
    RefIsNull,
    RefFunc { function_index: u32 },
}

/// An import: module and field names (ranges of the input) and what is imported.
#[derive(Clone, Copy, Debug, PartialEq, Eq, Structural)]
pub struct Import {
    pub module: Range,
    pub field: Range,
    pub ty: ImportSectionEntryType,
}

/// An export: its name (a range of the input), kind and index.
#[derive(Clone, Copy, Debug, PartialEq, Eq, Structural)]
pub struct Export {
    pub field: Range,
    pub kind: ExternalKind,
    pub index: u32,
}

/// A global: its type and the range of its initializer expression,
/// `end` included.
#[derive(Clone, Copy, Debug, PartialEq, Eq, Structural)]
pub struct Global {
    pub ty: GlobalType,
    pub init_expr: Range,
}

/// Where an element segment goes: nowhere yet (a passive segment of
/// references of type `ty`), or into a table at an offset.
#[derive(Clone, Copy, Debug, PartialEq, Eq, Structural)]
pub enum ElementKind {
    Passive { ty: Type },
    Active { table_index: u32, init_expr: Range },
}

/// An element segment: where it goes, and the range holding its `count`
/// items. An active segment lists function indices; a passive one lists
/// one-operator expressions, `ref.func` of a function or `ref.null`.
#[derive(Clone, Copy, Debug, PartialEq, Eq, Structural)]
pub struct Element {
    pub kind: ElementKind,
    pub count: u32,
    pub items: Range,
}

#[derive(Clone, Copy, Debug, PartialEq, Eq, Structural)]
pub enum DataKind {
    Passive,
    Active { memory_index: u32, init_expr: Range },
}

/// A data segment: where it goes, and the range of its bytes.
#[derive(Clone, Copy, Debug, PartialEq, Eq, Structural)]
pub struct Data {
    pub kind: DataKind,
    pub data: Range,
}

/// The range of one function body, its size prefix excluded.
#[derive(Clone, Copy, Debug, PartialEq, Eq, Structural)]
pub struct FunctionBody {
    pub range: Range,
}

/// One field of a `producers` section: its name, and the range holding its
/// `count` (name, version) pairs of strings.
#[derive(Clone, Copy, Debug, PartialEq, Eq, Structural)]
pub struct ProducersField {
    pub name: Range,
    pub count: u32,
    pub values: Range,
}

/// One relocation of a `reloc.*` section: its type, the offset it patches,
/// the index of the symbol, and an addend for the types that have one
/// (memory addresses and offsets: 3, 4, 5, 8 and 9).
#[derive(Clone, Copy, Debug, PartialEq, Eq, Structural)]
pub struct RelocEntry {
    pub ty: u8,
    pub offset: u32,
    pub index: u32,
    pub addend: Option<i32>,
}

/// A function signature.
#[derive(Clone, Debug)]
pub struct FuncType {
    pub params: Vec<Type>,
    pub results: Vec<Type>,
}

/// The mathematical content of a signature.
pub struct FuncTypeView {
    pub params: Seq<Type>,
    pub results: Seq<Type>,
}

impl View for FuncType {
    type V = FuncTypeView;

    open spec fn view(&self) -> FuncTypeView {
        FuncTypeView { params: self.params@, results: self.results@ }
    }
}

impl Type {
    /// Value types proper, as opposed to the codes that only name block or
    /// function forms.
    pub open spec fn is_value_type(self) -> bool {
        !(self is Func || self is EmptyBlockType)
    }

    pub fn is_value_type_exec(&self) -> (r: bool)
        ensures
            r == self.is_value_type(),
    {
        !(*self == Type::Func || *self == Type::EmptyBlockType)
    }
}

} // verus!

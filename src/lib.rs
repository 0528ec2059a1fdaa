//! An event-driven parser and validator for WebAssembly binary modules.
//!
//! The decoder walks a complete module held in a byte slice and reports
//! what it finds as a stream of events; the validator type-checks each
//! function body against the module's declarations.
pub mod limits;
pub mod primitives;
pub mod binary_reader;
pub mod entries;
pub mod operators_validator;
pub mod parser;
pub mod readers;
pub mod validator;

pub use crate::binary_reader::{BinaryReader, SectionHeader};
pub use crate::operators_validator::{
    ModuleResources, OperatorValidator, OperatorValidatorConfig,
};
pub use crate::parser::{Parser, ParserInput, ParserState};
pub use crate::primitives::{
    BinaryReaderError, BrTable, Data, DataKind, Element, ElementKind, ErrorKind, Export,
    ExternalKind, FuncType, Global, GlobalType, Ieee32, Ieee64, Import, ImportSectionEntryType,
    MemoryImmediate, MemoryType, Operator, ProducersField, Range, RelocEntry, ResizableLimits, Result,
    SectionCode, TableType, Type, TypeOrFuncType,
};
pub use crate::readers::code_section::CodeSectionReader;
pub use crate::readers::data_section::DataSectionReader;
pub use crate::readers::element_section::ElementSectionReader;
pub use crate::readers::export_section::ExportSectionReader;
pub use crate::readers::function_section::FunctionSectionReader;
pub use crate::readers::global_section::GlobalSectionReader;
pub use crate::readers::import_section::ImportSectionReader;
pub use crate::readers::memory_section::MemorySectionReader;
pub use crate::readers::module::{ModuleReader, Section};
pub use crate::readers::table_section::TableSectionReader;
pub use crate::readers::type_section::TypeSectionReader;
pub use crate::validator::{
    validate, validate_function_body, ValidatingParser, ValidatingParserConfig,
};

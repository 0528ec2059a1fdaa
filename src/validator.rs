use vstd::prelude::*;

use crate::binary_reader::{
    spec_file_header, spec_func_type, spec_memory_type, spec_operator, spec_section_header,
    spec_table_type, spec_var_u32, BinaryReader,
};
use crate::readers::module::spec_section_end;
use crate::entries::spec_locals;
use crate::limits::{
    MAX_WASM_FUNCTION_LOCALS, MAX_WASM_FUNCTIONS, MAX_WASM_FUNCTION_SIZE, MAX_WASM_GLOBALS, MAX_WASM_MEMORIES,
    MAX_WASM_MEMORY_PAGES, MAX_WASM_TABLES, MAX_WASM_TABLE_ENTRIES, MAX_WASM_TYPES,
};
use crate::operators_validator::{
    copy_types, expand_locals, lemma_step_env, locals_total, read_index_list, ControlFrame,
    FrameKind, ModuleResources, OperatorValidator, OperatorValidatorConfig, VState,
};
use crate::parser::{Parser, ParserInput, ParserState};
use crate::primitives::{
    BinaryReaderError, DataKind, ElementKind, ErrorKind, ExternalKind, FuncType, FuncTypeView,
    GlobalType,
    ImportSectionEntryType, MemoryType, Operator, Range, ResizableLimits, SectionCode, TableType,
    Type, TypeOrFuncType,
};

verus! {

/// Options of a validating parse.
#[derive(Clone, Copy, Debug, PartialEq, Eq, Structural)]
pub struct ValidatingParserConfig {
    pub operator_config: OperatorValidatorConfig,
    /// Whether an imported global may be mutable.
    pub mutable_global_imports: bool,
}

/// The default options: the MVP, with imported mutable globals allowed.
pub open spec fn spec_default_config() -> ValidatingParserConfig {
    ValidatingParserConfig {
        operator_config: OperatorValidatorConfig {
            enable_threads: false,
            enable_reference_types: false,
            enable_simd: false,
            enable_bulk_memory: false,
            enable_multi_value: false,
            deterministic_only: false,
        },
        mutable_global_imports: true,
    }
}

pub fn default_config() -> (r: ValidatingParserConfig)
    ensures
        r == spec_default_config(),
{
    ValidatingParserConfig {
        operator_config: OperatorValidatorConfig {
            enable_threads: false,
            enable_reference_types: false,
            enable_simd: false,
            enable_bulk_memory: false,
            enable_multi_value: false,
            deterministic_only: false,
        },
        mutable_global_imports: true,
    }
}

/// The place of a non-custom section in the order the sections must come in.
pub open spec fn section_rank(code: SectionCode) -> u32 {
    match code {
        SectionCode::Custom { .. } => 0,
        SectionCode::Type => 1,
        SectionCode::Import => 2,
        SectionCode::Function => 3,
        SectionCode::Table => 4,
        SectionCode::Memory => 5,
        SectionCode::Global => 6,
        SectionCode::Export => 7,
        SectionCode::Start => 8,
        SectionCode::Element => 9,
        SectionCode::DataCount => 10,
        SectionCode::Code => 11,
        SectionCode::Data => 12,
    }
}

pub fn rank_of(code: SectionCode) -> (r: u32)
    ensures
        r == section_rank(code),
{
    match code {
        SectionCode::Custom { .. } => 0,
        SectionCode::Type => 1,
        SectionCode::Import => 2,
        SectionCode::Function => 3,
        SectionCode::Table => 4,
        SectionCode::Memory => 5,
        SectionCode::Global => 6,
        SectionCode::Export => 7,
        SectionCode::Start => 8,
        SectionCode::Element => 9,
        SectionCode::DataCount => 10,
        SectionCode::Code => 11,
        SectionCode::Data => 12,
    }
}

/// Whether a section of rank `rank` may follow the last one, of rank
/// `last`: each non-custom section at most once, in order.
pub open spec fn spec_section_order(last: u32, rank: u32) -> Result<(), ErrorKind> {
    if rank == 0 {
        Ok(())
    } else if rank == last {
        Err(ErrorKind::DuplicateSection)
    } else if rank < last {
        Err(ErrorKind::SectionOutOfOrder)
    } else {
        Ok(())
    }
}

pub fn check_section_order(last: u32, rank: u32) -> (r: Result<(), ErrorKind>)
    ensures
        r == spec_section_order(last, rank),
{
    if rank == 0 {
        Ok(())
    } else if rank == last {
        Err(ErrorKind::DuplicateSection)
    } else if rank < last {
        Err(ErrorKind::SectionOutOfOrder)
    } else {
        Ok(())
    }
}

/// Limits whose initial size and maximum lie within `max`, the maximum not
/// below the initial size.
pub open spec fn spec_limits(limits: ResizableLimits, max: u64) -> Result<(), ErrorKind> {
    match limits.maximum {
        Some(m) => if m < limits.initial {
            Err(ErrorKind::InvalidLimits)
        } else if m > max {
            Err(ErrorKind::LimitExceeded)
        } else {
            Ok(())
        },
        None => if limits.initial > max {
            Err(ErrorKind::LimitExceeded)
        } else {
            Ok(())
        },
    }
}

pub fn check_limits(limits: ResizableLimits, max: u64) -> (r: Result<(), ErrorKind>)
    ensures
        r == spec_limits(limits, max),
{
    match limits.maximum {
        Some(m) => {
            if m < limits.initial {
                Err(ErrorKind::InvalidLimits)
            } else if m as u64 > max {
                Err(ErrorKind::LimitExceeded)
            } else {
                Ok(())
            }
        },
        None => {
            if limits.initial as u64 > max {
                Err(ErrorKind::LimitExceeded)
            } else {
                Ok(())
            }
        },
    }
}

/// A memory limit whose maximum is below its initial size is invalid.
pub proof fn lemma_memory_max_below_initial(m: MemoryType, threads: bool)
    requires
        m.limits.maximum matches Some(max) && max < m.limits.initial,
    ensures
        spec_memory_type_check(m, threads) == Err::<(), ErrorKind>(ErrorKind::InvalidLimits),
{
}

/// A memory: limits in pages, and a shared memory only with threads and
/// a maximum.
pub open spec fn spec_memory_type_check(m: MemoryType, threads: bool) -> Result<(), ErrorKind> {
    match spec_limits(m.limits, MAX_WASM_MEMORY_PAGES as u64) {
        Err(e) => Err(e),
        Ok(()) => if m.shared && !threads {
            Err(ErrorKind::UnsupportedFeature)
        } else if m.shared && m.limits.maximum is None {
            Err(ErrorKind::InvalidLimits)
        } else {
            Ok(())
        },
    }
}

pub fn check_memory_type(m: MemoryType, threads: bool) -> (r: Result<(), ErrorKind>)
    ensures
        r == spec_memory_type_check(m, threads),
{
    match check_limits(m.limits, MAX_WASM_MEMORY_PAGES as u64) {
        Err(e) => Err(e),
        Ok(()) => {
            if m.shared && !threads {
                Err(ErrorKind::UnsupportedFeature)
            } else if m.shared && m.limits.maximum.is_none() {
                Err(ErrorKind::InvalidLimits)
            } else {
                Ok(())
            }
        },
    }
}

/// A table of function references (or, with reference types, any
/// references) within the entry limit.
pub open spec fn spec_table_type_check(t: TableType, reference_types: bool) -> Result<(), ErrorKind> {
    if !(t.element_type == Type::AnyFunc || (reference_types && t.element_type == Type::AnyRef)) {
        Err(ErrorKind::InvalidType)
    } else {
        spec_limits(t.limits, MAX_WASM_TABLE_ENTRIES as u64)
    }
}

pub fn check_table_type(t: TableType, reference_types: bool) -> (r: Result<(), ErrorKind>)
    ensures
        r == spec_table_type_check(t, reference_types),
{
    if !(t.element_type == Type::AnyFunc || (reference_types && t.element_type == Type::AnyRef)) {
        Err(ErrorKind::InvalidType)
    } else {
        check_limits(t.limits, MAX_WASM_TABLE_ENTRIES as u64)
    }
}

/// A signature of value types, with more than one result only under the
/// multi-value proposal.
pub open spec fn spec_func_type_check(params: Seq<Type>, results: Seq<Type>, multi_value: bool) -> Result<(), ErrorKind> {
    if exists|i: int| 0 <= i < params.len() && !(#[trigger] params[i]).is_value_type() {
        Err(ErrorKind::InvalidType)
    } else if exists|i: int| 0 <= i < results.len() && !(#[trigger] results[i]).is_value_type() {
        Err(ErrorKind::InvalidType)
    } else if results.len() > 1 && !multi_value {
        Err(ErrorKind::UnsupportedFeature)
    } else {
        Ok(())
    }
}

fn all_value_types(ts: &Vec<Type>) -> (r: bool)
    ensures
        r == (forall|i: int| 0 <= i < ts@.len() ==> (#[trigger] ts@[i]).is_value_type()),
{
    let mut i: usize = 0;
    while i < ts.len()
        invariant
            i <= ts@.len(),
            forall|j: int| 0 <= j < i ==> (#[trigger] ts@[j]).is_value_type(),
        decreases ts@.len() - i,
    {
        if ts[i] == Type::Func || ts[i] == Type::EmptyBlockType {
            return false;
        }
        i = i + 1;
    }
    true
}

pub fn check_func_type(t: &FuncType, multi_value: bool) -> (r: Result<(), ErrorKind>)
    ensures
        r == spec_func_type_check(t.params@, t.results@, multi_value),
{
    if !all_value_types(&t.params) {
        return Err(ErrorKind::InvalidType);
    }
    if !all_value_types(&t.results) {
        return Err(ErrorKind::InvalidType);
    }
    if t.results.len() > 1 && !multi_value {
        return Err(ErrorKind::UnsupportedFeature);
    }
    Ok(())
}

/// The type a constant operator produces in an initializer expression:
/// constants, `ref.null`, `ref.func`, and `global.get` of an imported
/// immutable global. Any other operator is not constant and fails with
/// `IllegalConstantExpr`; `global.set` is one of them, so in an initializer
/// it is reported as an illegal constant expression, not as a type mismatch.
pub open spec fn const_type(op: Operator, ctx: &ModuleResources) -> Result<Type, ErrorKind> {
    match op {
        Operator::I32Const { .. } => Ok(Type::I32),
        Operator::I64Const { .. } => Ok(Type::I64),
        Operator::F32Const { .. } => Ok(Type::F32),
        Operator::F64Const { .. } => Ok(Type::F64),
        Operator::RefNull => Ok(Type::AnyRef),
        Operator::RefFunc { function_index: f } => if f < ctx.functions@.len() {
            Ok(Type::AnyFunc)
        } else {
            Err(ErrorKind::IndexOutOfBounds)
        },
        Operator::GlobalGet { global_index: g } => if g >= ctx.imported_globals || g
            >= ctx.globals@.len() {
            Err(ErrorKind::IllegalConstantExpr)
        } else if ctx.globals@[g as int].mutable {
            Err(ErrorKind::IllegalConstantExpr)
        } else {
            Ok(ctx.globals@[g as int].content_type)
        },
        _ => Err(ErrorKind::IllegalConstantExpr),
    }
}

fn const_type_of(op: Operator, ctx: &ModuleResources) -> (r: Result<Type, ErrorKind>)
    ensures
        r == const_type(op, ctx),
{
    match op {
        Operator::I32Const { .. } => Ok(Type::I32),
        Operator::I64Const { .. } => Ok(Type::I64),
        Operator::F32Const { .. } => Ok(Type::F32),
        Operator::F64Const { .. } => Ok(Type::F64),
        Operator::RefNull => Ok(Type::AnyRef),
        Operator::RefFunc { function_index: f } => {
            if (f as usize) < ctx.functions.len() {
                Ok(Type::AnyFunc)
            } else {
                Err(ErrorKind::IndexOutOfBounds)
            }
        },
        Operator::GlobalGet { global_index: g } => {
            if g >= ctx.imported_globals || g as usize >= ctx.globals.len() {
                Err(ErrorKind::IllegalConstantExpr)
            } else if ctx.globals[g as usize].mutable {
                Err(ErrorKind::IllegalConstantExpr)
            } else {
                Ok(ctx.globals[g as usize].content_type)
            }
        },
        _ => Err(ErrorKind::IllegalConstantExpr),
    }
}

/// An initializer expression at `pos`: one constant operator of type
/// `expected`, then `end`.
pub open spec fn spec_const_expr(s: Seq<u8>, pos: int, ctx: &ModuleResources, expected: Type) -> Result<
    (),
    (ErrorKind, int),
> {
    match spec_operator(s, pos, 0) {
        Ok((op, p)) => if op == Operator::End {
            Err((ErrorKind::TypeMismatch, pos))
        } else {
            match const_type(op, ctx) {
                Ok(t) => match spec_operator(s, p, 0) {
                    Ok((op2, _)) => if op2 != Operator::End {
                        Err((ErrorKind::IllegalConstantExpr, p))
                    } else if t != expected {
                        Err((ErrorKind::TypeMismatch, pos))
                    } else {
                        Ok(())
                    },
                    Err(e) => Err(e),
                },
                Err(k) => Err((k, pos)),
            }
        },
        Err(e) => Err(e),
    }
}

/// In an initializer expression, `global.set` is not a constant operator.
pub proof fn lemma_set_global_not_constant(
    s: Seq<u8>,
    pos: int,
    ctx: &ModuleResources,
    expected: Type,
    g: u32,
)
    requires
        spec_operator(s, pos, 0) matches Ok((op, _)) && op == (Operator::GlobalSet { global_index: g }),
    ensures
        spec_const_expr(s, pos, ctx, expected) == Err::<(), (ErrorKind, int)>(
            (ErrorKind::IllegalConstantExpr, pos),
        ),
{
}

/// Checks the initializer expression at `start` of the module `code`.
pub fn check_init_expr(code: &[u8], start: usize, ctx: &ModuleResources, expected: Type) -> (r: Result<
    (),
    BinaryReaderError,
>)
    requires
        start <= code@.len(),
    ensures
        match spec_const_expr(code@, start as int, ctx, expected) {
            Ok(()) => r is Ok,
            Err((k, at)) => r == Err::<(), BinaryReaderError>(
                BinaryReaderError { kind: k, offset: at as usize },
            ),
        },
{
    let mut reader = BinaryReader::new(code);
    reader.position = start;
    let op = match reader.read_operator() {
        Ok(op) => op,
        Err(e) => {
            return Err(e);
        },
    };
    if op == Operator::End {
        return Err(BinaryReaderError { kind: ErrorKind::TypeMismatch, offset: start });
    }
    let t = match const_type_of(op, ctx) {
        Ok(t) => t,
        Err(k) => {
            return Err(BinaryReaderError { kind: k, offset: start });
        },
    };
    let second = reader.position;
    let op2 = match reader.read_operator() {
        Ok(op) => op,
        Err(e) => {
            return Err(e);
        },
    };
    if op2 != Operator::End {
        return Err(BinaryReaderError { kind: ErrorKind::IllegalConstantExpr, offset: second });
    }
    if t != expected {
        return Err(BinaryReaderError { kind: ErrorKind::TypeMismatch, offset: start });
    }
    Ok(())
}

/// Reports whether two byte ranges of `code` hold the same bytes; ranges
/// outside `code` hold none.
fn same_bytes(code: &[u8], a: Range, b: Range) -> (r: bool)
    ensures
        r ==> a.start <= a.end <= code@.len() && b.start <= b.end <= code@.len()
            && code@.subrange(a.start as int, a.end as int) == code@.subrange(b.start as int, b.end as int),
        (a.start <= a.end <= code@.len() && b.start <= b.end <= code@.len()
            && code@.subrange(a.start as int, a.end as int) == code@.subrange(b.start as int, b.end as int)) ==> r,
{
    if !(a.start <= a.end && a.end <= code.len() && b.start <= b.end && b.end <= code.len()) {
        return false;
    }
    if a.end - a.start != b.end - b.start {
        proof {
            assert(code@.subrange(a.start as int, a.end as int).len() != code@.subrange(b.start as int, b.end as int).len());
        }
        return false;
    }
    let n = a.end - a.start;
    let mut i: usize = 0;
    while i < n
        invariant
            a.start <= a.end <= code@.len(),
            b.start <= b.end <= code@.len(),
            n == a.end - a.start,
            n == b.end - b.start,
            i <= n,
            forall|j: int| 0 <= j < i ==> #[trigger] code@[a.start + j] == code@[b.start + j],
        decreases n - i,
    {
        if code[a.start + i] != code[b.start + i] {
            proof {
                assert(code@.subrange(a.start as int, a.end as int)[i as int] != code@.subrange(b.start as int, b.end as int)[i as int]);
            }
            return false;
        }
        i = i + 1;
    }
    proof {
        assert forall|j: int| 0 <= j < n implies code@.subrange(a.start as int, a.end as int)[j]
            == code@.subrange(b.start as int, b.end as int)[j] by {
            assert(code@[a.start + j] == code@[b.start + j]);
        }
        assert(code@.subrange(a.start as int, a.end as int) =~= code@.subrange(b.start as int, b.end as int));
    }
    true
}

/// A parser that also validates: it builds the module's context from the
/// entries it reads and type-checks every function body.
pub struct ValidatingParser<'a> {
    pub parser: Parser<'a>,
    pub resources: ModuleResources,
    pub config: ValidatingParserConfig,
    /// The rank of the last non-custom section, and of the current section.
    pub last_section: u32,
    pub current_section: u32,
    pub imported_functions: usize,
    /// Function bodies read so far.
    pub bodies: usize,
    pub validator: Option<OperatorValidator>,
    pub export_names: Vec<Range>,
    pub data_segments: u32,
    pub error: Option<BinaryReaderError>,
}

impl<'a> ValidatingParser<'a> {
    pub open spec fn wf(&self) -> bool {
        &&& self.parser.wf()
        &&& self.resources.wf()
        &&& self.validator matches Some(v) ==> v.wf()
    }

    /// The state a validating parse of `data` with the options `config`
    /// (the defaults when absent) starts in: nothing read, nothing known.
    pub open spec fn is_start(p: ValidatingParser<'a>, data: Seq<u8>, config: Option<ValidatingParserConfig>) -> bool {
        &&& p.wf()
        &&& p.error is None
        &&& p.parser.reader.buffer@ == data
        &&& p.parser.reader.position == 0
        &&& p.parser.phase is Start
        &&& p.config == match config {
            Some(c) => c,
            None => spec_default_config(),
        }
        &&& p.resources.types@.len() == 0
        &&& p.resources.functions@.len() == 0
        &&& p.resources.tables@.len() == 0
        &&& p.resources.memories@.len() == 0
        &&& p.resources.globals@.len() == 0
        &&& p.resources.imported_globals == 0
        &&& p.resources.element_count == 0
        &&& p.resources.data_count is None
        &&& p.last_section == 0
        &&& p.current_section == 0
        &&& p.imported_functions == 0
        &&& p.bodies == 0
        &&& p.validator is None
        &&& p.export_names@.len() == 0
        &&& p.data_segments == 0
    }

    /// `states` and `events` are a complete run of `read`: each step is one
    /// `read`, no event but the last is an error or the end of the module,
    /// and the last is one of the two.
    pub open spec fn is_run(states: Seq<ValidatingParser<'a>>, events: Seq<ParserState>) -> bool {
        &&& states.len() == events.len() + 1
        &&& events.len() > 0
        &&& forall|i: int|
            0 <= i < events.len() ==> Self::read_step(states[i], states[i + 1], #[trigger] events[i])
        &&& forall|i: int|
            0 <= i < events.len() - 1 ==> !(#[trigger] events[i] is Error || events[i] is EndWasm)
        &&& (events.last() is Error || events.last() is EndWasm)
    }

    pub fn new(data: &'a [u8], config: Option<ValidatingParserConfig>) -> (r: ValidatingParser<'a>)
        ensures
            Self::is_start(r, data@, config),
    {
        let config = match config {
            Some(c) => c,
            None => default_config(),
        };
        ValidatingParser {
            parser: Parser::new(data),
            resources: ModuleResources {
                types: Vec::new(),
                functions: Vec::new(),
                tables: Vec::new(),
                memories: Vec::new(),
                globals: Vec::new(),
                imported_globals: 0,
                element_count: 0,
                data_count: None,
            },
            config,
            last_section: 0,
            current_section: 0,
            imported_functions: 0,
            bodies: 0,
            validator: None,
            export_names: Vec::new(),
            data_segments: 0,
            error: None,
        }
    }

    /// Whether a signature may be declared: within the limit on types,
    /// and valid.
    pub open spec fn type_entry_check(&self, ft: FuncTypeView) -> Result<(), ErrorKind> {
        if self.resources.types@.len() >= MAX_WASM_TYPES {
            Err(ErrorKind::LimitExceeded)
        } else {
            spec_func_type_check(ft.params, ft.results, self.config.operator_config.enable_multi_value)
        }
    }

    /// Whether a function of signature `type_index` may be declared.
    pub open spec fn function_entry_check(&self, type_index: u32) -> Result<(), ErrorKind> {
        if type_index >= self.resources.types@.len() {
            Err(ErrorKind::IndexOutOfBounds)
        } else if self.resources.functions@.len() >= MAX_WASM_FUNCTIONS {
            Err(ErrorKind::LimitExceeded)
        } else {
            Ok(())
        }
    }

    /// Whether a table of type `t` may be declared.
    pub open spec fn table_entry_check(&self, t: TableType) -> Result<(), ErrorKind> {
        match spec_table_type_check(t, self.config.operator_config.enable_reference_types) {
            Err(k) => Err(k),
            Ok(()) => if self.resources.tables@.len() >= MAX_WASM_TABLES {
                Err(ErrorKind::LimitExceeded)
            } else {
                Ok(())
            },
        }
    }

    fn add_function(&mut self, type_index: u32) -> (r: Result<(), ErrorKind>)
        requires
            old(self).wf(),
        ensures
            final(self).wf(),
            final(self).parser == old(self).parser,
            final(self).error == old(self).error,
            r == old(self).function_entry_check(type_index),
    {
        if type_index as usize >= self.resources.types.len() {
            return Err(ErrorKind::IndexOutOfBounds);
        }
        if self.resources.functions.len() >= MAX_WASM_FUNCTIONS {
            return Err(ErrorKind::LimitExceeded);
        }
        self.resources.functions.push(type_index);
        Ok(())
    }

    fn add_table(&mut self, t: TableType) -> (r: Result<(), ErrorKind>)
        requires
            old(self).wf(),
        ensures
            final(self).wf(),
            final(self).parser == old(self).parser,
            final(self).error == old(self).error,
            r is Ok ==> spec_table_type_check(t, old(self).config.operator_config.enable_reference_types) is Ok,
            r == old(self).table_entry_check(t),
    {
        match check_table_type(t, self.config.operator_config.enable_reference_types) {
            Ok(()) => {},
            Err(k) => {
                return Err(k);
            },
        }
        if self.resources.tables.len() >= MAX_WASM_TABLES {
            return Err(ErrorKind::LimitExceeded);
        }
        self.resources.tables.push(t);
        Ok(())
    }

    /// Whether one more memory of type `m` may be declared: its type must be
    /// valid, and the module may hold only so many memories.
    pub open spec fn memory_entry_check(&self, m: MemoryType) -> Result<(), ErrorKind> {
        match spec_memory_type_check(m, self.config.operator_config.enable_threads) {
            Err(k) => Err(k),
            Ok(()) => if self.resources.memories@.len() >= MAX_WASM_MEMORIES {
                Err(ErrorKind::LimitExceeded)
            } else {
                Ok(())
            },
        }
    }

    fn add_memory(&mut self, m: MemoryType) -> (r: Result<(), ErrorKind>)
        requires
            old(self).wf(),
        ensures
            final(self).wf(),
            final(self).parser == old(self).parser,
            final(self).error == old(self).error,
            r is Ok ==> spec_memory_type_check(m, old(self).config.operator_config.enable_threads) is Ok,
            r == old(self).memory_entry_check(m),
    {
        match check_memory_type(m, self.config.operator_config.enable_threads) {
            Ok(()) => {},
            Err(k) => {
                return Err(k);
            },
        }
        if self.resources.memories.len() >= MAX_WASM_MEMORIES {
            return Err(ErrorKind::LimitExceeded);
        }
        self.resources.memories.push(m);
        Ok(())
    }

    fn add_global(&mut self, g: GlobalType, imported: bool) -> (r: Result<(), ErrorKind>)
        requires
            old(self).wf(),
        ensures
            final(self).wf(),
            final(self).parser == old(self).parser,
            final(self).error == old(self).error,
    {
        if !g.content_type.is_value_type_exec() {
            return Err(ErrorKind::InvalidType);
        }
        if self.resources.globals.len() >= MAX_WASM_GLOBALS {
            return Err(ErrorKind::LimitExceeded);
        }
        if imported {
            if g.mutable && !self.config.mutable_global_imports {
                return Err(ErrorKind::UnsupportedFeature);
            }
            if self.resources.imported_globals as usize != self.resources.globals.len() {
                return Err(ErrorKind::SectionOutOfOrder);
            }
            self.resources.imported_globals = self.resources.imported_globals + 1;
        }
        self.resources.globals.push(g);
        Ok(())
    }
}

impl<'a> ValidatingParser<'a> {
    fn check_import(&mut self, ty: ImportSectionEntryType) -> (r: Result<(), ErrorKind>)
        requires
            old(self).wf(),
        ensures
            final(self).wf(),
            final(self).parser == old(self).parser,
            final(self).error == old(self).error,
    {
        match ty {
            ImportSectionEntryType::Function(i) => {
                match self.add_function(i) {
                    Ok(()) => {},
                    Err(k) => {
                        return Err(k);
                    },
                }
                self.imported_functions = self.resources.functions.len();
                Ok(())
            },
            ImportSectionEntryType::Table(t) => self.add_table(t),
            ImportSectionEntryType::Memory(m) => self.add_memory(m),
            ImportSectionEntryType::Global(g) => self.add_global(g, true),
        }
    }

    fn check_export(&mut self, field: Range, kind: ExternalKind, index: u32) -> (r: Result<(), ErrorKind>)
        requires
            old(self).wf(),
        ensures
            final(self).wf(),
            final(self).parser == old(self).parser,
            final(self).error == old(self).error,
    {
        let n = match kind {
            ExternalKind::Function => self.resources.functions.len(),
            ExternalKind::Table => self.resources.tables.len(),
            ExternalKind::Memory => self.resources.memories.len(),
            ExternalKind::Global => self.resources.globals.len(),
        };
        if index as usize >= n {
            return Err(ErrorKind::IndexOutOfBounds);
        }
        let code = self.parser.reader.buffer;
        let mut i: usize = 0;
        while i < self.export_names.len()
            invariant
                i <= self.export_names@.len(),
                self.wf(),
                self.parser == old(self).parser,
                self.error == old(self).error,
            decreases self.export_names@.len() - i,
        {
            if same_bytes(code, self.export_names[i], field) {
                return Err(ErrorKind::DuplicateExportName);
            }
            i = i + 1;
        }
        self.export_names.push(field);
        Ok(())
    }

    fn check_start(&self, f: u32) -> (r: Result<(), ErrorKind>)
        requires
            self.wf(),
    {
        if f as usize >= self.resources.functions.len() {
            return Err(ErrorKind::IndexOutOfBounds);
        }
        let t = &self.resources.types[self.resources.functions[f as usize] as usize];
        if t.params.len() != 0 || t.results.len() != 0 {
            return Err(ErrorKind::TypeMismatch);
        }
        Ok(())
    }

    fn init_expr(&self, start: usize, expected: Type) -> (r: Result<(), ErrorKind>)
        requires
            self.wf(),
    {
        if start > self.parser.reader.buffer.len() {
            return Err(ErrorKind::UnexpectedEof);
        }
        match check_init_expr(self.parser.reader.buffer, start, &self.resources, expected) {
            Ok(()) => Ok(()),
            Err(e) => Err(e.kind),
        }
    }

    /// The items of a passive element segment name existing functions.
    fn check_passive_items(&self, start: usize, count: u32) -> (r: Result<(), ErrorKind>)
        requires
            self.wf(),
    {
        let code = self.parser.reader.buffer;
        if start > code.len() {
            return Err(ErrorKind::UnexpectedEof);
        }
        let mut reader = BinaryReader::new(code);
        reader.position = start;
        let mut i: u32 = 0;
        while i < count
            invariant
                reader.wf(),
                i <= count,
            decreases count - i,
        {
            match reader.read_elem_item() {
                Ok(Some(f)) => {
                    if f as usize >= self.resources.functions.len() {
                        return Err(ErrorKind::IndexOutOfBounds);
                    }
                },
                Ok(None) => {},
                Err(e) => {
                    return Err(e.kind);
                },
            }
            i = i + 1;
        }
        Ok(())
    }

    /// Checks an entry of a module section against what came before it.
    fn check_entry(&mut self, ev: &ParserState) -> (r: Result<(), ErrorKind>)
        requires
            old(self).wf(),
        ensures
            final(self).wf(),
            final(self).parser == old(self).parser,
            final(self).error == old(self).error,
            ev matches ParserState::MemorySectionEntry(m) ==> r == old(self).memory_entry_check(*m),
            ev matches ParserState::TypeSectionEntry(ft) ==> r == old(self).type_entry_check(ft@),
            ev matches ParserState::FunctionSectionEntry(t) ==> r == old(self).function_entry_check(*t),
            ev matches ParserState::TableSectionEntry(t) ==> r == old(self).table_entry_check(*t),
    {
        match ev {
            ParserState::TypeSectionEntry(ft) => {
                if self.resources.types.len() >= MAX_WASM_TYPES {
                    return Err(ErrorKind::LimitExceeded);
                }
                match check_func_type(ft, self.config.operator_config.enable_multi_value) {
                    Ok(()) => {},
                    Err(k) => {
                        return Err(k);
                    },
                }
                let copy = FuncType { params: copy_types(&ft.params), results: copy_types(&ft.results) };
                self.resources.types.push(copy);
                Ok(())
            },
            ParserState::ImportSectionEntry(imp) => self.check_import(imp.ty),
            ParserState::FunctionSectionEntry(i) => self.add_function(*i),
            ParserState::TableSectionEntry(t) => self.add_table(*t),
            ParserState::MemorySectionEntry(m) => self.add_memory(*m),
            ParserState::GlobalSectionEntry(g) => {
                match self.init_expr(g.init_expr.start, g.ty.content_type) {
                    Ok(()) => {},
                    Err(k) => {
                        return Err(k);
                    },
                }
                self.add_global(g.ty, false)
            },
            ParserState::ExportSectionEntry(e) => self.check_export(e.field, e.kind, e.index),
            ParserState::StartSectionEntry(f) => self.check_start(*f),
            ParserState::ElementSectionEntry(el) => {
                match el.kind {
                    ElementKind::Active { table_index, init_expr } => {
                        if table_index as usize >= self.resources.tables.len() {
                            return Err(ErrorKind::IndexOutOfBounds);
                        }
                        match self.init_expr(init_expr.start, Type::I32) {
                            Ok(()) => {},
                            Err(k) => {
                                return Err(k);
                            },
                        }
                        let items = match read_index_list(self.parser.reader.buffer, el.items.start, el.count) {
                            Ok(items) => items,
                            Err(k) => {
                                return Err(k);
                            },
                        };
                        let mut i: usize = 0;
                        while i < items.len()
                            invariant
                                i <= items@.len(),
                                ev is ElementSectionEntry,
                                self.wf(),
                                self.parser == old(self).parser,
                                self.error == old(self).error,
                            decreases items@.len() - i,
                        {
                            if items[i] as usize >= self.resources.functions.len() {
                                return Err(ErrorKind::IndexOutOfBounds);
                            }
                            i = i + 1;
                        }
                    },
                    ElementKind::Passive { ty } => {
                        if !self.config.operator_config.enable_bulk_memory {
                            return Err(ErrorKind::UnsupportedFeature);
                        }
                        if ty != Type::AnyFunc {
                            return Err(ErrorKind::InvalidType);
                        }
                        match self.check_passive_items(el.items.start, el.count) {
                            Ok(()) => {},
                            Err(k) => {
                                return Err(k);
                            },
                        }
                    },
                }
                if self.resources.element_count < u32::MAX {
                    self.resources.element_count = self.resources.element_count + 1;
                }
                Ok(())
            },
            ParserState::DataSectionEntry(d) => {
                match d.kind {
                    DataKind::Active { memory_index, init_expr } => {
                        if memory_index as usize >= self.resources.memories.len() {
                            return Err(ErrorKind::IndexOutOfBounds);
                        }
                        match self.init_expr(init_expr.start, Type::I32) {
                            Ok(()) => {},
                            Err(k) => {
                                return Err(k);
                            },
                        }
                    },
                    DataKind::Passive => {
                        if !self.config.operator_config.enable_bulk_memory {
                            return Err(ErrorKind::UnsupportedFeature);
                        }
                    },
                }
                if self.data_segments == u32::MAX {
                    return Err(ErrorKind::LimitExceeded);
                }
                self.data_segments = self.data_segments + 1;
                Ok(())
            },
            ParserState::DataCountSectionEntry(n) => {
                self.resources.data_count = Some(*n);
                Ok(())
            },
            _ => Ok(()),
        }
    }

    /// The data count section, when present, counts the data segments.
    fn check_data_count(&self) -> (r: Result<(), ErrorKind>) {
        match self.resources.data_count {
            Some(n) => {
                if n != self.data_segments {
                    Err(ErrorKind::DataCountMismatch)
                } else {
                    Ok(())
                }
            },
            None => Ok(()),
        }
    }

    /// Checks the events of function bodies and the ends of sections and of
    /// the module.
    fn check_code(&mut self, ev: &ParserState, pos: usize) -> (r: Result<(), ErrorKind>)
        requires
            old(self).wf(),
        ensures
            final(self).wf(),
            final(self).parser == old(self).parser,
            final(self).error == old(self).error,
            ev matches ParserState::CodeOperator(op) ==> (old(self).validator matches Some(v) ==> (
            match v.spec_step(*op, &old(self).resources, old(self).parser.reader.buffer@) {
                Ok(_) => r is Ok,
                Err(k) => r == Err::<(), ErrorKind>(k),
            })),
    {
        match ev {
            ParserState::BeginFunctionBody { range } => {
                if range.end < range.start || range.end - range.start > MAX_WASM_FUNCTION_SIZE {
                    return Err(ErrorKind::LimitExceeded);
                }
                if self.bodies >= self.resources.functions.len()
                    || self.imported_functions > self.resources.functions.len() - self.bodies {
                    return Err(ErrorKind::BadCodeSection);
                }
                Ok(())
            },
            ParserState::FunctionBodyLocals { locals } => {
                if self.bodies >= self.resources.functions.len()
                    || self.imported_functions >= self.resources.functions.len() - self.bodies {
                    return Err(ErrorKind::BadCodeSection);
                }
                let f = self.imported_functions + self.bodies;
                let t = self.resources.functions[f];
                let v = match OperatorValidator::new(
                    &self.resources.types[t as usize],
                    locals,
                    self.config.operator_config,
                ) {
                    Ok(v) => v,
                    Err(k) => {
                        return Err(k);
                    },
                };
                self.validator = Some(v);
                Ok(())
            },
            ParserState::CodeOperator(op) => {
                let code = self.parser.reader.buffer;
                let mut v = match self.validator.take() {
                    Some(v) => v,
                    None => {
                        return Err(ErrorKind::TypeMismatch);
                    },
                };
                let r = v.process_operator(*op, &self.resources, code);
                if r.is_ok() {
                    self.validator = Some(v);
                }
                r
            },
            ParserState::EndFunctionBody => {
                let finished = match &self.validator {
                    Some(v) => v.is_finished(),
                    None => false,
                };
                if !finished {
                    return Err(ErrorKind::TypeMismatch);
                }
                self.validator = None;
                if self.bodies < usize::MAX {
                    self.bodies = self.bodies + 1;
                }
                Ok(())
            },
            ParserState::EndSection => {
                if self.current_section == 11 && (self.imported_functions > self.resources.functions.len()
                    || self.resources.functions.len() - self.imported_functions != self.bodies) {
                    return Err(ErrorKind::BadCodeSection);
                }
                if self.current_section == 12 {
                    return self.check_data_count();
                }
                Ok(())
            },
            ParserState::EndWasm => {
                if self.imported_functions > self.resources.functions.len()
                    || self.resources.functions.len() - self.imported_functions != self.bodies {
                    return Err(ErrorKind::BadCodeSection);
                }
                self.check_data_count()
            },
            _ => Ok(()),
        }
    }

    /// Checks one event; `pos` is where the parser stood before reading it,
    /// which for an operator is its opcode.
    fn check_event(&mut self, ev: &ParserState, pos: usize) -> (r: Result<(), BinaryReaderError>)
        requires
            old(self).wf(),
        ensures
            final(self).wf(),
            final(self).parser == old(self).parser,
            final(self).error == old(self).error,
            (ev is BeginWasm || ev is Error) ==> r is Ok,
            ev matches ParserState::CodeOperator(op) ==> (old(self).validator matches Some(v) ==> (
            match v.spec_step(*op, &old(self).resources, old(self).parser.reader.buffer@) {
                Ok(_) => r is Ok,
                Err(k) => r == Err::<(), BinaryReaderError>(BinaryReaderError { kind: k, offset: pos }),
            })),
            ev matches ParserState::BeginSection { code, .. } ==> (match spec_section_order(
                old(self).last_section,
                section_rank(*code),
            ) {
                Ok(()) => r is Ok,
                Err(k) => r == Err::<(), BinaryReaderError>(BinaryReaderError { kind: k, offset: pos }),
            }),
            ev matches ParserState::MemorySectionEntry(m) ==> match old(self).memory_entry_check(*m) {
                Ok(()) => r is Ok,
                Err(k) => r == Err::<(), BinaryReaderError>(BinaryReaderError { kind: k, offset: pos }),
            },
            ev matches ParserState::TypeSectionEntry(ft) ==> match old(self).type_entry_check(ft@) {
                Ok(()) => r is Ok,
                Err(k) => r == Err::<(), BinaryReaderError>(BinaryReaderError { kind: k, offset: pos }),
            },
            ev matches ParserState::FunctionSectionEntry(t) ==> match old(self).function_entry_check(*t) {
                Ok(()) => r is Ok,
                Err(k) => r == Err::<(), BinaryReaderError>(BinaryReaderError { kind: k, offset: pos }),
            },
            ev matches ParserState::TableSectionEntry(t) ==> match old(self).table_entry_check(*t) {
                Ok(()) => r is Ok,
                Err(k) => r == Err::<(), BinaryReaderError>(BinaryReaderError { kind: k, offset: pos }),
            },
    {
        let checked = match ev {
            ParserState::BeginSection { code, .. } => {
                let rank = rank_of(*code);
                match check_section_order(self.last_section, rank) {
                    Ok(()) => {
                        if rank != 0 {
                            self.last_section = rank;
                        }
                        self.current_section = rank;
                        Ok(())
                    },
                    Err(k) => Err(k),
                }
            },
            ParserState::BeginFunctionBody { .. } | ParserState::FunctionBodyLocals { .. }
            | ParserState::CodeOperator(_) | ParserState::EndFunctionBody | ParserState::EndSection
            | ParserState::EndWasm => self.check_code(ev, pos),
            ParserState::BeginWasm { .. } | ParserState::Error(_) | ParserState::SectionRawData(_) => Ok(()),
            _ => self.check_entry(ev),
        };
        match checked {
            Ok(()) => Ok(()),
            Err(kind) => Err(BinaryReaderError { kind, offset: pos }),
        }
    }

    /// What one `read` does: the step from `old` to `new` reporting `r`.
    pub open spec fn read_step(old: ValidatingParser<'a>, new: ValidatingParser<'a>, r: ParserState) -> bool {
        let s = old.parser.reader.buffer@;
        let pos = old.parser.reader.position;
        &&& new.wf()
        &&& new.parser.reader.buffer == old.parser.reader.buffer
        // A fault is reported now and by every later call.
        &&& old.error matches Some(e) ==> r == ParserState::Error(e) && new.error == old.error
        &&& r matches ParserState::Error(e) ==> new.error == Some(e)
        &&& !(r is Error) ==> new.error == old.error
        // Events that pass the checks are the parser's.
        &&& (old.error is None && !(r is Error)) ==> Parser::steps(
            old.parser,
            new.parser,
            ParserInput::Default,
            r,
        )
        &&& (old.error is None && old.parser.phase is Start) ==> Parser::steps(
            old.parser,
            new.parser,
            ParserInput::Default,
            r,
        )
        &&& (old.error is None && !(r is Error || r is EndWasm)) ==> Parser::progress(
            old.parser,
            new.parser,
        )
        // Non-custom sections come at most once each, in order.
        &&& (old.error is None && old.parser.phase is Between && pos < s.len()) ==> (
        spec_section_header(s, pos as int, 0) matches Ok((h, p)) ==> (spec_section_end(s, h, p) is Ok
            ==> match spec_section_order(old.last_section, section_rank(h.code)) {
            Ok(()) => r is BeginSection,
            Err(k) => r == ParserState::Error(BinaryReaderError { kind: k, offset: pos }),
        }))
        // Signatures, functions and tables are checked as they are declared.
        &&& (old.error is None && old.parser.phase is Entries && old.parser.section == Some(
            SectionCode::Type,
        ) && old.parser.entries_left > 0) ==> (spec_func_type(s, pos as int) matches Ok((ft, p))
            ==> (p <= old.parser.section_end ==> match old.type_entry_check(ft) {
            Ok(()) => r matches ParserState::TypeSectionEntry(x) && x@ == ft,
            Err(k) => r == ParserState::Error(BinaryReaderError { kind: k, offset: pos }),
        }))
        &&& (old.error is None && old.parser.phase is Entries && old.parser.section == Some(
            SectionCode::Function,
        ) && old.parser.entries_left > 0) ==> (spec_var_u32(s, pos as int) matches Ok((t, p))
            ==> (p <= old.parser.section_end ==> match old.function_entry_check(t) {
            Ok(()) => r == ParserState::FunctionSectionEntry(t),
            Err(k) => r == ParserState::Error(BinaryReaderError { kind: k, offset: pos }),
        }))
        &&& (old.error is None && old.parser.phase is Entries && old.parser.section == Some(
            SectionCode::Table,
        ) && old.parser.entries_left > 0) ==> (spec_table_type(s, pos as int) matches Ok((t, p))
            ==> (p <= old.parser.section_end ==> match old.table_entry_check(t) {
            Ok(()) => r == ParserState::TableSectionEntry(t),
            Err(k) => r == ParserState::Error(BinaryReaderError { kind: k, offset: pos }),
        }))
        // A memory entry is checked against the limits of a memory.
        &&& (old.error is None && old.parser.phase is Entries && old.parser.section == Some(
            SectionCode::Memory,
        ) && old.parser.entries_left > 0) ==> (spec_memory_type(s, pos as int) matches Ok((m, p))
            ==> (p <= old.parser.section_end ==> match old.memory_entry_check(m) {
            Ok(()) => r == ParserState::MemorySectionEntry(m),
            Err(k) => r == ParserState::Error(BinaryReaderError { kind: k, offset: pos }),
        }))
        // An operator the parser decodes is handed to the function's
        // validator, and any fault it finds is reported at the opcode.
        &&& (old.error is None && old.parser.phase is Operators && !(new.parser.phase is Errored)
            && old.validator is Some) ==> (spec_operator(s, pos as int, 0) matches Ok((op, _))
            ==> match old.validator->Some_0.spec_step(op, &old.resources, s) {
            Ok(_) => r == ParserState::CodeOperator(op),
            Err(k) => r == ParserState::Error(BinaryReaderError { kind: k, offset: pos }),
        })
    }

    /// Reads and checks the next event. A fault of the module, found by the
    /// parser or by the checks, is reported now and by every later call.
    pub fn read(&mut self) -> (r: ParserState)
        requires
            old(self).wf(),
        ensures
            Self::read_step(*old(self), *final(self), r),
    {
        if let Some(e) = self.error {
            return ParserState::Error(e);
        }
        let pos = self.parser.reader.position;
        let ev = self.parser.read();
        match self.check_event(&ev, pos) {
            Ok(()) => {
                if let ParserState::Error(e) = ev {
                    self.error = Some(e);
                }
                ev
            },
            Err(e) => {
                self.error = Some(e);
                self.validator = None;
                ParserState::Error(e)
            },
        }
    }
}

/// Validates a whole module: `Ok` when a run of `read` from the start
/// reaches the end of the module, else the first fault the run reports. A
/// bad header is that first fault.
pub fn validate<'a>(bytes: &'a [u8], config: Option<ValidatingParserConfig>) -> (r: Result<
    (),
    BinaryReaderError,
>)
    ensures
        exists|states: Seq<ValidatingParser<'a>>, events: Seq<ParserState>|
            #[trigger] ValidatingParser::is_run(states, events) && ValidatingParser::is_start(
                states[0],
                bytes@,
                config,
            ) && (r is Ok <==> events.last() is EndWasm) && (r matches Err(e) ==> events.last()
                == ParserState::Error(e)),
        spec_file_header(bytes@, 0) matches Err((k, at)) ==> r == Err::<(), BinaryReaderError>(
            BinaryReaderError { kind: k, offset: at as usize },
        ),
        r is Ok ==> spec_file_header(bytes@, 0) is Ok,
{
    let mut p = ValidatingParser::new(bytes, config);
    let ghost mut states: Seq<ValidatingParser<'a>> = seq![p];
    let ghost mut events: Seq<ParserState> = seq![];
    loop
        invariant
            p.wf(),
            p.error is None,
            p.parser.reader.buffer@ == bytes@,
            states.len() == events.len() + 1,
            states.last() == p,
            ValidatingParser::is_start(states[0], bytes@, config),
            forall|i: int|
                0 <= i < events.len() ==> ValidatingParser::read_step(
                    states[i],
                    states[i + 1],
                    #[trigger] events[i],
                ),
            forall|i: int| 0 <= i < events.len() ==> !(#[trigger] events[i] is Error || events[i] is EndWasm),
            events.len() == 0 ==> p.parser.phase is Start,
            events.len() > 0 ==> spec_file_header(bytes@, 0) is Ok,
        decreases p.parser.remaining(), p.parser.entries_left, p.parser.phase.rank(),
    {
        let ev = p.read();
        proof {
            states = states.push(p);
            events = events.push(ev);
        }
        match ev {
            ParserState::Error(e) => {
                proof {
                    assert(events.last() == ParserState::Error(e));
                    assert(ValidatingParser::is_run(states, events));
                }
                return Err(e);
            },
            ParserState::EndWasm => {
                proof {
                    assert(ValidatingParser::is_run(states, events));
                }
                return Ok(());
            },
            _ => {},
        }
    }
}

/// Validating the operators of a body from `pos` on, the stacks standing at
/// `st`: each operator is decoded and checked in turn; the `end` that closes
/// the function's own block must be the body's last byte, and leaves both
/// stacks empty. A fault comes with the offset of its operator.
pub open spec fn spec_body_run(
    v: OperatorValidator,
    st: VState,
    ctx: &ModuleResources,
    s: Seq<u8>,
    pos: int,
) -> core::result::Result<(), (ErrorKind, int)>
    decreases s.len() - pos,
{
    match spec_operator(s, pos, 0) {
        Err(e) => Err(e),
        Ok((op, p)) => match v.spec_step_from(st, op, ctx, s) {
            Err(k) => Err((k, pos)),
            Ok(st2) => if st2.frames.len() == 0 {
                if p != s.len() {
                    Err((ErrorKind::BadCodeSection, p))
                } else if st2.stack.len() != 0 {
                    // Not reached: closing the function's block leaves no
                    // operands.
                    Err((ErrorKind::TypeMismatch, pos))
                } else {
                    Ok(())
                }
            } else if pos < p <= s.len() {
                spec_body_run(v, st2, ctx, s, p)
            } else {
                // Not reached: decoding an operator consumes input.
                Err((ErrorKind::UnexpectedEof, pos))
            },
        },
    }
}

/// `r` is the run's outcome `d`, its fault placed at its offset.
pub open spec fn body_result(r: Result<(), BinaryReaderError>, d: core::result::Result<(), (ErrorKind, int)>) -> bool {
    match d {
        Ok(()) => r is Ok,
        Err((k, at)) => r == Err::<(), BinaryReaderError>(BinaryReaderError { kind: k, offset: at as usize }),
    }
}

/// The stacks a function body starts with: no operands, the function's own
/// block open.
pub open spec fn initial_stacks() -> VState {
    VState {
        stack: seq![],
        frames: seq![
            ControlFrame {
                kind: FrameKind::Function,
                block_type: TypeOrFuncType::Type(Type::EmptyBlockType),
                height: 0,
                unreachable: false,
            },
        ],
    }
}

/// The run reads of the validator only its locals, results and options.
pub proof fn lemma_body_run_env(
    a: &OperatorValidator,
    b: &OperatorValidator,
    st: VState,
    ctx: &ModuleResources,
    s: Seq<u8>,
    pos: int,
)
    requires
        a.locals@ == b.locals@,
        a.results@ == b.results@,
        a.config == b.config,
    ensures
        spec_body_run(*a, st, ctx, s, pos) == spec_body_run(*b, st, ctx, s, pos),
    decreases s.len() - pos,
{
    match spec_operator(s, pos, 0) {
        Ok((op, p)) => {
            lemma_step_env(a, b, st, op, ctx, s);
            match a.spec_step_from(st, op, ctx, s) {
                Ok(st2) => {
                    if st2.frames.len() != 0 && pos < p <= s.len() {
                        lemma_body_run_env(a, b, st2, ctx, s, p);
                    }
                },
                Err(_) => {},
            }
        },
        Err(_) => {},
    }
}

/// Runs the validator over the operators of `bytes` from the cursor on.
fn run_body(v: &mut OperatorValidator, reader: &mut BinaryReader, resources: &ModuleResources, bytes: &[u8]) -> (r: Result<
    (),
    BinaryReaderError,
>)
    requires
        old(v).wf(),
        old(v).frames@.len() > 0,
        old(reader).wf(),
        old(reader).base_offset == 0,
        old(reader).buffer@ == bytes@,
        resources.wf(),
    ensures
        body_result(r, spec_body_run(*old(v), old(v).state(), resources, bytes@, old(reader).position as int)),
{
    let ghost v0 = *v;
    loop
        invariant
            reader.wf(),
            reader.base_offset == 0,
            reader.buffer@ == bytes@,
            v.wf(),
            v.frames@.len() > 0,
            v.locals@ == v0.locals@,
            v.results@ == v0.results@,
            v.config == v0.config,
            resources.wf(),
            spec_body_run(v0, v.state(), resources, bytes@, reader.position as int) == spec_body_run(
                v0,
                v0.state(),
                resources,
                bytes@,
                old(reader).position as int,
            ),
            v0 == *old(v),
        decreases reader.buffer@.len() - reader.position,
    {
        let pos = reader.position;
        let op = match reader.read_operator() {
            Ok(op) => op,
            Err(e) => {
                return Err(e);
            },
        };
        proof {
            lemma_step_env(&*v, &v0, v.state(), op, resources, bytes@);
        }
        match v.process_operator(op, resources, bytes) {
            Ok(()) => {},
            Err(kind) => {
                return Err(BinaryReaderError { kind, offset: pos });
            },
        }
        if v.is_finished() {
            if !reader.eof() {
                return Err(
                    BinaryReaderError { kind: ErrorKind::BadCodeSection, offset: reader.position },
                );
            }
            return Ok(());
        }
    }
}

/// Validates one function body, given as its bytes without the size
/// prefix, as the body of function `func_index` of `resources`: the local
/// declarations, then the operators run through the function's validator.
pub fn validate_function_body(
    bytes: &[u8],
    func_index: u32,
    resources: &ModuleResources,
    config: OperatorValidatorConfig,
) -> (r: Result<(), BinaryReaderError>)
    requires
        resources.wf(),
    ensures
        func_index >= resources.functions@.len() ==> r == Err::<(), BinaryReaderError>(
            BinaryReaderError { kind: ErrorKind::IndexOutOfBounds, offset: 0 },
        ),
        func_index < resources.functions@.len() ==> match spec_locals(bytes@, 0) {
            Err((k, at)) => r == Err::<(), BinaryReaderError>(
                BinaryReaderError { kind: k, offset: at as usize },
            ),
            Ok((locals, p)) => if locals_total(locals) > MAX_WASM_FUNCTION_LOCALS {
                r == Err::<(), BinaryReaderError>(
                    BinaryReaderError { kind: ErrorKind::LimitExceeded, offset: p as usize },
                )
            } else {
                forall|v: OperatorValidator|
                    v.locals@ == resources.func_sig(func_index as int).0 + expand_locals(locals)
                        && v.results@ == resources.func_sig(func_index as int).1 && v.config == config
                        ==> body_result(r, #[trigger] spec_body_run(v, initial_stacks(), resources, bytes@, p))
            },
        },
{
    if func_index as usize >= resources.functions.len() {
        return Err(BinaryReaderError { kind: ErrorKind::IndexOutOfBounds, offset: 0 });
    }
    let mut reader = BinaryReader::new(bytes);
    let locals = match reader.read_locals() {
        Ok(l) => l,
        Err(e) => {
            return Err(e);
        },
    };
    let t = resources.functions[func_index as usize];
    let mut v = match OperatorValidator::new(&resources.types[t as usize], &locals, config) {
        Ok(v) => v,
        Err(kind) => {
            return Err(BinaryReaderError { kind, offset: reader.position });
        },
    };
    let ghost v0 = v;
    proof {
        assert(v.state().stack =~= initial_stacks().stack);
        assert(v.state().frames =~= initial_stacks().frames);
    }
    let r = run_body(&mut v, &mut reader, resources, bytes);
    proof {
        assert forall|w: OperatorValidator|
            w.locals@ == resources.func_sig(func_index as int).0 + expand_locals(locals@)
                && w.results@ == resources.func_sig(func_index as int).1 && w.config == config
                implies body_result(r, #[trigger] spec_body_run(w, initial_stacks(), resources, bytes@, reader_start(bytes@))) by {
            lemma_body_run_env(&w, &v0, initial_stacks(), resources, bytes@, reader_start(bytes@));
        }
    }
    r
}

/// Where the operators of a body start: after its local declarations.
pub open spec fn reader_start(s: Seq<u8>) -> int {
    spec_locals(s, 0)->Ok_0.1
}

} // verus!

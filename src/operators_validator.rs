use vstd::prelude::*;

use crate::binary_reader::{
    leb_scan, lemma_repeat_err, simd_class, simd_class_of, simd_lanes, simd_lanes_of, spec_repeat,
    spec_var_u32, var_u32_item, BinaryReader,
};
use crate::limits::MAX_WASM_FUNCTION_LOCALS;
use crate::primitives::{
    BrTable, ErrorKind, FuncType, GlobalType, MemoryType, Operator, TableType, Type,
    TypeOrFuncType,
};

verus! {

/// The proposals whose operators and types the validator accepts.
#[derive(Clone, Copy, Debug, PartialEq, Eq, Structural)]
pub struct OperatorValidatorConfig {
    pub enable_threads: bool,
    pub enable_reference_types: bool,
    pub enable_simd: bool,
    pub enable_bulk_memory: bool,
    pub enable_multi_value: bool,
    pub deterministic_only: bool,
}

/// What a function body is validated against: the module's index spaces,
/// imports first.
pub struct ModuleResources {
    pub types: Vec<FuncType>,
    /// The type index of each function.
    pub functions: Vec<u32>,
    pub tables: Vec<TableType>,
    pub memories: Vec<MemoryType>,
    pub globals: Vec<GlobalType>,
    /// How many of `globals` are imported.
    pub imported_globals: u32,
    pub element_count: u32,
    pub data_count: Option<u32>,
}

impl ModuleResources {
    /// Every function names a signature that exists.
    pub open spec fn wf(&self) -> bool {
        &&& forall|i: int| 0 <= i < self.functions@.len() ==> #[trigger] self.functions@[i] < self.types@.len()
        &&& self.imported_globals <= self.globals@.len()
    }

    /// The signature of function `f`.
    pub open spec fn func_sig(&self, f: int) -> (Seq<Type>, Seq<Type>) {
        let t = self.types@[self.functions@[f] as int]@;
        (t.params, t.results)
    }
}

#[derive(Clone, Copy, Debug, PartialEq, Eq, Structural)]
pub enum FrameKind {
    Function,
    Block,
    Loop,
    If,
    Else,
}

/// An open block: its kind and type, the operand stack height when it was
/// entered, and whether its code has become unreachable.
#[derive(Clone, Copy, Debug, PartialEq, Eq, Structural)]
pub struct ControlFrame {
    pub kind: FrameKind,
    pub block_type: TypeOrFuncType,
    pub height: usize,
    pub unreachable: bool,
}

/// The stacks of the validator: operand types (`None` is a value of unknown
/// type, produced by unreachable code) and open blocks.
pub struct VState {
    pub stack: Seq<Option<Type>>,
    pub frames: Seq<ControlFrame>,
}

/// The parameter and result types of a block type.
pub open spec fn block_sig(bt: TypeOrFuncType, ctx: &ModuleResources, config: OperatorValidatorConfig) -> Result<
    (Seq<Type>, Seq<Type>),
    ErrorKind,
> {
    match bt {
        TypeOrFuncType::Type(t) => if t == Type::EmptyBlockType {
            Ok((seq![], seq![]))
        } else if t.is_value_type() {
            Ok((seq![], seq![t]))
        } else {
            Err(ErrorKind::InvalidType)
        },
        TypeOrFuncType::FuncType(i) => if !config.enable_multi_value {
            Err(ErrorKind::UnsupportedFeature)
        } else if i >= ctx.types@.len() {
            Err(ErrorKind::IndexOutOfBounds)
        } else {
            Ok((ctx.types@[i as int]@.params, ctx.types@[i as int]@.results))
        },
    }
}

pub open spec fn valid_stack(st: VState) -> bool {
    &&& forall|i: int| 0 <= i < st.frames.len() ==> #[trigger] st.frames[i].height <= st.stack.len()
    &&& forall|i: int, j: int|
        0 <= i < j < st.frames.len() ==> #[trigger] st.frames[i].height <= #[trigger] st.frames[j].height
}

/// Pops one operand, which must have type `expected` when that is given.
pub open spec fn spec_pop(st: VState, expected: Option<Type>) -> Result<(VState, Option<Type>), ErrorKind> {
    if st.frames.len() == 0 {
        Err(ErrorKind::StackUnderflow)
    } else {
        let f = st.frames.last();
        if st.stack.len() <= f.height {
            if f.unreachable {
                Ok((st, None))
            } else {
                Err(ErrorKind::StackUnderflow)
            }
        } else {
            let actual = st.stack.last();
            let rest = VState { stack: st.stack.drop_last(), frames: st.frames };
            match (actual, expected) {
                (Some(a), Some(e)) => if a == e {
                    Ok((rest, actual))
                } else {
                    Err(ErrorKind::TypeMismatch)
                },
                _ => Ok((rest, actual)),
            }
        }
    }
}

/// Pops operands of the types `ts`, the last one first.
pub open spec fn spec_pop_types(st: VState, ts: Seq<Type>) -> Result<VState, ErrorKind>
    decreases ts.len(),
{
    if ts.len() == 0 {
        Ok(st)
    } else {
        match spec_pop(st, Some(ts.last())) {
            Ok((st2, _)) => spec_pop_types(st2, ts.drop_last()),
            Err(e) => Err(e),
        }
    }
}

pub open spec fn known(ts: Seq<Type>) -> Seq<Option<Type>> {
    ts.map_values(|t: Type| Some(t))
}

pub open spec fn spec_push_types(st: VState, ts: Seq<Type>) -> VState {
    VState { stack: st.stack + known(ts), frames: st.frames }
}

/// Drops the operands of the innermost block and marks its rest unreachable.
pub open spec fn spec_unreachable(st: VState) -> VState {
    let f = st.frames.last();
    VState {
        stack: st.stack.subrange(0, f.height as int),
        frames: st.frames.update(st.frames.len() - 1, ControlFrame { unreachable: true, ..f }),
    }
}

/// Operand count and types of a numeric instruction without immediates
/// (opcodes 0x45 to 0xc4): `(operand type, number of operands, result type)`.
pub open spec fn numeric_sig(code: u8) -> (Type, nat, Type) {
    if code == 0x45 {
        (Type::I32, 1, Type::I32)
    } else if code <= 0x4f {
        (Type::I32, 2, Type::I32)
    } else if code == 0x50 {
        (Type::I64, 1, Type::I32)
    } else if code <= 0x5a {
        (Type::I64, 2, Type::I32)
    } else if code <= 0x60 {
        (Type::F32, 2, Type::I32)
    } else if code <= 0x66 {
        (Type::F64, 2, Type::I32)
    } else if code <= 0x69 {
        (Type::I32, 1, Type::I32)
    } else if code <= 0x78 {
        (Type::I32, 2, Type::I32)
    } else if code <= 0x7b {
        (Type::I64, 1, Type::I64)
    } else if code <= 0x8a {
        (Type::I64, 2, Type::I64)
    } else if code <= 0x91 {
        (Type::F32, 1, Type::F32)
    } else if code <= 0x98 {
        (Type::F32, 2, Type::F32)
    } else if code <= 0x9f {
        (Type::F64, 1, Type::F64)
    } else if code <= 0xa6 {
        (Type::F64, 2, Type::F64)
    } else if code == 0xa7 {
        (Type::I64, 1, Type::I32)
    } else if code <= 0xa9 {
        (Type::F32, 1, Type::I32)
    } else if code <= 0xab {
        (Type::F64, 1, Type::I32)
    } else if code <= 0xad {
        (Type::I32, 1, Type::I64)
    } else if code <= 0xaf {
        (Type::F32, 1, Type::I64)
    } else if code <= 0xb1 {
        (Type::F64, 1, Type::I64)
    } else if code <= 0xb3 {
        (Type::I32, 1, Type::F32)
    } else if code <= 0xb5 {
        (Type::I64, 1, Type::F32)
    } else if code == 0xb6 {
        (Type::F64, 1, Type::F32)
    } else if code <= 0xb8 {
        (Type::I32, 1, Type::F64)
    } else if code <= 0xba {
        (Type::I64, 1, Type::F64)
    } else if code == 0xbb {
        (Type::F32, 1, Type::F64)
    } else if code == 0xbc {
        (Type::F32, 1, Type::I32)
    } else if code == 0xbd {
        (Type::F64, 1, Type::I64)
    } else if code == 0xbe {
        (Type::I32, 1, Type::F32)
    } else if code == 0xbf {
        (Type::I64, 1, Type::F64)
    } else if code <= 0xc1 {
        (Type::I32, 1, Type::I32)
    } else {
        (Type::I64, 1, Type::I64)
    }
}

/// Natural alignment (log2) and result type of a load (opcodes 0x28 to 0x35).
pub open spec fn load_info(code: u8) -> (u32, Type) {
    if code == 0x28 {
        (2, Type::I32)
    } else if code == 0x29 {
        (3, Type::I64)
    } else if code == 0x2a {
        (2, Type::F32)
    } else if code == 0x2b {
        (3, Type::F64)
    } else if code <= 0x2d {
        (0, Type::I32)
    } else if code <= 0x2f {
        (1, Type::I32)
    } else if code <= 0x31 {
        (0, Type::I64)
    } else if code <= 0x33 {
        (1, Type::I64)
    } else {
        (2, Type::I64)
    }
}

/// Natural alignment (log2) and value type of a store (opcodes 0x36 to 0x3e).
pub open spec fn store_info(code: u8) -> (u32, Type) {
    if code == 0x36 {
        (2, Type::I32)
    } else if code == 0x37 {
        (3, Type::I64)
    } else if code == 0x38 {
        (2, Type::F32)
    } else if code == 0x39 {
        (3, Type::F64)
    } else if code == 0x3a {
        (0, Type::I32)
    } else if code == 0x3b {
        (1, Type::I32)
    } else if code == 0x3c {
        (0, Type::I64)
    } else if code == 0x3d {
        (1, Type::I64)
    } else {
        (2, Type::I64)
    }
}

/// Operand and result types of a saturating truncation (0xfc 0 to 7).
pub open spec fn trunc_sat_sig(code: u32) -> (Type, Type) {
    if code <= 1 {
        (Type::F32, Type::I32)
    } else if code <= 3 {
        (Type::F64, Type::I32)
    } else if code <= 5 {
        (Type::F32, Type::I64)
    } else {
        (Type::F64, Type::I64)
    }
}

/// The float operators whose result may be a NaN with a payload the
/// specification leaves open: rounding, square root, arithmetic, minimum
/// and maximum, demotion and promotion. Absolute value, negation and
/// copysign only move the sign bit.
pub open spec fn may_produce_nan(code: u8) -> bool {
    (0x8d <= code <= 0x97) || (0x9b <= code <= 0xa5) || code == 0xb6 || code == 0xbb
}

fn may_produce_nan_of(code: u8) -> (r: bool)
    ensures
        r == may_produce_nan(code),
{
    (0x8d <= code && code <= 0x97) || (0x9b <= code && code <= 0xa5) || code == 0xb6 || code == 0xbb
}

/// Natural alignment (log2) and value type of the `k`-th access width of
/// the atomic operators: i32, i64, i32 from 8 and 16 bits, i64 from 8, 16
/// and 32 bits.
pub open spec fn atomic_width(k: u32) -> (u32, Type) {
    if k == 0 {
        (2, Type::I32)
    } else if k == 1 {
        (3, Type::I64)
    } else if k == 2 {
        (0, Type::I32)
    } else if k == 3 {
        (1, Type::I32)
    } else if k == 4 {
        (0, Type::I64)
    } else if k == 5 {
        (1, Type::I64)
    } else {
        (2, Type::I64)
    }
}

/// Alignment, operand types and result types of an atomic memory access
/// (prefix 0xfe).
pub open spec fn atomic_sig(code: u32) -> Option<(u32, Seq<Type>, Seq<Type>)> {
    if code == 0 {
        Some((2, seq![Type::I32, Type::I32], seq![Type::I32]))
    } else if code == 1 {
        Some((2, seq![Type::I32, Type::I32, Type::I64], seq![Type::I32]))
    } else if code == 2 {
        Some((3, seq![Type::I32, Type::I64, Type::I64], seq![Type::I32]))
    } else if 0x10 <= code <= 0x16 {
        let (a, t) = atomic_width((code - 0x10) as u32);
        Some((a, seq![Type::I32], seq![t]))
    } else if 0x17 <= code <= 0x1d {
        let (a, t) = atomic_width((code - 0x17) as u32);
        Some((a, seq![Type::I32, t], seq![]))
    } else if 0x1e <= code <= 0x47 {
        let (a, t) = atomic_width(((code - 0x1e) % 7) as u32);
        Some((a, seq![Type::I32, t], seq![t]))
    } else if 0x48 <= code <= 0x4e {
        let (a, t) = atomic_width((code - 0x48) as u32);
        Some((a, seq![Type::I32, t, t], seq![t]))
    } else {
        None
    }
}

/// Natural alignment (log2), operand and result types of a SIMD load or
/// store (`SimdMemory` and `SimdMemoryLane`).
pub open spec fn simd_mem_info(code: u32) -> (u32, Seq<Type>, Seq<Type>) {
    if code == 0x00 {
        (4, seq![Type::I32], seq![Type::V128])
    } else if code <= 0x06 {
        (3, seq![Type::I32], seq![Type::V128])
    } else if code <= 0x0a {
        ((code - 0x07) as u32, seq![Type::I32], seq![Type::V128])
    } else if code == 0x0b {
        (4, seq![Type::I32, Type::V128], seq![])
    } else if code == 0x5c {
        (2, seq![Type::I32], seq![Type::V128])
    } else if code == 0x5d {
        (3, seq![Type::I32], seq![Type::V128])
    } else if 0x54 <= code <= 0x57 {
        ((code - 0x54) as u32, seq![Type::I32, Type::V128], seq![Type::V128])
    } else {
        ((code - 0x58) as u32, seq![Type::I32, Type::V128], seq![])
    }
}

/// The scalar type of the lanes SIMD lane operator `code` reads or writes.
pub open spec fn simd_lane_type(code: u32) -> Type {
    if code <= 0x1c {
        Type::I32
    } else if code <= 0x1e {
        Type::I64
    } else if code <= 0x20 {
        Type::F32
    } else {
        Type::F64
    }
}

/// Lane extraction `[v128] -> [t]`, or replacement `[v128 t] -> [v128]`.
pub open spec fn simd_lane_sig(code: u32) -> (Seq<Type>, Seq<Type>) {
    if code == 0x17 || code == 0x1a || code == 0x1c || code == 0x1e || code == 0x20 || code == 0x22 {
        (seq![Type::V128, simd_lane_type(code)], seq![Type::V128])
    } else {
        (seq![Type::V128], seq![simd_lane_type(code)])
    }
}

/// The signature of a shape of SIMD operators (see `simd_class`).
pub open spec fn simd_class_sig(c: u8) -> (Seq<Type>, Seq<Type>) {
    if c == 1 {
        (seq![Type::V128], seq![Type::V128])
    } else if c == 2 {
        (seq![Type::V128, Type::V128], seq![Type::V128])
    } else if c == 3 {
        (seq![Type::V128, Type::I32], seq![Type::V128])
    } else if c == 4 {
        (seq![Type::V128], seq![Type::I32])
    } else if c == 5 {
        (seq![Type::V128, Type::V128, Type::V128], seq![Type::V128])
    } else if c == 6 {
        (seq![Type::I32], seq![Type::V128])
    } else if c == 7 {
        (seq![Type::I64], seq![Type::V128])
    } else if c == 8 {
        (seq![Type::F32], seq![Type::V128])
    } else {
        (seq![Type::F64], seq![Type::V128])
    }
}

pub open spec fn one_or_two(t: Type, n: nat) -> Seq<Type> {
    if n == 1 {
        seq![t]
    } else {
        seq![t, t]
    }
}

/// The per-function type checker.
pub struct OperatorValidator {
    pub stack: Vec<Option<Type>>,
    pub frames: Vec<ControlFrame>,
    /// Parameters first, then declared locals.
    pub locals: Vec<Type>,
    pub results: Vec<Type>,
    pub config: OperatorValidatorConfig,
}

/// Local groups expanded into one type per local.
pub open spec fn expand_locals(groups: Seq<(u32, Type)>) -> Seq<Type>
    decreases groups.len(),
{
    if groups.len() == 0 {
        seq![]
    } else {
        expand_locals(groups.drop_last()) + Seq::new(groups.last().0 as nat, |i: int| groups.last().1)
    }
}

/// The number of locals the groups declare.
pub open spec fn locals_total(groups: Seq<(u32, Type)>) -> int
    decreases groups.len(),
{
    if groups.len() == 0 {
        0
    } else {
        locals_total(groups.drop_last()) + groups.last().0
    }
}

/// `count` indices encoded one after another at `start` of `code`.
pub open spec fn spec_index_list(code: Seq<u8>, start: int, count: nat) -> Result<Seq<u32>, ErrorKind> {
    match spec_repeat(code, start, count, var_u32_item()) {
        Ok((items, _)) => Ok(items),
        Err((k, _)) => Err(k),
    }
}

/// The decoded target depths of a `br_table` whose encodings lie in `code`.
pub open spec fn spec_br_targets(code: Seq<u8>, table: BrTable) -> Result<Seq<u32>, ErrorKind> {
    spec_index_list(code, table.targets.start as int, table.count as nat)
}

impl OperatorValidator {
    pub open spec fn state(&self) -> VState {
        VState { stack: self.stack@, frames: self.frames@ }
    }

    pub open spec fn wf(&self) -> bool {
        &&& valid_stack(self.state())
        &&& self.frames@.len() > 0 ==> self.frames@[0].height == 0
        &&& self.frames@.len() == 0 ==> self.stack@.len() == 0
    }

    /// The signature of an open block; the function's own frame has the
    /// function's results.
    pub open spec fn frame_sig(&self, f: ControlFrame, ctx: &ModuleResources) -> Result<
        (Seq<Type>, Seq<Type>),
        ErrorKind,
    > {
        if f.kind is Function {
            Ok((seq![], self.results@))
        } else {
            block_sig(f.block_type, ctx, self.config)
        }
    }

    /// The types a branch to the block `depth` levels out carries: a loop's
    /// parameters, any other block's results.
    pub open spec fn label_types(&self, st: VState, depth: int, ctx: &ModuleResources) -> Result<
        Seq<Type>,
        ErrorKind,
    > {
        if depth < 0 || depth >= st.frames.len() {
            Err(ErrorKind::IndexOutOfBounds)
        } else {
            let f = st.frames[st.frames.len() - 1 - depth];
            match self.frame_sig(f, ctx) {
                Ok((p, r)) => Ok(
                    if f.kind is Loop {
                        p
                    } else {
                        r
                    },
                ),
                Err(e) => Err(e),
            }
        }
    }

    /// Every target of a `br_table` carries the types `ts`.
    pub open spec fn check_targets(
        &self,
        st: VState,
        targets: Seq<u32>,
        ts: Seq<Type>,
        ctx: &ModuleResources,
    ) -> Result<(), ErrorKind>
        decreases targets.len(),
    {
        if targets.len() == 0 {
            Ok(())
        } else {
            match self.check_targets(st, targets.drop_last(), ts, ctx) {
                Ok(()) => match self.label_types(st, targets.last() as int, ctx) {
                    Ok(t2) => if t2 == ts {
                        Ok(())
                    } else {
                        Err(ErrorKind::TypeMismatch)
                    },
                    Err(e) => Err(e),
                },
                Err(e) => Err(e),
            }
        }
    }

    /// Calls: the callee's signature, and the table slot for an indirect call.
    pub open spec fn call_sig(&self, op: Operator, ctx: &ModuleResources) -> Result<
        (Seq<Type>, Seq<Type>),
        ErrorKind,
    > {
        match op {
            Operator::Call { function_index: f } => if f >= ctx.functions@.len() {
                Err(ErrorKind::IndexOutOfBounds)
            } else {
                Ok(ctx.func_sig(f as int))
            },
            Operator::CallIndirect { index, table_index } => if table_index >= ctx.tables@.len()
                || index >= ctx.types@.len() {
                Err(ErrorKind::IndexOutOfBounds)
            } else {
                Ok(
                    (
                        ctx.types@[index as int]@.params.push(Type::I32),
                        ctx.types@[index as int]@.results,
                    ),
                )
            },
            _ => Err(ErrorKind::UnknownOpcode),
        }
    }

    /// Locals and globals.
    pub open spec fn variable_sig(&self, op: Operator, ctx: &ModuleResources) -> Result<
        (Seq<Type>, Seq<Type>),
        ErrorKind,
    > {
        match op {
            Operator::LocalGet { local_index: i } => if i >= self.locals@.len() {
                Err(ErrorKind::IndexOutOfBounds)
            } else {
                Ok((seq![], seq![self.locals@[i as int]]))
            },
            Operator::LocalSet { local_index: i } => if i >= self.locals@.len() {
                Err(ErrorKind::IndexOutOfBounds)
            } else {
                Ok((seq![self.locals@[i as int]], seq![]))
            },
            Operator::LocalTee { local_index: i } => if i >= self.locals@.len() {
                Err(ErrorKind::IndexOutOfBounds)
            } else {
                Ok((seq![self.locals@[i as int]], seq![self.locals@[i as int]]))
            },
            Operator::GlobalGet { global_index: i } => if i >= ctx.globals@.len() {
                Err(ErrorKind::IndexOutOfBounds)
            } else {
                Ok((seq![], seq![ctx.globals@[i as int].content_type]))
            },
            Operator::GlobalSet { global_index: i } => if i >= ctx.globals@.len() {
                Err(ErrorKind::IndexOutOfBounds)
            } else if !ctx.globals@[i as int].mutable {
                Err(ErrorKind::GlobalIsImmutable)
            } else {
                Ok((seq![ctx.globals@[i as int].content_type], seq![]))
            },
            _ => Err(ErrorKind::UnknownOpcode),
        }
    }

    /// Loads, stores and the memory size operators.
    pub open spec fn memory_sig(&self, op: Operator, ctx: &ModuleResources) -> Result<
        (Seq<Type>, Seq<Type>),
        ErrorKind,
    > {
        match op {
            Operator::Load { code, memarg } => if code < 0x28 || code > 0x35 {
                Err(ErrorKind::UnknownOpcode)
            } else if ctx.memories@.len() == 0 {
                Err(ErrorKind::IndexOutOfBounds)
            } else if memarg.flags > load_info(code).0 {
                Err(ErrorKind::InvalidAlignment)
            } else {
                Ok((seq![Type::I32], seq![load_info(code).1]))
            },
            Operator::Store { code, memarg } => if code < 0x36 || code > 0x3e {
                Err(ErrorKind::UnknownOpcode)
            } else if ctx.memories@.len() == 0 {
                Err(ErrorKind::IndexOutOfBounds)
            } else if memarg.flags > store_info(code).0 {
                Err(ErrorKind::InvalidAlignment)
            } else {
                Ok((seq![Type::I32, store_info(code).1], seq![]))
            },
            Operator::MemorySize { reserved } => if ctx.memories@.len() <= reserved {
                Err(ErrorKind::IndexOutOfBounds)
            } else {
                Ok((seq![], seq![Type::I32]))
            },
            Operator::MemoryGrow { reserved } => if ctx.memories@.len() <= reserved {
                Err(ErrorKind::IndexOutOfBounds)
            } else {
                Ok((seq![Type::I32], seq![Type::I32]))
            },
            _ => Err(ErrorKind::UnknownOpcode),
        }
    }

    /// Constants and numeric operators.
    pub open spec fn value_sig(&self, op: Operator, ctx: &ModuleResources) -> Result<
        (Seq<Type>, Seq<Type>),
        ErrorKind,
    > {
        match op {
            Operator::I32Const { .. } => Ok((seq![], seq![Type::I32])),
            Operator::I64Const { .. } => Ok((seq![], seq![Type::I64])),
            Operator::F32Const { .. } => Ok((seq![], seq![Type::F32])),
            Operator::F64Const { .. } => Ok((seq![], seq![Type::F64])),
            Operator::Numeric { code } => if code < 0x45 || code > 0xc4 {
                Err(ErrorKind::UnknownOpcode)
            } else if self.config.deterministic_only && may_produce_nan(code) {
                Err(ErrorKind::UnsupportedFeature)
            } else {
                let (t, n, r) = numeric_sig(code);
                Ok((one_or_two(t, n), seq![r]))
            },
            Operator::TruncSat { code } => if code > 7 {
                Err(ErrorKind::UnknownOpcode)
            } else {
                Ok((seq![trunc_sat_sig(code).0], seq![trunc_sat_sig(code).1]))
            },
            _ => Err(ErrorKind::UnknownOpcode),
        }
    }

    /// Reference operators, which need the reference-types proposal.
    pub open spec fn reference_sig(&self, op: Operator, ctx: &ModuleResources) -> Result<
        (Seq<Type>, Seq<Type>),
        ErrorKind,
    > {
        match op {
            Operator::RefNull => if !self.config.enable_reference_types {
                Err(ErrorKind::UnsupportedFeature)
            } else {
                Ok((seq![], seq![Type::AnyRef]))
            },
            Operator::RefIsNull => if !self.config.enable_reference_types {
                Err(ErrorKind::UnsupportedFeature)
            } else {
                Ok((seq![Type::AnyRef], seq![Type::I32]))
            },
            Operator::RefFunc { function_index: f } => if !self.config.enable_reference_types {
                Err(ErrorKind::UnsupportedFeature)
            } else if f >= ctx.functions@.len() {
                Err(ErrorKind::IndexOutOfBounds)
            } else {
                Ok((seq![], seq![Type::AnyFunc]))
            },
            _ => Err(ErrorKind::UnknownOpcode),
        }
    }

    /// Table operations of the reference types proposal, typed by the
    /// table's element type.
    pub open spec fn table_sig(&self, op: Operator, ctx: &ModuleResources) -> Result<
        (Seq<Type>, Seq<Type>),
        ErrorKind,
    > {
        if !self.config.enable_reference_types {
            Err(ErrorKind::UnsupportedFeature)
        } else {
            match op {
                Operator::TableGet { table } => if table >= ctx.tables@.len() {
                    Err(ErrorKind::IndexOutOfBounds)
                } else {
                    Ok((seq![Type::I32], seq![ctx.tables@[table as int].element_type]))
                },
                Operator::TableSet { table } => if table >= ctx.tables@.len() {
                    Err(ErrorKind::IndexOutOfBounds)
                } else {
                    Ok((seq![Type::I32, ctx.tables@[table as int].element_type], seq![]))
                },
                Operator::TableGrow { table } => if table >= ctx.tables@.len() {
                    Err(ErrorKind::IndexOutOfBounds)
                } else {
                    Ok((seq![ctx.tables@[table as int].element_type, Type::I32], seq![Type::I32]))
                },
                Operator::TableSize { table } => if table >= ctx.tables@.len() {
                    Err(ErrorKind::IndexOutOfBounds)
                } else {
                    Ok((seq![], seq![Type::I32]))
                },
                Operator::TableFill { table } => if table >= ctx.tables@.len() {
                    Err(ErrorKind::IndexOutOfBounds)
                } else {
                    Ok(
                        (
                            seq![Type::I32, ctx.tables@[table as int].element_type, Type::I32],
                            seq![],
                        ),
                    )
                },
                _ => Err(ErrorKind::UnknownOpcode),
            }
        }
    }

    /// Bulk memory operations: they need the bulk memory proposal, and
    /// their memories, tables and segments must exist; data segments are
    /// known only through the data count section.
    pub open spec fn bulk_sig(&self, op: Operator, ctx: &ModuleResources) -> Result<
        (Seq<Type>, Seq<Type>),
        ErrorKind,
    > {
        if !self.config.enable_bulk_memory {
            Err(ErrorKind::UnsupportedFeature)
        } else {
            match op {
                Operator::MemoryInit { segment, mem } => if mem >= ctx.memories@.len() || !(
                ctx.data_count matches Some(n) && segment < n) {
                    Err(ErrorKind::IndexOutOfBounds)
                } else {
                    Ok((seq![Type::I32, Type::I32, Type::I32], seq![]))
                },
                Operator::DataDrop { segment } => if !(ctx.data_count matches Some(n) && segment < n) {
                    Err(ErrorKind::IndexOutOfBounds)
                } else {
                    Ok((seq![], seq![]))
                },
                Operator::MemoryCopy { dst, src } => if dst >= ctx.memories@.len() || src
                    >= ctx.memories@.len() {
                    Err(ErrorKind::IndexOutOfBounds)
                } else {
                    Ok((seq![Type::I32, Type::I32, Type::I32], seq![]))
                },
                Operator::MemoryFill { mem } => if mem >= ctx.memories@.len() {
                    Err(ErrorKind::IndexOutOfBounds)
                } else {
                    Ok((seq![Type::I32, Type::I32, Type::I32], seq![]))
                },
                Operator::TableInit { segment, table } => if table >= ctx.tables@.len() || segment
                    >= ctx.element_count {
                    Err(ErrorKind::IndexOutOfBounds)
                } else {
                    Ok((seq![Type::I32, Type::I32, Type::I32], seq![]))
                },
                Operator::ElemDrop { segment } => if segment >= ctx.element_count {
                    Err(ErrorKind::IndexOutOfBounds)
                } else {
                    Ok((seq![], seq![]))
                },
                Operator::TableCopy { dst, src } => if dst >= ctx.tables@.len() || src
                    >= ctx.tables@.len() {
                    Err(ErrorKind::IndexOutOfBounds)
                } else {
                    Ok((seq![Type::I32, Type::I32, Type::I32], seq![]))
                },
                _ => Err(ErrorKind::UnknownOpcode),
            }
        }
    }

    /// Atomic memory accesses: they need the threads proposal, a memory, and
    /// exactly the natural alignment.
    pub open spec fn atomic_op_sig(&self, op: Operator, ctx: &ModuleResources) -> Result<
        (Seq<Type>, Seq<Type>),
        ErrorKind,
    > {
        if !self.config.enable_threads {
            Err(ErrorKind::UnsupportedFeature)
        } else {
            match op {
                Operator::Atomic { code, memarg } => match atomic_sig(code) {
                    Some((a, ins, outs)) => if ctx.memories@.len() == 0 {
                        Err(ErrorKind::IndexOutOfBounds)
                    } else if memarg.flags != a {
                        Err(ErrorKind::InvalidAlignment)
                    } else {
                        Ok((ins, outs))
                    },
                    None => Err(ErrorKind::UnknownOpcode),
                },
                Operator::AtomicFence { .. } => Ok((seq![], seq![])),
                _ => Err(ErrorKind::UnknownOpcode),
            }
        }
    }

    /// SIMD operators: they need the SIMD proposal; memory accesses need a
    /// memory and at most their natural alignment.
    pub open spec fn simd_sig(&self, op: Operator, ctx: &ModuleResources) -> Result<
        (Seq<Type>, Seq<Type>),
        ErrorKind,
    > {
        if !self.config.enable_simd {
            Err(ErrorKind::UnsupportedFeature)
        } else {
            match op {
                Operator::SimdMemory { code, memarg } => if !(code <= 0x0b || code == 0x5c || code
                    == 0x5d) {
                    Err(ErrorKind::UnknownOpcode)
                } else if ctx.memories@.len() == 0 {
                    Err(ErrorKind::IndexOutOfBounds)
                } else if memarg.flags > simd_mem_info(code).0 {
                    Err(ErrorKind::InvalidAlignment)
                } else {
                    Ok((simd_mem_info(code).1, simd_mem_info(code).2))
                },
                Operator::SimdMemoryLane { code, memarg, lane } => if !(0x54 <= code <= 0x5b) {
                    Err(ErrorKind::UnknownOpcode)
                } else if lane >= simd_lanes(code) {
                    Err(ErrorKind::InvalidLaneIndex)
                } else if ctx.memories@.len() == 0 {
                    Err(ErrorKind::IndexOutOfBounds)
                } else if memarg.flags > simd_mem_info(code).0 {
                    Err(ErrorKind::InvalidAlignment)
                } else {
                    Ok((simd_mem_info(code).1, simd_mem_info(code).2))
                },
                Operator::V128Const { .. } => Ok((seq![], seq![Type::V128])),
                Operator::I8x16Shuffle { .. } => Ok((seq![Type::V128, Type::V128], seq![Type::V128])),
                Operator::SimdLane { code, lane } => if !(0x15 <= code <= 0x22) {
                    Err(ErrorKind::UnknownOpcode)
                } else if lane >= simd_lanes(code) {
                    Err(ErrorKind::InvalidLaneIndex)
                } else {
                    Ok(simd_lane_sig(code))
                },
                Operator::Simd { code } => if simd_class(code) == 0 {
                    Err(ErrorKind::UnknownOpcode)
                } else {
                    Ok(simd_class_sig(simd_class(code)))
                },
                _ => Err(ErrorKind::UnknownOpcode),
            }
        }
    }

    /// Operand and result types of the operators that only pop and push.
    pub open spec fn simple_sig(&self, op: Operator, ctx: &ModuleResources) -> Result<
        (Seq<Type>, Seq<Type>),
        ErrorKind,
    > {
        match op {
            Operator::Nop => Ok((seq![], seq![])),
            Operator::Call { .. } | Operator::CallIndirect { .. } => self.call_sig(op, ctx),
            Operator::LocalGet { .. } | Operator::LocalSet { .. } | Operator::LocalTee { .. }
            | Operator::GlobalGet { .. } | Operator::GlobalSet { .. } => self.variable_sig(op, ctx),
            Operator::Load { .. } | Operator::Store { .. } | Operator::MemorySize { .. }
            | Operator::MemoryGrow { .. } => self.memory_sig(op, ctx),
            Operator::I32Const { .. } | Operator::I64Const { .. } | Operator::F32Const { .. }
            | Operator::F64Const { .. } | Operator::Numeric { .. } | Operator::TruncSat { .. } => self.value_sig(op, ctx),
            Operator::RefNull | Operator::RefIsNull | Operator::RefFunc { .. } => self.reference_sig(op, ctx),
            Operator::MemoryInit { .. } | Operator::DataDrop { .. } | Operator::MemoryCopy { .. }
            | Operator::MemoryFill { .. } | Operator::TableInit { .. } | Operator::ElemDrop { .. }
            | Operator::TableCopy { .. } => self.bulk_sig(op, ctx),
            Operator::Atomic { .. } | Operator::AtomicFence { .. } => self.atomic_op_sig(op, ctx),
            Operator::TableGet { .. } | Operator::TableSet { .. } | Operator::TableGrow { .. }
            | Operator::TableSize { .. } | Operator::TableFill { .. } => self.table_sig(op, ctx),
            Operator::SimdMemory { .. } | Operator::SimdMemoryLane { .. } | Operator::V128Const { .. }
            | Operator::I8x16Shuffle { .. } | Operator::SimdLane { .. } | Operator::Simd { .. } => self.simd_sig(op, ctx),
            _ => Err(ErrorKind::UnknownOpcode),
        }
    }

    /// Opens a block of kind `kind` and type `ty` on the stacks `st`.
    pub open spec fn spec_enter(&self, st: VState, kind: FrameKind, ty: TypeOrFuncType, ctx: &ModuleResources) -> Result<
        VState,
        ErrorKind,
    > {
        match block_sig(ty, ctx, self.config) {
            Ok((params, _)) => match spec_pop_types(st, params) {
                Ok(st2) => Ok(
                    spec_push_types(
                        VState {
                            stack: st2.stack,
                            frames: st2.frames.push(
                                ControlFrame {
                                    kind,
                                    block_type: ty,
                                    height: st2.stack.len() as usize,
                                    unreachable: false,
                                },
                            ),
                        },
                        params,
                    ),
                ),
                Err(e) => Err(e),
            },
            Err(e) => Err(e),
        }
    }

    /// `else`: the `if` branch must leave exactly its results.
    pub open spec fn spec_else(&self, st: VState, ctx: &ModuleResources) -> Result<VState, ErrorKind> {
        let f = st.frames.last();
        if !(f.kind is If) {
            Err(ErrorKind::TypeMismatch)
        } else {
            match self.frame_sig(f, ctx) {
                Ok((p, r)) => match spec_pop_types(st, r) {
                    Ok(st2) => if st2.stack.len() != f.height {
                        Err(ErrorKind::TypeMismatch)
                    } else {
                        Ok(
                            spec_push_types(
                                VState {
                                    stack: st2.stack,
                                    frames: st2.frames.update(
                                        st2.frames.len() - 1,
                                        ControlFrame { kind: FrameKind::Else, unreachable: false, ..f },
                                    ),
                                },
                                p,
                            ),
                        )
                    },
                    Err(e) => Err(e),
                },
                Err(e) => Err(e),
            }
        }
    }

    /// `end`: the block must leave exactly its results, which then replace it.
    pub open spec fn spec_end(&self, st: VState, ctx: &ModuleResources) -> Result<VState, ErrorKind> {
        let f = st.frames.last();
        match self.frame_sig(f, ctx) {
            Ok((p, r)) => if f.kind is If && p != r {
                Err(ErrorKind::TypeMismatch)
            } else {
                match spec_pop_types(st, r) {
                    Ok(st2) => if st2.stack.len() != f.height {
                        Err(ErrorKind::TypeMismatch)
                    } else {
                        let st3 = VState { stack: st2.stack, frames: st2.frames.drop_last() };
                        if st3.frames.len() == 0 {
                            Ok(st3)
                        } else {
                            Ok(spec_push_types(st3, r))
                        }
                    },
                    Err(e) => Err(e),
                }
            },
            Err(e) => Err(e),
        }
    }

    /// `br_table`: every target carries the default's types.
    pub open spec fn spec_br_table(&self, st: VState, table: BrTable, ctx: &ModuleResources, code: Seq<u8>) -> Result<VState, ErrorKind> {
        match spec_pop(st, Some(Type::I32)) {
            Ok((st1, _)) => match self.label_types(st1, table.default as int, ctx) {
                Ok(ts) => match spec_br_targets(code, table) {
                    Ok(targets) => match self.check_targets(st1, targets, ts, ctx) {
                        Ok(()) => match spec_pop_types(st1, ts) {
                            Ok(st2) => Ok(spec_unreachable(st2)),
                            Err(e) => Err(e),
                        },
                        Err(e) => Err(e),
                    },
                    Err(e) => Err(e),
                },
                Err(e) => Err(e),
            },
            Err(e) => Err(e),
        }
    }

    /// `select`: two operands of one type and a condition.
    pub open spec fn spec_select(&self, st: VState) -> Result<VState, ErrorKind> {
        match spec_pop(st, Some(Type::I32)) {
            Ok((st1, _)) => match spec_pop(st1, None) {
                Ok((st2, t1)) => match spec_pop(st2, None) {
                    Ok((st3, t2)) => if t1 is Some && t2 is Some && t1 != t2 {
                        Err(ErrorKind::TypeMismatch)
                    } else {
                        Ok(
                            VState {
                                stack: st3.stack.push(
                                    if t1 is Some {
                                        t1
                                    } else {
                                        t2
                                    },
                                ),
                                frames: st3.frames,
                            },
                        )
                    },
                    Err(e) => Err(e),
                },
                Err(e) => Err(e),
            },
            Err(e) => Err(e),
        }
    }

    /// `br`: the operands the target takes, then unreachable code.
    pub open spec fn spec_br(&self, st: VState, d: u32, ctx: &ModuleResources) -> Result<VState, ErrorKind> {
        match self.label_types(st, d as int, ctx) {
            Ok(ts) => match spec_pop_types(st, ts) {
                Ok(st2) => Ok(spec_unreachable(st2)),
                Err(e) => Err(e),
            },
            Err(e) => Err(e),
        }
    }

    /// `br_if`: a condition, and the target's operands, which stay.
    pub open spec fn spec_br_if(&self, st: VState, d: u32, ctx: &ModuleResources) -> Result<VState, ErrorKind> {
        match spec_pop(st, Some(Type::I32)) {
            Ok((st1, _)) => match self.label_types(st1, d as int, ctx) {
                Ok(ts) => match spec_pop_types(st1, ts) {
                    Ok(st2) => Ok(spec_push_types(st2, ts)),
                    Err(e) => Err(e),
                },
                Err(e) => Err(e),
            },
            Err(e) => Err(e),
        }
    }

    /// `if`: a condition, then a block.
    pub open spec fn spec_if(&self, st: VState, ty: TypeOrFuncType, ctx: &ModuleResources) -> Result<VState, ErrorKind> {
        match spec_pop(st, Some(Type::I32)) {
            Ok((st1, _)) => self.spec_enter(st1, FrameKind::If, ty, ctx),
            Err(e) => Err(e),
        }
    }

    /// `return`: the function's results, then unreachable code.
    pub open spec fn spec_return(&self, st: VState) -> Result<VState, ErrorKind> {
        match spec_pop_types(st, self.results@) {
            Ok(st2) => Ok(spec_unreachable(st2)),
            Err(e) => Err(e),
        }
    }

    /// An operator that pops its operands and pushes its results.
    pub open spec fn spec_simple(&self, st: VState, op: Operator, ctx: &ModuleResources) -> Result<VState, ErrorKind> {
        match self.simple_sig(op, ctx) {
            Ok((ins, outs)) => match spec_pop_types(st, ins) {
                Ok(st2) => Ok(spec_push_types(st2, outs)),
                Err(e) => Err(e),
            },
            Err(e) => Err(e),
        }
    }

    /// What validating `op` does to the stacks, or the fault it finds. The
    /// targets of a `br_table` are decoded from `code`.
    pub open spec fn spec_step(&self, op: Operator, ctx: &ModuleResources, code: Seq<u8>) -> Result<
        VState,
        ErrorKind,
    > {
        self.spec_step_from(self.state(), op, ctx, code)
    }

    /// What validating `op` does to the stacks `st`.
    pub open spec fn spec_step_from(
        &self,
        st: VState,
        op: Operator,
        ctx: &ModuleResources,
        code: Seq<u8>,
    ) -> Result<VState, ErrorKind> {
        if st.frames.len() == 0 {
            Err(ErrorKind::TypeMismatch)
        } else {
            match op {
                Operator::Unreachable => Ok(spec_unreachable(st)),
                Operator::Block { ty } => self.spec_enter(st, FrameKind::Block, ty, ctx),
                Operator::Loop { ty } => self.spec_enter(st, FrameKind::Loop, ty, ctx),
                Operator::If { ty } => self.spec_if(st, ty, ctx),
                Operator::Else => self.spec_else(st, ctx),
                Operator::End => self.spec_end(st, ctx),
                Operator::Br { relative_depth: d } => self.spec_br(st, d, ctx),
                Operator::BrIf { relative_depth: d } => self.spec_br_if(st, d, ctx),
                Operator::BrTable { table } => self.spec_br_table(st, table, ctx, code),
                Operator::Return => self.spec_return(st),
                Operator::Drop => match spec_pop(st, None) {
                    Ok((st2, _)) => Ok(st2),
                    Err(e) => Err(e),
                },
                Operator::Select => self.spec_select(st),
                _ => self.spec_simple(st, op, ctx),
            }
        }
    }
}

pub(crate) fn copy_types(v: &Vec<Type>) -> (r: Vec<Type>)
    ensures
        r@ == v@,
{
    let mut r: Vec<Type> = Vec::new();
    let mut i: usize = 0;
    while i < v.len()
        invariant
            i <= v@.len(),
            r@ == v@.subrange(0, i as int),
        decreases v@.len() - i,
    {
        r.push(v[i]);
        i = i + 1;
        proof {
            assert(r@ =~= v@.subrange(0, i as int));
        }
    }
    proof {
        assert(r@ =~= v@);
    }
    r
}

fn numeric_sig_of(code: u8) -> (r: (Type, u8, Type))
    ensures
        r.0 == numeric_sig(code).0,
        r.1 as nat == numeric_sig(code).1,
        r.2 == numeric_sig(code).2,
{
    if code == 0x45 {
        (Type::I32, 1, Type::I32)
    } else if code <= 0x4f {
        (Type::I32, 2, Type::I32)
    } else if code == 0x50 {
        (Type::I64, 1, Type::I32)
    } else if code <= 0x5a {
        (Type::I64, 2, Type::I32)
    } else if code <= 0x60 {
        (Type::F32, 2, Type::I32)
    } else if code <= 0x66 {
        (Type::F64, 2, Type::I32)
    } else if code <= 0x69 {
        (Type::I32, 1, Type::I32)
    } else if code <= 0x78 {
        (Type::I32, 2, Type::I32)
    } else if code <= 0x7b {
        (Type::I64, 1, Type::I64)
    } else if code <= 0x8a {
        (Type::I64, 2, Type::I64)
    } else if code <= 0x91 {
        (Type::F32, 1, Type::F32)
    } else if code <= 0x98 {
        (Type::F32, 2, Type::F32)
    } else if code <= 0x9f {
        (Type::F64, 1, Type::F64)
    } else if code <= 0xa6 {
        (Type::F64, 2, Type::F64)
    } else if code == 0xa7 {
        (Type::I64, 1, Type::I32)
    } else if code <= 0xa9 {
        (Type::F32, 1, Type::I32)
    } else if code <= 0xab {
        (Type::F64, 1, Type::I32)
    } else if code <= 0xad {
        (Type::I32, 1, Type::I64)
    } else if code <= 0xaf {
        (Type::F32, 1, Type::I64)
    } else if code <= 0xb1 {
        (Type::F64, 1, Type::I64)
    } else if code <= 0xb3 {
        (Type::I32, 1, Type::F32)
    } else if code <= 0xb5 {
        (Type::I64, 1, Type::F32)
    } else if code == 0xb6 {
        (Type::F64, 1, Type::F32)
    } else if code <= 0xb8 {
        (Type::I32, 1, Type::F64)
    } else if code <= 0xba {
        (Type::I64, 1, Type::F64)
    } else if code == 0xbb {
        (Type::F32, 1, Type::F64)
    } else if code == 0xbc {
        (Type::F32, 1, Type::I32)
    } else if code == 0xbd {
        (Type::F64, 1, Type::I64)
    } else if code == 0xbe {
        (Type::I32, 1, Type::F32)
    } else if code == 0xbf {
        (Type::I64, 1, Type::F64)
    } else if code <= 0xc1 {
        (Type::I32, 1, Type::I32)
    } else {
        (Type::I64, 1, Type::I64)
    }
}

fn load_info_of(code: u8) -> (r: (u32, Type))
    ensures
        r == load_info(code),
{
    if code == 0x28 {
        (2, Type::I32)
    } else if code == 0x29 {
        (3, Type::I64)
    } else if code == 0x2a {
        (2, Type::F32)
    } else if code == 0x2b {
        (3, Type::F64)
    } else if code <= 0x2d {
        (0, Type::I32)
    } else if code <= 0x2f {
        (1, Type::I32)
    } else if code <= 0x31 {
        (0, Type::I64)
    } else if code <= 0x33 {
        (1, Type::I64)
    } else {
        (2, Type::I64)
    }
}

fn store_info_of(code: u8) -> (r: (u32, Type))
    ensures
        r == store_info(code),
{
    if code == 0x36 {
        (2, Type::I32)
    } else if code == 0x37 {
        (3, Type::I64)
    } else if code == 0x38 {
        (2, Type::F32)
    } else if code == 0x39 {
        (3, Type::F64)
    } else if code == 0x3a {
        (0, Type::I32)
    } else if code == 0x3b {
        (1, Type::I32)
    } else if code == 0x3c {
        (0, Type::I64)
    } else if code == 0x3d {
        (1, Type::I64)
    } else {
        (2, Type::I64)
    }
}

fn trunc_sat_sig_of(code: u32) -> (r: (Type, Type))
    ensures
        r == trunc_sat_sig(code),
{
    if code <= 1 {
        (Type::F32, Type::I32)
    } else if code <= 3 {
        (Type::F64, Type::I32)
    } else if code <= 5 {
        (Type::F32, Type::I64)
    } else {
        (Type::F64, Type::I64)
    }
}

fn block_sig_of(bt: TypeOrFuncType, ctx: &ModuleResources, config: OperatorValidatorConfig) -> (r: Result<
    (Vec<Type>, Vec<Type>),
    ErrorKind,
>)
    ensures
        match block_sig(bt, ctx, config) {
            Ok((p, q)) => r is Ok && r->Ok_0.0@ == p && r->Ok_0.1@ == q,
            Err(e) => r == Err::<(Vec<Type>, Vec<Type>), ErrorKind>(e),
        },
{
    match bt {
        TypeOrFuncType::Type(t) => {
            if t == Type::EmptyBlockType {
                Ok((Vec::new(), Vec::new()))
            } else if t == Type::Func {
                Err(ErrorKind::InvalidType)
            } else {
                let mut q: Vec<Type> = Vec::new();
                q.push(t);
                proof {
                    assert(q@ =~= seq![t]);
                }
                Ok((Vec::new(), q))
            }
        },
        TypeOrFuncType::FuncType(i) => {
            if !config.enable_multi_value {
                Err(ErrorKind::UnsupportedFeature)
            } else if i as usize >= ctx.types.len() {
                Err(ErrorKind::IndexOutOfBounds)
            } else {
                let t = &ctx.types[i as usize];
                Ok((copy_types(&t.params), copy_types(&t.results)))
            }
        },
    }
}

impl OperatorValidator {
    fn pop_operand(&mut self, expected: Option<Type>) -> (r: Result<Option<Type>, ErrorKind>)
        requires
            old(self).wf(),
        ensures
            final(self).locals == old(self).locals,
            final(self).results == old(self).results,
            final(self).config == old(self).config,
            match spec_pop(old(self).state(), expected) {
                Ok((st, t)) => r == Ok::<Option<Type>, ErrorKind>(t) && final(self).state() == st
                    && final(self).wf(),
                Err(e) => r == Err::<Option<Type>, ErrorKind>(e),
            },
    {
        let n = self.frames.len();
        if n == 0 {
            return Err(ErrorKind::StackUnderflow);
        }
        let f = self.frames[n - 1];
        if self.stack.len() <= f.height {
            if f.unreachable {
                return Ok(None);
            } else {
                return Err(ErrorKind::StackUnderflow);
            }
        }
        let actual = self.stack[self.stack.len() - 1];
        if let Some(a) = actual {
            if let Some(e) = expected {
                if a != e {
                    return Err(ErrorKind::TypeMismatch);
                }
            }
        }
        self.stack.pop();
        proof {
            assert(self.state() == VState { stack: old(self).stack@.drop_last(), frames: old(self).frames@ });
        }
        Ok(actual)
    }

    fn pop_types(&mut self, ts: &Vec<Type>) -> (r: Result<(), ErrorKind>)
        requires
            old(self).wf(),
        ensures
            final(self).locals == old(self).locals,
            final(self).results == old(self).results,
            final(self).config == old(self).config,
            match spec_pop_types(old(self).state(), ts@) {
                Ok(st) => r is Ok && final(self).state() == st && final(self).wf(),
                Err(e) => r == Err::<(), ErrorKind>(e),
            },
            r is Ok ==> final(self).frames@ == old(self).frames@,
    {
        let mut i = ts.len();
        proof {
            assert(ts@.subrange(0, i as int) =~= ts@);
        }
        while i > 0
            invariant
                self.wf(),
                self.locals == old(self).locals,
                self.results == old(self).results,
                self.config == old(self).config,
                i <= ts@.len(),
                self.frames@ == old(self).frames@,
                spec_pop_types(old(self).state(), ts@) == spec_pop_types(
                    self.state(),
                    ts@.subrange(0, i as int),
                ),
            decreases i,
        {
            proof {
                assert(ts@.subrange(0, i as int).drop_last() =~= ts@.subrange(0, i - 1));
            }
            match self.pop_operand(Some(ts[i - 1])) {
                Ok(_) => {},
                Err(e) => {
                    return Err(e);
                },
            }
            i = i - 1;
        }
        Ok(())
    }

    fn push_types(&mut self, ts: &Vec<Type>)
        requires
            old(self).wf(),
            old(self).frames@.len() > 0,
        ensures
            final(self).locals == old(self).locals,
            final(self).results == old(self).results,
            final(self).config == old(self).config,
            final(self).state() == spec_push_types(old(self).state(), ts@),
            final(self).wf(),
    {
        let mut i: usize = 0;
        while i < ts.len()
            invariant
                self.wf(),
                self.locals == old(self).locals,
                self.results == old(self).results,
                self.config == old(self).config,
                self.frames@ == old(self).frames@,
                self.frames@.len() > 0,
                self.stack@.len() >= old(self).stack@.len(),
                i <= ts@.len(),
                self.stack@ == old(self).stack@ + known(ts@.subrange(0, i as int)),
            decreases ts@.len() - i,
        {
            self.stack.push(Some(ts[i]));
            proof {
                assert(known(ts@.subrange(0, i + 1)) =~= known(ts@.subrange(0, i as int)).push(
                    Some(ts@[i as int]),
                ));
            }
            i = i + 1;
        }
        proof {
            assert(ts@.subrange(0, i as int) =~= ts@);
            assert(self.state() == spec_push_types(old(self).state(), ts@));
        }
    }

    fn set_unreachable(&mut self)
        requires
            old(self).wf(),
            old(self).frames@.len() > 0,
        ensures
            final(self).locals == old(self).locals,
            final(self).results == old(self).results,
            final(self).config == old(self).config,
            final(self).state() == spec_unreachable(old(self).state()),
            final(self).wf(),
    {
        let n = self.frames.len();
        let f = self.frames[n - 1];
        self.stack.truncate(f.height);
        self.frames.set(n - 1, ControlFrame { unreachable: true, ..f });
        proof {
            assert(self.state() == spec_unreachable(old(self).state()));
        }
    }

    fn frame_sig_of(&self, f: ControlFrame, ctx: &ModuleResources) -> (r: Result<
        (Vec<Type>, Vec<Type>),
        ErrorKind,
    >)
        ensures
            match self.frame_sig(f, ctx) {
                Ok((p, q)) => r is Ok && r->Ok_0.0@ == p && r->Ok_0.1@ == q,
                Err(e) => r == Err::<(Vec<Type>, Vec<Type>), ErrorKind>(e),
            },
    {
        if f.kind == FrameKind::Function {
            Ok((Vec::new(), copy_types(&self.results)))
        } else {
            block_sig_of(f.block_type, ctx, self.config)
        }
    }

    fn label_types_of(&self, depth: u32, ctx: &ModuleResources) -> (r: Result<Vec<Type>, ErrorKind>)
        ensures
            match self.label_types(self.state(), depth as int, ctx) {
                Ok(ts) => r is Ok && r->Ok_0@ == ts,
                Err(e) => r == Err::<Vec<Type>, ErrorKind>(e),
            },
    {
        let n = self.frames.len();
        if depth as usize >= n {
            return Err(ErrorKind::IndexOutOfBounds);
        }
        let f = self.frames[n - 1 - depth as usize];
        match self.frame_sig_of(f, ctx) {
            Ok((p, q)) => {
                if f.kind == FrameKind::Loop {
                    Ok(p)
                } else {
                    Ok(q)
                }
            },
            Err(e) => Err(e),
        }
    }
}

fn sig1(ins: Vec<Type>, out: Type) -> (r: Result<(Vec<Type>, Vec<Type>), ErrorKind>)
    ensures
        r is Ok && r->Ok_0.0@ == ins@ && r->Ok_0.1@ == seq![out],
{
    let mut q: Vec<Type> = Vec::new();
    q.push(out);
    proof {
        assert(q@ =~= seq![out]);
    }
    Ok((ins, q))
}

fn one_type(t: Type) -> (r: Vec<Type>)
    ensures
        r@ == seq![t],
{
    let mut v: Vec<Type> = Vec::new();
    v.push(t);
    proof {
        assert(v@ =~= seq![t]);
    }
    v
}

fn three_i32() -> (r: Vec<Type>)
    ensures
        r@ == seq![Type::I32, Type::I32, Type::I32],
{
    let mut v: Vec<Type> = Vec::new();
    v.push(Type::I32);
    v.push(Type::I32);
    v.push(Type::I32);
    proof {
        assert(v@ =~= seq![Type::I32, Type::I32, Type::I32]);
    }
    v
}

fn atomic_width_of(k: u32) -> (r: (u32, Type))
    ensures
        r == atomic_width(k),
{
    if k == 0 {
        (2, Type::I32)
    } else if k == 1 {
        (3, Type::I64)
    } else if k == 2 {
        (0, Type::I32)
    } else if k == 3 {
        (1, Type::I32)
    } else if k == 4 {
        (0, Type::I64)
    } else if k == 5 {
        (1, Type::I64)
    } else {
        (2, Type::I64)
    }
}

fn atomic_sig_of(code: u32) -> (r: Option<(u32, Vec<Type>, Vec<Type>)>)
    ensures
        match atomic_sig(code) {
            Some((a, ins, outs)) => r is Some && r->Some_0.0 == a && r->Some_0.1@ == ins
                && r->Some_0.2@ == outs,
            None => r is None,
        },
{
    if code == 0 {
        Some((2, two_types(Type::I32, Type::I32), one_type(Type::I32)))
    } else if code == 1 {
        let mut ins = two_types(Type::I32, Type::I32);
        ins.push(Type::I64);
        proof {
            assert(ins@ =~= seq![Type::I32, Type::I32, Type::I64]);
        }
        Some((2, ins, one_type(Type::I32)))
    } else if code == 2 {
        let mut ins = two_types(Type::I32, Type::I64);
        ins.push(Type::I64);
        proof {
            assert(ins@ =~= seq![Type::I32, Type::I64, Type::I64]);
        }
        Some((3, ins, one_type(Type::I32)))
    } else if 0x10 <= code && code <= 0x16 {
        let (a, t) = atomic_width_of(code - 0x10);
        Some((a, one_type(Type::I32), one_type(t)))
    } else if 0x17 <= code && code <= 0x1d {
        let (a, t) = atomic_width_of(code - 0x17);
        Some((a, two_types(Type::I32, t), Vec::new()))
    } else if 0x1e <= code && code <= 0x47 {
        let (a, t) = atomic_width_of((code - 0x1e) % 7);
        Some((a, two_types(Type::I32, t), one_type(t)))
    } else if 0x48 <= code && code <= 0x4e {
        let (a, t) = atomic_width_of(code - 0x48);
        let mut ins = two_types(Type::I32, t);
        ins.push(t);
        proof {
            assert(ins@ =~= seq![Type::I32, t, t]);
        }
        Some((a, ins, one_type(t)))
    } else {
        None
    }
}

fn three_types(a: Type, b: Type, c: Type) -> (r: Vec<Type>)
    ensures
        r@ == seq![a, b, c],
{
    let mut v = two_types(a, b);
    v.push(c);
    proof {
        assert(v@ =~= seq![a, b, c]);
    }
    v
}

fn simd_mem_info_of(code: u32) -> (r: (u32, Vec<Type>, Vec<Type>))
    requires
        code <= 0x0b || code == 0x5c || code == 0x5d || (0x54 <= code <= 0x5b),
    ensures
        r.0 == simd_mem_info(code).0,
        r.1@ == simd_mem_info(code).1,
        r.2@ == simd_mem_info(code).2,
{
    if code == 0x00 {
        (4, one_type(Type::I32), one_type(Type::V128))
    } else if code <= 0x06 {
        (3, one_type(Type::I32), one_type(Type::V128))
    } else if code <= 0x0a {
        (code - 0x07, one_type(Type::I32), one_type(Type::V128))
    } else if code == 0x0b {
        (4, two_types(Type::I32, Type::V128), Vec::new())
    } else if code == 0x5c {
        (2, one_type(Type::I32), one_type(Type::V128))
    } else if code == 0x5d {
        (3, one_type(Type::I32), one_type(Type::V128))
    } else if 0x54 <= code && code <= 0x57 {
        (code - 0x54, two_types(Type::I32, Type::V128), one_type(Type::V128))
    } else {
        (code - 0x58, two_types(Type::I32, Type::V128), Vec::new())
    }
}

fn simd_lane_sig_of(code: u32) -> (r: (Vec<Type>, Vec<Type>))
    ensures
        r.0@ == simd_lane_sig(code).0,
        r.1@ == simd_lane_sig(code).1,
{
    let t = if code <= 0x1c {
        Type::I32
    } else if code <= 0x1e {
        Type::I64
    } else if code <= 0x20 {
        Type::F32
    } else {
        Type::F64
    };
    if code == 0x17 || code == 0x1a || code == 0x1c || code == 0x1e || code == 0x20 || code == 0x22 {
        (two_types(Type::V128, t), one_type(Type::V128))
    } else {
        (one_type(Type::V128), one_type(t))
    }
}

fn simd_class_sig_of(c: u8) -> (r: (Vec<Type>, Vec<Type>))
    ensures
        r.0@ == simd_class_sig(c).0,
        r.1@ == simd_class_sig(c).1,
{
    if c == 1 {
        (one_type(Type::V128), one_type(Type::V128))
    } else if c == 2 {
        (two_types(Type::V128, Type::V128), one_type(Type::V128))
    } else if c == 3 {
        (two_types(Type::V128, Type::I32), one_type(Type::V128))
    } else if c == 4 {
        (one_type(Type::V128), one_type(Type::I32))
    } else if c == 5 {
        (three_types(Type::V128, Type::V128, Type::V128), one_type(Type::V128))
    } else if c == 6 {
        (one_type(Type::I32), one_type(Type::V128))
    } else if c == 7 {
        (one_type(Type::I64), one_type(Type::V128))
    } else if c == 8 {
        (one_type(Type::F32), one_type(Type::V128))
    } else {
        (one_type(Type::F64), one_type(Type::V128))
    }
}

fn two_types(t: Type, u: Type) -> (r: Vec<Type>)
    ensures
        r@ == seq![t, u],
{
    let mut v: Vec<Type> = Vec::new();
    v.push(t);
    v.push(u);
    proof {
        assert(v@ =~= seq![t, u]);
    }
    v
}

/// Decodes `count` indices encoded one after another at `start` of `code`.
pub fn read_index_list(code: &[u8], start: usize, count: u32) -> (r: Result<Vec<u32>, ErrorKind>)
    ensures
        match spec_index_list(code@, start as int, count as nat) {
            Ok(ts) => r is Ok && r->Ok_0@ == ts,
            Err(k) => r == Err::<Vec<u32>, ErrorKind>(k),
        },
{
    let ghost s = code@;
    let ghost begin = start as int;
    let ghost f = var_u32_item();
    let mut targets: Vec<u32> = Vec::new();
    if count == 0 {
        return Ok(targets);
    }
    if start > code.len() {
        proof {
            assert(leb_scan(s, begin, 5, 0) is Err);
            assert(spec_var_u32(s, begin) is Err);
            assert(spec_repeat(s, begin, 0, f) == Ok::<(Seq<u32>, int), (ErrorKind, int)>((seq![], begin)));
            assert(spec_repeat(s, begin, 1, f) is Err);
            lemma_repeat_err(s, begin, 1, count as nat, f);
        }
        return Err(ErrorKind::UnexpectedEof);
    }
    let mut reader = BinaryReader::new(code);
    reader.position = start;
    let mut i: u32 = 0;
    while i < count
        invariant
            reader.wf(),
            reader.buffer@ == s,
            reader.base_offset == 0,
            s == code@,
            begin == start,
            i <= count,
            f == var_u32_item(),
            spec_repeat(s, begin, i as nat, f) == Ok::<(Seq<u32>, int), (ErrorKind, int)>(
                (targets@, reader.position as int),
            ),
        decreases count - i,
    {
        match reader.read_var_u32() {
            Ok(t) => {
                targets.push(t);
            },
            Err(e) => {
                proof {
                    assert(spec_repeat(s, begin, (i + 1) as nat, f) is Err);
                    lemma_repeat_err(s, begin, (i + 1) as nat, count as nat, f);
                }
                return Err(e.kind);
            },
        }
        i = i + 1;
    }
    Ok(targets)
}

impl OperatorValidator {
    fn call_sig_of(&self, op: Operator, ctx: &ModuleResources) -> (r: Result<
        (Vec<Type>, Vec<Type>),
        ErrorKind,
    >)
        requires
            ctx.wf(),
        ensures
            match self.call_sig(op, ctx) {
                Ok((p, q)) => r is Ok && r->Ok_0.0@ == p && r->Ok_0.1@ == q,
                Err(e) => r == Err::<(Vec<Type>, Vec<Type>), ErrorKind>(e),
            },
    {
        match op {
            Operator::Call { function_index: f } => {
                if f as usize >= ctx.functions.len() {
                    return Err(ErrorKind::IndexOutOfBounds);
                }
                let t = &ctx.types[ctx.functions[f as usize] as usize];
                Ok((copy_types(&t.params), copy_types(&t.results)))
            },
            Operator::CallIndirect { index, table_index } => {
                if table_index as usize >= ctx.tables.len() || index as usize >= ctx.types.len() {
                    return Err(ErrorKind::IndexOutOfBounds);
                }
                let t = &ctx.types[index as usize];
                let mut p = copy_types(&t.params);
                p.push(Type::I32);
                Ok((p, copy_types(&t.results)))
            },
            _ => Err(ErrorKind::UnknownOpcode),
        }
    }

    fn variable_sig_of(&self, op: Operator, ctx: &ModuleResources) -> (r: Result<
        (Vec<Type>, Vec<Type>),
        ErrorKind,
    >)
        requires
            ctx.wf(),
        ensures
            match self.variable_sig(op, ctx) {
                Ok((p, q)) => r is Ok && r->Ok_0.0@ == p && r->Ok_0.1@ == q,
                Err(e) => r == Err::<(Vec<Type>, Vec<Type>), ErrorKind>(e),
            },
    {
        match op {
            Operator::LocalGet { local_index: i } => {
                if i as usize >= self.locals.len() {
                    return Err(ErrorKind::IndexOutOfBounds);
                }
                sig1(Vec::new(), self.locals[i as usize])
            },
            Operator::LocalSet { local_index: i } => {
                if i as usize >= self.locals.len() {
                    return Err(ErrorKind::IndexOutOfBounds);
                }
                Ok((one_type(self.locals[i as usize]), Vec::new()))
            },
            Operator::LocalTee { local_index: i } => {
                if i as usize >= self.locals.len() {
                    return Err(ErrorKind::IndexOutOfBounds);
                }
                sig1(one_type(self.locals[i as usize]), self.locals[i as usize])
            },
            Operator::GlobalGet { global_index: i } => {
                if i as usize >= ctx.globals.len() {
                    return Err(ErrorKind::IndexOutOfBounds);
                }
                sig1(Vec::new(), ctx.globals[i as usize].content_type)
            },
            Operator::GlobalSet { global_index: i } => {
                if i as usize >= ctx.globals.len() {
                    return Err(ErrorKind::IndexOutOfBounds);
                }
                if !ctx.globals[i as usize].mutable {
                    return Err(ErrorKind::GlobalIsImmutable);
                }
                Ok((one_type(ctx.globals[i as usize].content_type), Vec::new()))
            },
            _ => Err(ErrorKind::UnknownOpcode),
        }
    }

    fn memory_sig_of(&self, op: Operator, ctx: &ModuleResources) -> (r: Result<
        (Vec<Type>, Vec<Type>),
        ErrorKind,
    >)
        requires
            ctx.wf(),
        ensures
            match self.memory_sig(op, ctx) {
                Ok((p, q)) => r is Ok && r->Ok_0.0@ == p && r->Ok_0.1@ == q,
                Err(e) => r == Err::<(Vec<Type>, Vec<Type>), ErrorKind>(e),
            },
    {
        match op {
            Operator::Load { code, memarg } => {
                if code < 0x28 || code > 0x35 {
                    return Err(ErrorKind::UnknownOpcode);
                }
                if ctx.memories.len() == 0 {
                    return Err(ErrorKind::IndexOutOfBounds);
                }
                let (align, t) = load_info_of(code);
                if memarg.flags > align {
                    return Err(ErrorKind::InvalidAlignment);
                }
                sig1(one_type(Type::I32), t)
            },
            Operator::Store { code, memarg } => {
                if code < 0x36 || code > 0x3e {
                    return Err(ErrorKind::UnknownOpcode);
                }
                if ctx.memories.len() == 0 {
                    return Err(ErrorKind::IndexOutOfBounds);
                }
                let (align, t) = store_info_of(code);
                if memarg.flags > align {
                    return Err(ErrorKind::InvalidAlignment);
                }
                Ok((two_types(Type::I32, t), Vec::new()))
            },
            Operator::MemorySize { reserved } => {
                if ctx.memories.len() <= reserved as usize {
                    return Err(ErrorKind::IndexOutOfBounds);
                }
                sig1(Vec::new(), Type::I32)
            },
            Operator::MemoryGrow { reserved } => {
                if ctx.memories.len() <= reserved as usize {
                    return Err(ErrorKind::IndexOutOfBounds);
                }
                sig1(one_type(Type::I32), Type::I32)
            },
            _ => Err(ErrorKind::UnknownOpcode),
        }
    }

    fn value_sig_of(&self, op: Operator, ctx: &ModuleResources) -> (r: Result<
        (Vec<Type>, Vec<Type>),
        ErrorKind,
    >)
        requires
            ctx.wf(),
        ensures
            match self.value_sig(op, ctx) {
                Ok((p, q)) => r is Ok && r->Ok_0.0@ == p && r->Ok_0.1@ == q,
                Err(e) => r == Err::<(Vec<Type>, Vec<Type>), ErrorKind>(e),
            },
    {
        match op {
            Operator::I32Const { .. } => sig1(Vec::new(), Type::I32),
            Operator::I64Const { .. } => sig1(Vec::new(), Type::I64),
            Operator::F32Const { .. } => sig1(Vec::new(), Type::F32),
            Operator::F64Const { .. } => sig1(Vec::new(), Type::F64),
            Operator::Numeric { code } => {
                if code < 0x45 || code > 0xc4 {
                    return Err(ErrorKind::UnknownOpcode);
                }
                if self.config.deterministic_only && may_produce_nan_of(code) {
                    return Err(ErrorKind::UnsupportedFeature);
                }
                let (t, n, r) = numeric_sig_of(code);
                let ins = if n == 1 {
                    one_type(t)
                } else {
                    two_types(t, t)
                };
                sig1(ins, r)
            },
            Operator::TruncSat { code } => {
                if code > 7 {
                    return Err(ErrorKind::UnknownOpcode);
                }
                let (t, r) = trunc_sat_sig_of(code);
                sig1(one_type(t), r)
            },
            _ => Err(ErrorKind::UnknownOpcode),
        }
    }

    fn reference_sig_of(&self, op: Operator, ctx: &ModuleResources) -> (r: Result<
        (Vec<Type>, Vec<Type>),
        ErrorKind,
    >)
        requires
            ctx.wf(),
        ensures
            match self.reference_sig(op, ctx) {
                Ok((p, q)) => r is Ok && r->Ok_0.0@ == p && r->Ok_0.1@ == q,
                Err(e) => r == Err::<(Vec<Type>, Vec<Type>), ErrorKind>(e),
            },
    {
        match op {
            Operator::RefNull => {
                if !self.config.enable_reference_types {
                    return Err(ErrorKind::UnsupportedFeature);
                }
                sig1(Vec::new(), Type::AnyRef)
            },
            Operator::RefIsNull => {
                if !self.config.enable_reference_types {
                    return Err(ErrorKind::UnsupportedFeature);
                }
                sig1(one_type(Type::AnyRef), Type::I32)
            },
            Operator::RefFunc { function_index: f } => {
                if !self.config.enable_reference_types {
                    return Err(ErrorKind::UnsupportedFeature);
                }
                if f as usize >= ctx.functions.len() {
                    return Err(ErrorKind::IndexOutOfBounds);
                }
                sig1(Vec::new(), Type::AnyFunc)
            },
            _ => Err(ErrorKind::UnknownOpcode),
        }
    }

    fn bulk_sig_of(&self, op: Operator, ctx: &ModuleResources) -> (r: Result<
        (Vec<Type>, Vec<Type>),
        ErrorKind,
    >)
        ensures
            match self.bulk_sig(op, ctx) {
                Ok((p, q)) => r is Ok && r->Ok_0.0@ == p && r->Ok_0.1@ == q,
                Err(e) => r == Err::<(Vec<Type>, Vec<Type>), ErrorKind>(e),
            },
    {
        if !self.config.enable_bulk_memory {
            return Err(ErrorKind::UnsupportedFeature);
        }
        let data_count: u32 = match ctx.data_count {
            Some(n) => n,
            None => 0,
        };
        let three = three_i32();
        match op {
            Operator::MemoryInit { segment, mem } => {
                if mem as usize >= ctx.memories.len() || segment >= data_count {
                    return Err(ErrorKind::IndexOutOfBounds);
                }
                Ok((three, Vec::new()))
            },
            Operator::DataDrop { segment } => {
                if segment >= data_count {
                    return Err(ErrorKind::IndexOutOfBounds);
                }
                Ok((Vec::new(), Vec::new()))
            },
            Operator::MemoryCopy { dst, src } => {
                if dst as usize >= ctx.memories.len() || src as usize >= ctx.memories.len() {
                    return Err(ErrorKind::IndexOutOfBounds);
                }
                Ok((three, Vec::new()))
            },
            Operator::MemoryFill { mem } => {
                if mem as usize >= ctx.memories.len() {
                    return Err(ErrorKind::IndexOutOfBounds);
                }
                Ok((three, Vec::new()))
            },
            Operator::TableInit { segment, table } => {
                if table as usize >= ctx.tables.len() || segment >= ctx.element_count {
                    return Err(ErrorKind::IndexOutOfBounds);
                }
                Ok((three, Vec::new()))
            },
            Operator::ElemDrop { segment } => {
                if segment >= ctx.element_count {
                    return Err(ErrorKind::IndexOutOfBounds);
                }
                Ok((Vec::new(), Vec::new()))
            },
            Operator::TableCopy { dst, src } => {
                if dst as usize >= ctx.tables.len() || src as usize >= ctx.tables.len() {
                    return Err(ErrorKind::IndexOutOfBounds);
                }
                Ok((three, Vec::new()))
            },
            _ => Err(ErrorKind::UnknownOpcode),
        }
    }

    fn atomic_op_sig_of(&self, op: Operator, ctx: &ModuleResources) -> (r: Result<
        (Vec<Type>, Vec<Type>),
        ErrorKind,
    >)
        ensures
            match self.atomic_op_sig(op, ctx) {
                Ok((p, q)) => r is Ok && r->Ok_0.0@ == p && r->Ok_0.1@ == q,
                Err(e) => r == Err::<(Vec<Type>, Vec<Type>), ErrorKind>(e),
            },
    {
        if !self.config.enable_threads {
            return Err(ErrorKind::UnsupportedFeature);
        }
        match op {
            Operator::Atomic { code, memarg } => {
                match atomic_sig_of(code) {
                    Some((a, ins, outs)) => {
                        if ctx.memories.len() == 0 {
                            Err(ErrorKind::IndexOutOfBounds)
                        } else if memarg.flags != a {
                            Err(ErrorKind::InvalidAlignment)
                        } else {
                            Ok((ins, outs))
                        }
                    },
                    None => Err(ErrorKind::UnknownOpcode),
                }
            },
            Operator::AtomicFence { .. } => Ok((Vec::new(), Vec::new())),
            _ => Err(ErrorKind::UnknownOpcode),
        }
    }

    fn table_sig_of(&self, op: Operator, ctx: &ModuleResources) -> (r: Result<
        (Vec<Type>, Vec<Type>),
        ErrorKind,
    >)
        ensures
            match self.table_sig(op, ctx) {
                Ok((p, q)) => r is Ok && r->Ok_0.0@ == p && r->Ok_0.1@ == q,
                Err(e) => r == Err::<(Vec<Type>, Vec<Type>), ErrorKind>(e),
            },
    {
        if !self.config.enable_reference_types {
            return Err(ErrorKind::UnsupportedFeature);
        }
        let table = match op {
            Operator::TableGet { table } | Operator::TableSet { table } | Operator::TableGrow {
                table,
            }
            | Operator::TableSize { table } | Operator::TableFill { table } => table,
            _ => {
                return Err(ErrorKind::UnknownOpcode);
            },
        };
        if table as usize >= ctx.tables.len() {
            return Err(ErrorKind::IndexOutOfBounds);
        }
        let t = ctx.tables[table as usize].element_type;
        match op {
            Operator::TableGet { .. } => Ok((one_type(Type::I32), one_type(t))),
            Operator::TableSet { .. } => Ok((two_types(Type::I32, t), Vec::new())),
            Operator::TableGrow { .. } => Ok((two_types(t, Type::I32), one_type(Type::I32))),
            Operator::TableSize { .. } => Ok((Vec::new(), one_type(Type::I32))),
            _ => {
                let mut ins = two_types(Type::I32, t);
                ins.push(Type::I32);
                proof {
                    assert(ins@ =~= seq![Type::I32, t, Type::I32]);
                }
                Ok((ins, Vec::new()))
            },
        }
    }

    fn simd_sig_of(&self, op: Operator, ctx: &ModuleResources) -> (r: Result<
        (Vec<Type>, Vec<Type>),
        ErrorKind,
    >)
        ensures
            match self.simd_sig(op, ctx) {
                Ok((p, q)) => r is Ok && r->Ok_0.0@ == p && r->Ok_0.1@ == q,
                Err(e) => r == Err::<(Vec<Type>, Vec<Type>), ErrorKind>(e),
            },
    {
        if !self.config.enable_simd {
            return Err(ErrorKind::UnsupportedFeature);
        }
        match op {
            Operator::SimdMemory { code, memarg } => {
                if !(code <= 0x0b || code == 0x5c || code == 0x5d) {
                    return Err(ErrorKind::UnknownOpcode);
                }
                if ctx.memories.len() == 0 {
                    return Err(ErrorKind::IndexOutOfBounds);
                }
                let (align, ins, outs) = simd_mem_info_of(code);
                if memarg.flags > align {
                    return Err(ErrorKind::InvalidAlignment);
                }
                Ok((ins, outs))
            },
            Operator::SimdMemoryLane { code, memarg, lane } => {
                if !(0x54 <= code && code <= 0x5b) {
                    return Err(ErrorKind::UnknownOpcode);
                }
                if lane >= simd_lanes_of(code) {
                    return Err(ErrorKind::InvalidLaneIndex);
                }
                if ctx.memories.len() == 0 {
                    return Err(ErrorKind::IndexOutOfBounds);
                }
                let (align, ins, outs) = simd_mem_info_of(code);
                if memarg.flags > align {
                    return Err(ErrorKind::InvalidAlignment);
                }
                Ok((ins, outs))
            },
            Operator::V128Const { .. } => Ok((Vec::new(), one_type(Type::V128))),
            Operator::I8x16Shuffle { .. } => Ok((two_types(Type::V128, Type::V128), one_type(Type::V128))),
            Operator::SimdLane { code, lane } => {
                if !(0x15 <= code && code <= 0x22) {
                    return Err(ErrorKind::UnknownOpcode);
                }
                if lane >= simd_lanes_of(code) {
                    return Err(ErrorKind::InvalidLaneIndex);
                }
                Ok(simd_lane_sig_of(code))
            },
            Operator::Simd { code } => {
                let c = simd_class_of(code);
                if c == 0 {
                    return Err(ErrorKind::UnknownOpcode);
                }
                Ok(simd_class_sig_of(c))
            },
            _ => Err(ErrorKind::UnknownOpcode),
        }
    }

    fn simple_sig_of(&self, op: Operator, ctx: &ModuleResources) -> (r: Result<
        (Vec<Type>, Vec<Type>),
        ErrorKind,
    >)
        requires
            ctx.wf(),
        ensures
            match self.simple_sig(op, ctx) {
                Ok((p, q)) => r is Ok && r->Ok_0.0@ == p && r->Ok_0.1@ == q,
                Err(e) => r == Err::<(Vec<Type>, Vec<Type>), ErrorKind>(e),
            },
    {
        match op {
            Operator::Nop => Ok((Vec::new(), Vec::new())),
            Operator::Call { .. } | Operator::CallIndirect { .. } => self.call_sig_of(op, ctx),
            Operator::LocalGet { .. } | Operator::LocalSet { .. } | Operator::LocalTee { .. }
            | Operator::GlobalGet { .. } | Operator::GlobalSet { .. } => self.variable_sig_of(op, ctx),
            Operator::Load { .. } | Operator::Store { .. } | Operator::MemorySize { .. }
            | Operator::MemoryGrow { .. } => self.memory_sig_of(op, ctx),
            Operator::I32Const { .. } | Operator::I64Const { .. } | Operator::F32Const { .. }
            | Operator::F64Const { .. } | Operator::Numeric { .. } | Operator::TruncSat { .. } => self.value_sig_of(op, ctx),
            Operator::RefNull | Operator::RefIsNull | Operator::RefFunc { .. } => self.reference_sig_of(op, ctx),
            Operator::MemoryInit { .. } | Operator::DataDrop { .. } | Operator::MemoryCopy { .. }
            | Operator::MemoryFill { .. } | Operator::TableInit { .. } | Operator::ElemDrop { .. }
            | Operator::TableCopy { .. } => self.bulk_sig_of(op, ctx),
            Operator::Atomic { .. } | Operator::AtomicFence { .. } => self.atomic_op_sig_of(op, ctx),
            Operator::TableGet { .. } | Operator::TableSet { .. } | Operator::TableGrow { .. }
            | Operator::TableSize { .. } | Operator::TableFill { .. } => self.table_sig_of(op, ctx),
            Operator::SimdMemory { .. } | Operator::SimdMemoryLane { .. } | Operator::V128Const { .. }
            | Operator::I8x16Shuffle { .. } | Operator::SimdLane { .. } | Operator::Simd { .. } => self.simd_sig_of(op, ctx),
            _ => Err(ErrorKind::UnknownOpcode),
        }
    }

    fn enter(&mut self, kind: FrameKind, ty: TypeOrFuncType, ctx: &ModuleResources) -> (r: Result<
        (),
        ErrorKind,
    >)
        requires
            old(self).wf(),
            old(self).frames@.len() > 0,
        ensures
            final(self).locals == old(self).locals,
            final(self).results == old(self).results,
            final(self).config == old(self).config,
            match old(self).spec_enter(old(self).state(), kind, ty, ctx) {
                Ok(st) => r is Ok && final(self).state() == st && final(self).wf(),
                Err(e) => r == Err::<(), ErrorKind>(e),
            },
    {
        let (params, _) = match block_sig_of(ty, ctx, self.config) {
            Ok(sig) => sig,
            Err(e) => {
                return Err(e);
            },
        };
        match self.pop_types(&params) {
            Ok(()) => {},
            Err(e) => {
                return Err(e);
            },
        }
        let height = self.stack.len();
        self.frames.push(ControlFrame { kind, block_type: ty, height, unreachable: false });
        self.push_types(&params);
        Ok(())
    }

    /// Whether every target of a `br_table` carries the types `ts`.
    fn check_targets_of(&self, targets: &Vec<u32>, ts: &Vec<Type>, ctx: &ModuleResources) -> (r: Result<
        (),
        ErrorKind,
    >)
        ensures
            r == self.check_targets(self.state(), targets@, ts@, ctx),
    {
        let mut i: usize = 0;
        while i < targets.len()
            invariant
                i <= targets@.len(),
                self.check_targets(self.state(), targets@.subrange(0, i as int), ts@, ctx) == Ok::<
                    (),
                    ErrorKind,
                >(()),
            decreases targets@.len() - i,
        {
            proof {
                assert(targets@.subrange(0, i + 1).drop_last() =~= targets@.subrange(0, i as int));
            }
            match self.label_types_of(targets[i], ctx) {
                Ok(t2) => {
                    if !types_equal(&t2, ts) {
                        proof {
                            lemma_check_targets_err(self, self.state(), targets@, ts@, ctx, (i + 1) as nat);
                        }
                        return Err(ErrorKind::TypeMismatch);
                    }
                },
                Err(e) => {
                    proof {
                        lemma_check_targets_err(self, self.state(), targets@, ts@, ctx, (i + 1) as nat);
                    }
                    return Err(e);
                },
            }
            i = i + 1;
        }
        proof {
            assert(targets@.subrange(0, i as int) =~= targets@);
        }
        Ok(())
    }
}

fn types_equal(a: &Vec<Type>, b: &Vec<Type>) -> (r: bool)
    ensures
        r == (a@ == b@),
{
    if a.len() != b.len() {
        return false;
    }
    let mut i: usize = 0;
    while i < a.len()
        invariant
            a@.len() == b@.len(),
            i <= a@.len(),
            forall|j: int| 0 <= j < i ==> a@[j] == b@[j],
        decreases a@.len() - i,
    {
        if a[i] != b[i] {
            return false;
        }
        i = i + 1;
    }
    proof {
        assert(a@ =~= b@);
    }
    true
}

/// The check of `br_table` targets reads only the function's results and
/// the configuration.
proof fn lemma_check_targets_same(
    a: &OperatorValidator,
    b: &OperatorValidator,
    st: VState,
    targets: Seq<u32>,
    ts: Seq<Type>,
    ctx: &ModuleResources,
)
    requires
        a.results == b.results,
        a.config == b.config,
    ensures
        a.check_targets(st, targets, ts, ctx) == b.check_targets(st, targets, ts, ctx),
    decreases targets.len(),
{
    if targets.len() > 0 {
        lemma_check_targets_same(a, b, st, targets.drop_last(), ts, ctx);
    }
}

/// Once a target fails the check, the check of every longer list fails
/// the same way.
proof fn lemma_check_targets_err(
    v: &OperatorValidator,
    st: VState,
    targets: Seq<u32>,
    ts: Seq<Type>,
    ctx: &ModuleResources,
    i: nat,
)
    requires
        i <= targets.len(),
        v.check_targets(st, targets.subrange(0, i as int), ts, ctx) is Err,
    ensures
        v.check_targets(st, targets, ts, ctx) == v.check_targets(st, targets.subrange(0, i as int), ts, ctx),
    decreases targets.len() - i,
{
    if i < targets.len() {
        assert(targets.subrange(0, (i + 1) as int).drop_last() =~= targets.subrange(0, i as int));
        lemma_check_targets_err(v, st, targets, ts, ctx, i + 1);
    } else {
        assert(targets.subrange(0, i as int) =~= targets);
    }
}

impl OperatorValidator {
    fn process_else(&mut self, ctx: &ModuleResources) -> (r: Result<(), ErrorKind>)
        requires
            old(self).wf(),
            old(self).frames@.len() > 0,
        ensures
            final(self).locals == old(self).locals,
            final(self).results == old(self).results,
            final(self).config == old(self).config,
            match old(self).spec_else(old(self).state(), ctx) {
                Ok(st) => r is Ok && final(self).state() == st && final(self).wf(),
                Err(e) => r == Err::<(), ErrorKind>(e),
            },
    {
        let n = self.frames.len();
        let f = self.frames[n - 1];
        if f.kind != FrameKind::If {
            return Err(ErrorKind::TypeMismatch);
        }
        let (p, q) = match self.frame_sig_of(f, ctx) {
            Ok(sig) => sig,
            Err(e) => {
                return Err(e);
            },
        };
        match self.pop_types(&q) {
            Ok(()) => {},
            Err(e) => {
                return Err(e);
            },
        }
        if self.stack.len() != f.height {
            return Err(ErrorKind::TypeMismatch);
        }
        self.frames.set(n - 1, ControlFrame { kind: FrameKind::Else, unreachable: false, ..f });
        self.push_types(&p);
        Ok(())
    }

    fn process_end(&mut self, ctx: &ModuleResources) -> (r: Result<(), ErrorKind>)
        requires
            old(self).wf(),
            old(self).frames@.len() > 0,
        ensures
            final(self).locals == old(self).locals,
            final(self).results == old(self).results,
            final(self).config == old(self).config,
            match old(self).spec_end(old(self).state(), ctx) {
                Ok(st) => r is Ok && final(self).state() == st && final(self).wf(),
                Err(e) => r == Err::<(), ErrorKind>(e),
            },
    {
        let n = self.frames.len();
        let f = self.frames[n - 1];
        let (p, q) = match self.frame_sig_of(f, ctx) {
            Ok(sig) => sig,
            Err(e) => {
                return Err(e);
            },
        };
        if f.kind == FrameKind::If && !types_equal(&p, &q) {
            return Err(ErrorKind::TypeMismatch);
        }
        match self.pop_types(&q) {
            Ok(()) => {},
            Err(e) => {
                return Err(e);
            },
        }
        if self.stack.len() != f.height {
            return Err(ErrorKind::TypeMismatch);
        }
        self.frames.pop();
        if self.frames.len() > 0 {
            self.push_types(&q);
        }
        Ok(())
    }

    fn process_br_table(&mut self, table: BrTable, ctx: &ModuleResources, code: &[u8]) -> (r: Result<
        (),
        ErrorKind,
    >)
        requires
            old(self).wf(),
            old(self).frames@.len() > 0,
        ensures
            final(self).locals == old(self).locals,
            final(self).results == old(self).results,
            final(self).config == old(self).config,
            match old(self).spec_br_table(old(self).state(), table, ctx, code@) {
                Ok(st) => r is Ok && final(self).state() == st && final(self).wf(),
                Err(e) => r == Err::<(), ErrorKind>(e),
            },
    {
        match self.pop_operand(Some(Type::I32)) {
            Ok(_) => {},
            Err(e) => {
                return Err(e);
            },
        }
        let ts = match self.label_types_of(table.default, ctx) {
            Ok(ts) => ts,
            Err(e) => {
                return Err(e);
            },
        };
        let targets = match read_index_list(code, table.targets.start, table.count) {
            Ok(t) => t,
            Err(e) => {
                return Err(e);
            },
        };
        proof {
            lemma_check_targets_same(&*old(self), &*self, self.state(), targets@, ts@, ctx);
        }
        match self.check_targets_of(&targets, &ts, ctx) {
            Ok(()) => {},
            Err(e) => {
                return Err(e);
            },
        }
        match self.pop_types(&ts) {
            Ok(()) => {},
            Err(e) => {
                return Err(e);
            },
        }
        self.set_unreachable();
        Ok(())
    }

    fn process_select(&mut self) -> (r: Result<(), ErrorKind>)
        requires
            old(self).wf(),
            old(self).frames@.len() > 0,
        ensures
            final(self).locals == old(self).locals,
            final(self).results == old(self).results,
            final(self).config == old(self).config,
            match old(self).spec_select(old(self).state()) {
                Ok(st) => r is Ok && final(self).state() == st && final(self).wf(),
                Err(e) => r == Err::<(), ErrorKind>(e),
            },
    {
        match self.pop_operand(Some(Type::I32)) {
            Ok(_) => {},
            Err(e) => {
                return Err(e);
            },
        }
        let t1 = match self.pop_operand(None) {
            Ok(t) => t,
            Err(e) => {
                return Err(e);
            },
        };
        let t2 = match self.pop_operand(None) {
            Ok(t) => t,
            Err(e) => {
                return Err(e);
            },
        };
        if let Some(a) = t1 {
            if let Some(b) = t2 {
                if a != b {
                    return Err(ErrorKind::TypeMismatch);
                }
            }
        }
        let t = if t1.is_some() {
            t1
        } else {
            t2
        };
        self.stack.push(t);
        Ok(())
    }

    fn process_if(&mut self, ty: TypeOrFuncType, ctx: &ModuleResources) -> (r: Result<(), ErrorKind>)
        requires
            old(self).wf(),
            old(self).frames@.len() > 0,
            ctx.wf(),
        ensures
            final(self).locals == old(self).locals,
            final(self).results == old(self).results,
            final(self).config == old(self).config,
            match old(self).spec_if(old(self).state(), ty, ctx) {
                Ok(st) => r is Ok && final(self).state() == st && final(self).wf(),
                Err(e) => r == Err::<(), ErrorKind>(e),
            },
    {
        match self.pop_operand(Some(Type::I32)) {
            Ok(_) => {},
            Err(e) => {
                return Err(e);
            },
        }
        self.enter(FrameKind::If, ty, ctx)
    }

    fn process_br(&mut self, d: u32, ctx: &ModuleResources) -> (r: Result<(), ErrorKind>)
        requires
            old(self).wf(),
            old(self).frames@.len() > 0,
            ctx.wf(),
        ensures
            final(self).locals == old(self).locals,
            final(self).results == old(self).results,
            final(self).config == old(self).config,
            match old(self).spec_br(old(self).state(), d, ctx) {
                Ok(st) => r is Ok && final(self).state() == st && final(self).wf(),
                Err(e) => r == Err::<(), ErrorKind>(e),
            },
    {
        let ts = match self.label_types_of(d, ctx) {
            Ok(ts) => ts,
            Err(e) => {
                return Err(e);
            },
        };
        match self.pop_types(&ts) {
            Ok(()) => {},
            Err(e) => {
                return Err(e);
            },
        }
        self.set_unreachable();
        Ok(())
    }

    fn process_br_if(&mut self, d: u32, ctx: &ModuleResources) -> (r: Result<(), ErrorKind>)
        requires
            old(self).wf(),
            old(self).frames@.len() > 0,
            ctx.wf(),
        ensures
            final(self).locals == old(self).locals,
            final(self).results == old(self).results,
            final(self).config == old(self).config,
            match old(self).spec_br_if(old(self).state(), d, ctx) {
                Ok(st) => r is Ok && final(self).state() == st && final(self).wf(),
                Err(e) => r == Err::<(), ErrorKind>(e),
            },
    {
        match self.pop_operand(Some(Type::I32)) {
            Ok(_) => {},
            Err(e) => {
                return Err(e);
            },
        }
        let ts = match self.label_types_of(d, ctx) {
            Ok(ts) => ts,
            Err(e) => {
                return Err(e);
            },
        };
        match self.pop_types(&ts) {
            Ok(()) => {},
            Err(e) => {
                return Err(e);
            },
        }
        self.push_types(&ts);
        Ok(())
    }

    fn process_simple(&mut self, op: Operator, ctx: &ModuleResources) -> (r: Result<(), ErrorKind>)
        requires
            old(self).wf(),
            old(self).frames@.len() > 0,
            ctx.wf(),
        ensures
            final(self).locals == old(self).locals,
            final(self).results == old(self).results,
            final(self).config == old(self).config,
            match old(self).spec_simple(old(self).state(), op, ctx) {
                Ok(st) => r is Ok && final(self).state() == st && final(self).wf(),
                Err(e) => r == Err::<(), ErrorKind>(e),
            },
    {
        let (ins, outs) = match self.simple_sig_of(op, ctx) {
            Ok(sig) => sig,
            Err(e) => {
                return Err(e);
            },
        };
        match self.pop_types(&ins) {
            Ok(()) => {},
            Err(e) => {
                return Err(e);
            },
        }
        self.push_types(&outs);
        Ok(())
    }

    fn process_return(&mut self) -> (r: Result<(), ErrorKind>)
        requires
            old(self).wf(),
            old(self).frames@.len() > 0,
        ensures
            final(self).locals == old(self).locals,
            final(self).results == old(self).results,
            final(self).config == old(self).config,
            match old(self).spec_return(old(self).state()) {
                Ok(st) => r is Ok && final(self).state() == st && final(self).wf(),
                Err(e) => r == Err::<(), ErrorKind>(e),
            },
    {
        let rs = copy_types(&self.results);
        match self.pop_types(&rs) {
            Ok(()) => {},
            Err(e) => {
                return Err(e);
            },
        }
        self.set_unreachable();
        Ok(())
    }

    /// Validates one operator of the body and updates the stacks.
    pub fn process_operator(&mut self, op: Operator, ctx: &ModuleResources, code: &[u8]) -> (r: Result<
        (),
        ErrorKind,
    >)
        requires
            old(self).wf(),
            ctx.wf(),
        ensures
            final(self).locals == old(self).locals,
            final(self).results == old(self).results,
            final(self).config == old(self).config,
            match old(self).spec_step(op, ctx, code@) {
                Ok(st) => r is Ok && final(self).state() == st && final(self).wf(),
                Err(e) => r == Err::<(), ErrorKind>(e),
            },
    {
        if self.frames.len() == 0 {
            return Err(ErrorKind::TypeMismatch);
        }
        match op {
            Operator::Unreachable => {
                self.set_unreachable();
                Ok(())
            },
            Operator::Block { ty } => self.enter(FrameKind::Block, ty, ctx),
            Operator::Loop { ty } => self.enter(FrameKind::Loop, ty, ctx),
            Operator::If { ty } => self.process_if(ty, ctx),
            Operator::Else => self.process_else(ctx),
            Operator::End => self.process_end(ctx),
            Operator::Br { relative_depth } => self.process_br(relative_depth, ctx),
            Operator::BrIf { relative_depth } => self.process_br_if(relative_depth, ctx),
            Operator::BrTable { table } => self.process_br_table(table, ctx, code),
            Operator::Return => self.process_return(),
            Operator::Drop => {
                match self.pop_operand(None) {
                    Ok(_) => Ok(()),
                    Err(e) => Err(e),
                }
            },
            Operator::Select => self.process_select(),
            _ => self.process_simple(op, ctx),
        }
    }

    /// Whether the body's final `end` has been validated.
    pub fn is_finished(&self) -> (r: bool)
        ensures
            r == (self.frames@.len() == 0),
    {
        self.frames.len() == 0
    }
}

proof fn lemma_locals_total_monotone(groups: Seq<(u32, Type)>, i: int)
    requires
        0 <= i <= groups.len(),
    ensures
        locals_total(groups.subrange(0, i)) <= locals_total(groups),
        locals_total(groups) >= 0,
    decreases groups.len(),
{
    if groups.len() > 0 {
        if i == groups.len() {
            assert(groups.subrange(0, i) =~= groups);
            lemma_locals_total_monotone(groups.drop_last(), 0);
        } else {
            assert(groups.drop_last().subrange(0, i) =~= groups.subrange(0, i));
            lemma_locals_total_monotone(groups.drop_last(), i);
        }
    } else {
        assert(groups.subrange(0, i) =~= groups);
    }
}

impl OperatorValidator {
    /// A validator for a body with signature `func_type` and local groups
    /// `locals`: the locals are the parameters, then the declared ones; the
    /// only open block is the function's own.
    pub fn new(func_type: &FuncType, locals: &Vec<(u32, Type)>, config: OperatorValidatorConfig) -> (r: Result<
        OperatorValidator,
        ErrorKind,
    >)
        ensures
            locals_total(locals@) > MAX_WASM_FUNCTION_LOCALS ==> r == Err::<OperatorValidator, ErrorKind>(
                ErrorKind::LimitExceeded,
            ),
            locals_total(locals@) <= MAX_WASM_FUNCTION_LOCALS ==> {
                &&& r is Ok
                &&& r->Ok_0.wf()
                &&& r->Ok_0.locals@ == func_type.params@ + expand_locals(locals@)
                &&& r->Ok_0.results@ == func_type.results@
                &&& r->Ok_0.config == config
                &&& r->Ok_0.stack@.len() == 0
                &&& r->Ok_0.frames@ == seq![
                    ControlFrame {
                        kind: FrameKind::Function,
                        block_type: TypeOrFuncType::Type(Type::EmptyBlockType),
                        height: 0,
                        unreachable: false,
                    },
                ]
            },
    {
        let mut total: u64 = 0;
        let mut i: usize = 0;
        while i < locals.len()
            invariant
                i <= locals@.len(),
                total == locals_total(locals@.subrange(0, i as int)),
                total <= MAX_WASM_FUNCTION_LOCALS,
            decreases locals@.len() - i,
        {
            proof {
                assert(locals@.subrange(0, i + 1).drop_last() =~= locals@.subrange(0, i as int));
            }
            total = total + locals[i].0 as u64;
            i = i + 1;
            if total > MAX_WASM_FUNCTION_LOCALS as u64 {
                proof {
                    lemma_locals_total_monotone(locals@, i as int);
                }
                return Err(ErrorKind::LimitExceeded);
            }
        }
        proof {
            assert(locals@.subrange(0, i as int) =~= locals@);
        }
        let mut all = copy_types(&func_type.params);
        let mut g: usize = 0;
        while g < locals.len()
            invariant
                g <= locals@.len(),
                all@ == func_type.params@ + expand_locals(locals@.subrange(0, g as int)),
            decreases locals@.len() - g,
        {
            let (n, t) = locals[g];
            let ghost before = all@;
            let mut k: u32 = 0;
            while k < n
                invariant
                    k <= n,
                    all@ == before + Seq::new(k as nat, |j: int| t),
                decreases n - k,
            {
                all.push(t);
                k = k + 1;
                proof {
                    assert(all@ =~= before + Seq::new(k as nat, |j: int| t));
                }
            }
            proof {
                assert(locals@.subrange(0, g + 1).drop_last() =~= locals@.subrange(0, g as int));
                assert(all@ =~= func_type.params@ + expand_locals(locals@.subrange(0, g + 1)));
            }
            g = g + 1;
        }
        proof {
            assert(locals@.subrange(0, g as int) =~= locals@);
        }
        let mut frames: Vec<ControlFrame> = Vec::new();
        frames.push(
            ControlFrame {
                kind: FrameKind::Function,
                block_type: TypeOrFuncType::Type(Type::EmptyBlockType),
                height: 0,
                unreachable: false,
            },
        );
        Ok(OperatorValidator {
            stack: Vec::new(),
            frames,
            locals: all,
            results: copy_types(&func_type.results),
            config,
        })
    }
}

/// Validating the `end` that closes a function body leaves both the operand
/// stack and the block stack empty.
pub proof fn lemma_end_of_body_empties_stacks(v: &OperatorValidator, ctx: &ModuleResources, code: Seq<u8>)
    requires
        v.wf(),
        v.frames@.len() == 1,
        v.spec_step(Operator::End, ctx, code) is Ok,
    ensures
        v.spec_step(Operator::End, ctx, code)->Ok_0.stack.len() == 0,
        v.spec_step(Operator::End, ctx, code)->Ok_0.frames.len() == 0,
{
    let st = v.state();
    let f = st.frames.last();
    let r = v.frame_sig(f, ctx)->Ok_0.1;
    lemma_pop_types_frames(st, r);
}

/// Popping operands leaves the open blocks as they are.
pub proof fn lemma_pop_types_frames(st: VState, ts: Seq<Type>)
    ensures
        spec_pop_types(st, ts) is Ok ==> spec_pop_types(st, ts)->Ok_0.frames == st.frames,
    decreases ts.len(),
{
    if ts.len() > 0 {
        match spec_pop(st, Some(ts.last())) {
            Ok((st2, _)) => lemma_pop_types_frames(st2, ts.drop_last()),
            Err(_) => {},
        }
    }
}

/// In a function body, `global.set` of an existing immutable global fails
/// with `GlobalIsImmutable`, whatever the stacks hold.
pub proof fn lemma_set_immutable_global_fails(
    v: &OperatorValidator,
    ctx: &ModuleResources,
    code: Seq<u8>,
    g: u32,
)
    requires
        v.frames@.len() > 0,
        g < ctx.globals@.len(),
        !ctx.globals@[g as int].mutable,
    ensures
        v.spec_step(Operator::GlobalSet { global_index: g }, ctx, code) == Err::<VState, ErrorKind>(
            ErrorKind::GlobalIsImmutable,
        ),
{
}

/// A step reads of the validator only its locals, results and options.
pub proof fn lemma_step_env(
    a: &OperatorValidator,
    b: &OperatorValidator,
    st: VState,
    op: Operator,
    ctx: &ModuleResources,
    code: Seq<u8>,
)
    requires
        a.locals@ == b.locals@,
        a.results@ == b.results@,
        a.config == b.config,
    ensures
        a.spec_step_from(st, op, ctx, code) == b.spec_step_from(st, op, ctx, code),
{
    if st.frames.len() > 0 {
        match op {
            Operator::BrTable { .. } => {
                assert forall|st1: VState, targets: Seq<u32>, ts: Seq<Type>|
                    #[trigger] a.check_targets(st1, targets, ts, ctx) == b.check_targets(
                        st1,
                        targets,
                        ts,
                        ctx,
                    ) by {
                    lemma_check_targets_same_views(a, b, st1, targets, ts, ctx);
                }
            },
            Operator::Block { .. } | Operator::Loop { .. } | Operator::If { .. } => {},
            Operator::Else | Operator::End => {},
            Operator::Br { .. } | Operator::BrIf { .. } | Operator::Return => {},
            Operator::Unreachable | Operator::Drop | Operator::Select => {},
            _ => {
                assert(a.simple_sig(op, ctx) == b.simple_sig(op, ctx));
            },
        }
    }
}

proof fn lemma_check_targets_same_views(
    a: &OperatorValidator,
    b: &OperatorValidator,
    st: VState,
    targets: Seq<u32>,
    ts: Seq<Type>,
    ctx: &ModuleResources,
)
    requires
        a.results@ == b.results@,
        a.config == b.config,
    ensures
        a.check_targets(st, targets, ts, ctx) == b.check_targets(st, targets, ts, ctx),
    decreases targets.len(),
{
    if targets.len() > 0 {
        lemma_check_targets_same_views(a, b, st, targets.drop_last(), ts, ctx);
    }
}

} // verus!

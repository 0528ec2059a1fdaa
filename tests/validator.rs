use wasmparser::{
    validate, validate_function_body, ErrorKind, FuncType, GlobalType, ModuleResources,
    Operator, OperatorValidator, OperatorValidatorConfig, ParserState, Type, ValidatingParser,
};

const MINIMAL: [u8; 8] = [0x00, 0x61, 0x73, 0x6d, 0x01, 0x00, 0x00, 0x00];

const EMPTY_FUNCTION: [u8; 24] = [
    0x00, 0x61, 0x73, 0x6d, 0x01, 0x00, 0x00, 0x00, 0x01, 0x04, 0x01, 0x60, 0x00, 0x00, 0x03,
    0x02, 0x01, 0x00, 0x0a, 0x04, 0x01, 0x02, 0x00, 0x0b,
];

fn config() -> OperatorValidatorConfig {
    OperatorValidatorConfig {
        enable_threads: false,
        enable_reference_types: false,
        enable_simd: false,
        enable_bulk_memory: false,
        enable_multi_value: false,
        deterministic_only: false,
    }
}

fn resources(globals: Vec<GlobalType>) -> ModuleResources {
    ModuleResources {
        types: vec![FuncType { params: vec![], results: vec![] }],
        functions: vec![0],
        tables: vec![],
        memories: vec![],
        globals,
        imported_globals: 0,
        element_count: 0,
        data_count: None,
    }
}

/// Header, type `[] -> [i32]`, one function, and a code section holding
/// the body `body` (locals and operators).
fn module_with_body(body: &[u8]) -> Vec<u8> {
    let mut data = vec![0x00, 0x61, 0x73, 0x6d, 0x01, 0x00, 0x00, 0x00];
    data.extend_from_slice(&[0x01, 0x05, 0x01, 0x60, 0x00, 0x01, 0x7f]);
    data.extend_from_slice(&[0x03, 0x02, 0x01, 0x00]);
    data.extend_from_slice(&[0x0a, (body.len() + 2) as u8, 0x01, body.len() as u8]);
    data.extend_from_slice(body);
    data
}

#[test]
fn minimal_module_validates() {
    assert_eq!(validate(&MINIMAL, None), Ok(()));
}

#[test]
fn empty_function_module_validates() {
    assert_eq!(validate(&EMPTY_FUNCTION, None), Ok(()));
    let mut parser = ValidatingParser::new(&EMPTY_FUNCTION, None);
    let mut n = 0;
    loop {
        match parser.read() {
            ParserState::EndWasm => break,
            ParserState::Error(e) => panic!("{:?}", e),
            _ => n += 1,
        }
    }
    assert_eq!(n, 13);
}

#[test]
fn body_returning_a_constant_validates() {
    assert_eq!(validate(&module_with_body(&[0x00, 0x41, 0x2a, 0x0b]), None), Ok(()));
}

#[test]
fn add_on_empty_stack_underflows_at_the_opcode() {
    let data = module_with_body(&[0x00, 0x6a, 0x0b]);
    let e = validate(&data, None).unwrap_err();
    assert_eq!(e.kind, ErrorKind::StackUnderflow);
    assert_eq!(e.offset, 24);
    assert_eq!(data[24], 0x6a);
}

#[test]
fn wrong_result_type_is_a_mismatch() {
    let e = validate(&module_with_body(&[0x00, 0x42, 0x01, 0x0b]), None).unwrap_err();
    assert_eq!(e.kind, ErrorKind::TypeMismatch);
}

#[test]
fn missing_result_is_an_underflow() {
    let e = validate(&module_with_body(&[0x00, 0x0b]), None).unwrap_err();
    assert_eq!(e.kind, ErrorKind::StackUnderflow);
}

#[test]
fn bad_magic_fails_validation_at_zero() {
    let e = validate(&[0x00, 0x61, 0x73, 0x6e, 0x01, 0x00, 0x00, 0x00], None).unwrap_err();
    assert_eq!(e.kind, ErrorKind::InvalidHeader);
    assert_eq!(e.offset, 0);
}

#[test]
fn memory_max_below_initial_is_invalid_limits() {
    let data = [
        0x00, 0x61, 0x73, 0x6d, 0x01, 0x00, 0x00, 0x00, 0x05, 0x04, 0x01, 0x01, 0x02, 0x01,
    ];
    let e = validate(&data, None).unwrap_err();
    assert_eq!(e.kind, ErrorKind::InvalidLimits);
    assert_eq!(e.offset, 10);
}

#[test]
fn duplicate_section_is_rejected() {
    let data = [
        0x00, 0x61, 0x73, 0x6d, 0x01, 0x00, 0x00, 0x00, 0x01, 0x01, 0x00, 0x01, 0x01, 0x00,
    ];
    let e = validate(&data, None).unwrap_err();
    assert_eq!(e.kind, ErrorKind::DuplicateSection);
    assert_eq!(e.offset, 11);
}

#[test]
fn section_out_of_order_is_rejected() {
    let data = [
        0x00, 0x61, 0x73, 0x6d, 0x01, 0x00, 0x00, 0x00, 0x03, 0x01, 0x00, 0x01, 0x01, 0x00,
    ];
    let e = validate(&data, None).unwrap_err();
    assert_eq!(e.kind, ErrorKind::SectionOutOfOrder);
}

#[test]
fn function_without_body_is_bad_code_section() {
    let data = [
        0x00, 0x61, 0x73, 0x6d, 0x01, 0x00, 0x00, 0x00, 0x01, 0x04, 0x01, 0x60, 0x00, 0x00, 0x03,
        0x02, 0x01, 0x00,
    ];
    let e = validate(&data, None).unwrap_err();
    assert_eq!(e.kind, ErrorKind::BadCodeSection);
}

#[test]
fn function_with_unknown_type_is_out_of_bounds() {
    let data = [
        0x00, 0x61, 0x73, 0x6d, 0x01, 0x00, 0x00, 0x00, 0x03, 0x02, 0x01, 0x05,
    ];
    let e = validate(&data, None).unwrap_err();
    assert_eq!(e.kind, ErrorKind::IndexOutOfBounds);
}

#[test]
fn duplicate_export_name_is_rejected() {
    let data = [
        0x00, 0x61, 0x73, 0x6d, 0x01, 0x00, 0x00, 0x00, // header
        0x01, 0x04, 0x01, 0x60, 0x00, 0x00, // type
        0x03, 0x02, 0x01, 0x00, // function
        0x07, 0x09, 0x02, 0x01, 0x66, 0x00, 0x00, 0x01, 0x66, 0x00, 0x00, // two exports "f"
        0x0a, 0x04, 0x01, 0x02, 0x00, 0x0b, // code
    ];
    let e = validate(&data, None).unwrap_err();
    assert_eq!(e.kind, ErrorKind::DuplicateExportName);
}

#[test]
fn start_function_must_take_nothing() {
    // Start names a function of type [] -> [i32].
    let mut data = module_with_body(&[0x00, 0x41, 0x00, 0x0b]);
    let code: Vec<u8> = data.split_off(19);
    data.extend_from_slice(&[0x08, 0x01, 0x00]);
    data.extend_from_slice(&code);
    let e = validate(&data, None).unwrap_err();
    assert_eq!(e.kind, ErrorKind::TypeMismatch);
}

#[test]
fn module_with_memory_global_and_data_validates() {
    let data = [
        0x00, 0x61, 0x73, 0x6d, 0x01, 0x00, 0x00, 0x00, // header
        0x05, 0x03, 0x01, 0x00, 0x01, // memory, initial 1
        0x06, 0x06, 0x01, 0x7f, 0x00, 0x41, 0x07, 0x0b, // global i32 const 7
        0x0b, 0x07, 0x01, 0x00, 0x41, 0x00, 0x0b, 0x01, 0x61, // data "a" at 0
    ];
    assert_eq!(validate(&data, None), Ok(()));
}

#[test]
fn global_initializer_of_wrong_type_is_a_mismatch() {
    let data = [
        0x00, 0x61, 0x73, 0x6d, 0x01, 0x00, 0x00, 0x00, 0x06, 0x06, 0x01, 0x7e, 0x00, 0x41, 0x07,
        0x0b,
    ];
    let e = validate(&data, None).unwrap_err();
    assert_eq!(e.kind, ErrorKind::TypeMismatch);
}

#[test]
fn global_set_is_not_constant() {
    let data = [
        0x00, 0x61, 0x73, 0x6d, 0x01, 0x00, 0x00, 0x00, 0x06, 0x06, 0x01, 0x7f, 0x00, 0x24, 0x00,
        0x0b,
    ];
    let e = validate(&data, None).unwrap_err();
    assert_eq!(e.kind, ErrorKind::IllegalConstantExpr);
}

#[test]
fn validator_stacks_are_empty_after_the_body() {
    let ft = FuncType { params: vec![], results: vec![Type::I32] };
    let mut v = OperatorValidator::new(&ft, &vec![], config()).unwrap();
    let ctx = resources(vec![]);
    assert_eq!(v.process_operator(Operator::I32Const { value: 1 }, &ctx, &[]), Ok(()));
    assert_eq!(v.stack.len(), 1);
    assert_eq!(v.process_operator(Operator::End, &ctx, &[]), Ok(()));
    assert!(v.is_finished());
    assert!(v.stack.is_empty());
    assert!(v.frames.is_empty());
}

#[test]
fn set_of_immutable_global_fails_in_a_body() {
    let ctx = resources(vec![GlobalType { content_type: Type::I32, mutable: false }]);
    let ft = FuncType { params: vec![], results: vec![] };
    let mut v = OperatorValidator::new(&ft, &vec![], config()).unwrap();
    assert_eq!(v.process_operator(Operator::I32Const { value: 1 }, &ctx, &[]), Ok(()));
    assert_eq!(
        v.process_operator(Operator::GlobalSet { global_index: 0 }, &ctx, &[]),
        Err(ErrorKind::GlobalIsImmutable)
    );
}

#[test]
fn blocks_and_branches_type_check() {
    let ft = FuncType { params: vec![Type::I32], results: vec![Type::I32] };
    let mut v = OperatorValidator::new(&ft, &vec![(1, Type::I64)], config()).unwrap();
    assert_eq!(v.locals, vec![Type::I32, Type::I64]);
    let ctx = resources(vec![]);
    let ops = [
        Operator::Block { ty: wasmparser::TypeOrFuncType::Type(Type::I32) },
        Operator::LocalGet { local_index: 0 },
        Operator::LocalGet { local_index: 0 },
        Operator::BrIf { relative_depth: 0 },
        Operator::Numeric { code: 0x45 },
        Operator::End,
        Operator::End,
    ];
    for op in ops.iter() {
        assert_eq!(v.process_operator(*op, &ctx, &[]), Ok(()), "{:?}", op);
    }
    assert!(v.is_finished());
}

#[test]
fn unreachable_code_is_polymorphic() {
    let ft = FuncType { params: vec![], results: vec![Type::I64] };
    let mut v = OperatorValidator::new(&ft, &vec![], config()).unwrap();
    let ctx = resources(vec![]);
    assert_eq!(v.process_operator(Operator::Unreachable, &ctx, &[]), Ok(()));
    assert_eq!(v.process_operator(Operator::Numeric { code: 0x7c }, &ctx, &[]), Ok(()));
    assert_eq!(v.process_operator(Operator::End, &ctx, &[]), Ok(()));
}

#[test]
fn else_outside_if_is_rejected() {
    let ft = FuncType { params: vec![], results: vec![] };
    let mut v = OperatorValidator::new(&ft, &vec![], config()).unwrap();
    let ctx = resources(vec![]);
    assert_eq!(v.process_operator(Operator::Else, &ctx, &[]), Err(ErrorKind::TypeMismatch));
}

#[test]
fn too_many_locals_is_a_limit() {
    let ft = FuncType { params: vec![], results: vec![] };
    let r = OperatorValidator::new(&ft, &vec![(50001, Type::I32)], config());
    assert_eq!(r.err(), Some(ErrorKind::LimitExceeded));
}

#[test]
fn br_table_targets_are_checked() {
    // br_table with targets [0, 1] and default 0 inside one block.
    let code = [0x0e, 0x02, 0x00, 0x01, 0x00];
    let ft = FuncType { params: vec![], results: vec![] };
    let mut v = OperatorValidator::new(&ft, &vec![], config()).unwrap();
    let ctx = resources(vec![]);
    let op = wasmparser::BinaryReader::new(&code).read_operator().unwrap();
    let empty = wasmparser::TypeOrFuncType::Type(Type::EmptyBlockType);
    assert_eq!(v.process_operator(Operator::Block { ty: empty }, &ctx, &code), Ok(()));
    assert_eq!(v.process_operator(Operator::I32Const { value: 0 }, &ctx, &code), Ok(()));
    assert_eq!(v.process_operator(op, &ctx, &code), Ok(()));
    // A target beyond the open blocks.
    let far = [0x0e, 0x01, 0x05, 0x00];
    let op = wasmparser::BinaryReader::new(&far).read_operator().unwrap();
    let mut v = OperatorValidator::new(&ft, &vec![], config()).unwrap();
    assert_eq!(v.process_operator(Operator::I32Const { value: 0 }, &ctx, &far), Ok(()));
    assert_eq!(v.process_operator(op, &ctx, &far), Err(ErrorKind::IndexOutOfBounds));
}

#[test]
fn function_body_validates_alone() {
    let ctx = resources(vec![]);
    assert_eq!(validate_function_body(&[0x00, 0x01, 0x0b], 0, &ctx, config()), Ok(()));
    let e = validate_function_body(&[0x00, 0x6a, 0x0b], 0, &ctx, config()).unwrap_err();
    assert_eq!(e.kind, ErrorKind::StackUnderflow);
    assert_eq!(e.offset, 1);
    let e = validate_function_body(&[0x00, 0x0b], 3, &ctx, config()).unwrap_err();
    assert_eq!(e.kind, ErrorKind::IndexOutOfBounds);
}

#[test]
fn module_with_control_flow_memory_and_calls_validates() {
    let data: Vec<u8> = vec![0x00, 0x61, 0x73, 0x6d, 0x01, 0x00, 0x00, 0x00, 0x01, 0x0a, 0x02, 0x60, 0x02, 0x7f, 0x7f, 0x01, 0x7f, 0x60, 0x00, 0x00, 0x03, 0x03, 0x02, 0x00, 0x01, 0x04, 0x04, 0x01, 0x70, 0x00, 0x01, 0x05, 0x03, 0x01, 0x00, 0x01, 0x06, 0x06, 0x01, 0x7f, 0x01, 0x41, 0x00, 0x0b, 0x07, 0x0d, 0x02, 0x03, 0x61, 0x64, 0x64, 0x00, 0x00, 0x03, 0x6d, 0x65, 0x6d, 0x02, 0x00, 0x09, 0x07, 0x01, 0x00, 0x41, 0x00, 0x0b, 0x01, 0x00, 0x0a, 0x57, 0x02, 0x4b, 0x00, 0x20, 0x00, 0x20, 0x01, 0x6a, 0x02, 0x7f, 0x20, 0x00, 0x20, 0x01, 0x48, 0x04, 0x7f, 0x41, 0x01, 0x05, 0x41, 0x02, 0x0b, 0x0c, 0x00, 0x0b, 0x6a, 0x03, 0x40, 0x23, 0x00, 0x41, 0x01, 0x6a, 0x24, 0x00, 0x23, 0x00, 0x41, 0x0a, 0x48, 0x0d, 0x00, 0x0b, 0x41, 0x00, 0x28, 0x02, 0x00, 0x6a, 0x41, 0x00, 0x41, 0x05, 0x36, 0x02, 0x00, 0x02, 0x40, 0x41, 0x00, 0x0e, 0x01, 0x00, 0x00, 0x0b, 0x41, 0x03, 0x41, 0x04, 0x41, 0x00, 0x11, 0x00, 0x00, 0x1a, 0x0b, 0x09, 0x00, 0x41, 0x01, 0x41, 0x02, 0x10, 0x00, 0x1a, 0x0b];
    assert_eq!(validate(&data, None), Ok(()));
    // With the loop's `br_if` turned into `br`, the rest of the loop is
    // unreachable, which still validates.
    let mut broken = data.clone();
    let at = data.windows(2).position(|w| w == [0x0d, 0x00]).unwrap();
    broken[at] = 0x0c;
    assert!(validate(&broken, None).is_ok());
    let mut wrong_store = data.clone();
    let store = data.windows(3).position(|w| w == [0x36, 0x02, 0x00]).unwrap();
    wrong_store[store + 1] = 0x03;
    let e = validate(&wrong_store, None).unwrap_err();
    assert_eq!(e.kind, ErrorKind::InvalidAlignment);
    assert_eq!(e.offset, store);
}

#[test]
fn bulk_memory_operators() {
    let mut ctx = resources(vec![]);
    ctx.memories = vec![wasmparser::MemoryType {
        limits: wasmparser::ResizableLimits { initial: 1, maximum: None },
        shared: false,
    }];
    ctx.data_count = Some(1);
    let op = wasmparser::BinaryReader::new(&[0xfc, 0x08, 0x00, 0x00]).read_operator().unwrap();
    assert_eq!(op, Operator::MemoryInit { segment: 0, mem: 0 });
    let ft = FuncType { params: vec![], results: vec![] };
    let mut bulk = config();
    bulk.enable_bulk_memory = true;
    let mut v = OperatorValidator::new(&ft, &vec![], bulk).unwrap();
    for _ in 0..3 {
        assert_eq!(v.process_operator(Operator::I32Const { value: 0 }, &ctx, &[]), Ok(()));
    }
    assert_eq!(v.process_operator(op, &ctx, &[]), Ok(()));
    assert!(v.stack.is_empty());
    assert_eq!(
        v.process_operator(Operator::DataDrop { segment: 1 }, &ctx, &[]),
        Err(ErrorKind::IndexOutOfBounds)
    );
    let mut mvp = OperatorValidator::new(&ft, &vec![], config()).unwrap();
    assert_eq!(
        mvp.process_operator(Operator::DataDrop { segment: 0 }, &ctx, &[]),
        Err(ErrorKind::UnsupportedFeature)
    );
}

#[test]
fn deterministic_mode_rejects_nan_producing_operators() {
    let ft = FuncType { params: vec![], results: vec![] };
    let ctx = resources(vec![]);
    let mut strict = config();
    strict.deterministic_only = true;
    let mut v = OperatorValidator::new(&ft, &vec![], strict).unwrap();
    let one = Operator::F32Const { value: wasmparser::Ieee32 { bits: 0x3f80_0000 } };
    assert_eq!(v.process_operator(one, &ctx, &[]), Ok(()));
    assert_eq!(v.process_operator(one, &ctx, &[]), Ok(()));
    // f32.add may produce a NaN of any payload; f32.neg only flips the sign.
    assert_eq!(
        v.process_operator(Operator::Numeric { code: 0x92 }, &ctx, &[]),
        Err(ErrorKind::UnsupportedFeature)
    );
    assert_eq!(v.process_operator(Operator::Numeric { code: 0x8c }, &ctx, &[]), Ok(()));
}

#[test]
fn atomic_operators() {
    let mut ctx = resources(vec![]);
    ctx.memories = vec![wasmparser::MemoryType {
        limits: wasmparser::ResizableLimits { initial: 1, maximum: Some(1) },
        shared: true,
    }];
    // i64.atomic.rmw.add with natural alignment 3.
    let op = wasmparser::BinaryReader::new(&[0xfe, 0x1f, 0x03, 0x00]).read_operator().unwrap();
    assert!(matches!(op, Operator::Atomic { code: 0x1f, .. }));
    let ft = FuncType { params: vec![], results: vec![Type::I64] };
    let mut threads = config();
    threads.enable_threads = true;
    let mut v = OperatorValidator::new(&ft, &vec![], threads).unwrap();
    assert_eq!(v.process_operator(Operator::I32Const { value: 0 }, &ctx, &[]), Ok(()));
    assert_eq!(v.process_operator(Operator::I64Const { value: 1 }, &ctx, &[]), Ok(()));
    assert_eq!(v.process_operator(op, &ctx, &[]), Ok(()));
    assert_eq!(v.process_operator(Operator::End, &ctx, &[]), Ok(()));
    // Alignment other than the natural one is rejected.
    let op = wasmparser::BinaryReader::new(&[0xfe, 0x10, 0x01, 0x00]).read_operator().unwrap();
    let ft = FuncType { params: vec![], results: vec![] };
    let mut v = OperatorValidator::new(&ft, &vec![], threads).unwrap();
    assert_eq!(v.process_operator(Operator::I32Const { value: 0 }, &ctx, &[]), Ok(()));
    assert_eq!(v.process_operator(op, &ctx, &[]), Err(ErrorKind::InvalidAlignment));
    // Without the threads proposal.
    let mut mvp = OperatorValidator::new(&ft, &vec![], config()).unwrap();
    assert_eq!(
        mvp.process_operator(Operator::AtomicFence { flags: 0 }, &ctx, &[]),
        Err(ErrorKind::UnsupportedFeature)
    );
    let e = wasmparser::BinaryReader::new(&[0xfe, 0x7f]).read_operator().unwrap_err();
    assert_eq!(e.kind, ErrorKind::UnknownOpcode);
}

#[test]
fn passive_elements_need_bulk_memory() {
    let data = [
        0x00, 0x61, 0x73, 0x6d, 0x01, 0x00, 0x00, 0x00, // header
        0x01, 0x04, 0x01, 0x60, 0x00, 0x00, // type
        0x03, 0x02, 0x01, 0x00, // function
        0x09, 0x06, 0x01, 0x01, 0x70, 0x01, 0xd0, 0x0b, // passive segment: ref.null
        0x0a, 0x04, 0x01, 0x02, 0x00, 0x0b, // code
    ];
    let e = validate(&data, None).unwrap_err();
    assert_eq!(e.kind, ErrorKind::UnsupportedFeature);
    let mut with_bulk = wasmparser::ValidatingParserConfig {
        operator_config: config(),
        mutable_global_imports: true,
    };
    with_bulk.operator_config.enable_bulk_memory = true;
    assert_eq!(validate(&data, Some(with_bulk)), Ok(()));
}

#[test]
fn table_operators_use_the_element_type() {
    let mut ctx = resources(vec![]);
    ctx.tables = vec![wasmparser::TableType {
        element_type: Type::AnyRef,
        limits: wasmparser::ResizableLimits { initial: 1, maximum: None },
    }];
    let get = wasmparser::BinaryReader::new(&[0x25, 0x00]).read_operator().unwrap();
    assert_eq!(get, Operator::TableGet { table: 0 });
    let size = wasmparser::BinaryReader::new(&[0xfc, 0x10, 0x00]).read_operator().unwrap();
    assert_eq!(size, Operator::TableSize { table: 0 });
    let ft = FuncType { params: vec![], results: vec![Type::AnyRef] };
    let mut refs = config();
    refs.enable_reference_types = true;
    let mut v = OperatorValidator::new(&ft, &vec![], refs).unwrap();
    assert_eq!(v.process_operator(size, &ctx, &[]), Ok(()));
    assert_eq!(v.process_operator(get, &ctx, &[]), Ok(()));
    assert_eq!(v.process_operator(Operator::End, &ctx, &[]), Ok(()));
    let mut v = OperatorValidator::new(&ft, &vec![], refs).unwrap();
    assert_eq!(
        v.process_operator(Operator::TableGet { table: 1 }, &ctx, &[]),
        Err(ErrorKind::IndexOutOfBounds)
    );
}

#[test]
fn simd_operators_type_check() {
    let mut ctx = resources(vec![]);
    ctx.memories = vec![wasmparser::MemoryType {
        limits: wasmparser::ResizableLimits { initial: 1, maximum: None },
        shared: false,
    }];
    let ft = FuncType { params: vec![], results: vec![Type::I32] };
    let mut simd = config();
    simd.enable_simd = true;
    let mut v = OperatorValidator::new(&ft, &vec![], simd).unwrap();
    let load = wasmparser::BinaryReader::new(&[0xfd, 0x00, 0x04, 0x00]).read_operator().unwrap();
    let ops = [
        Operator::I32Const { value: 0 },
        load,
        Operator::I32Const { value: 3 },
        Operator::Simd { code: 0x11 },  // i32x4.splat
        Operator::Simd { code: 0xae },  // i32x4.add
        Operator::SimdLane { code: 0x1b, lane: 3 },  // i32x4.extract_lane
        Operator::End,
    ];
    for op in ops.iter() {
        assert_eq!(v.process_operator(*op, &ctx, &[]), Ok(()), "{:?}", op);
    }
    assert!(v.is_finished());
    let mut mvp = OperatorValidator::new(&ft, &vec![], config()).unwrap();
    assert_eq!(
        mvp.process_operator(Operator::Simd { code: 0xae }, &ctx, &[]),
        Err(ErrorKind::UnsupportedFeature)
    );
    let mut v = OperatorValidator::new(&ft, &vec![], simd).unwrap();
    assert_eq!(
        v.process_operator(Operator::Simd { code: 0xae }, &ctx, &[]),
        Err(ErrorKind::StackUnderflow)
    );
}

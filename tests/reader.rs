use wasmparser::{
    BinaryReader, ElementKind, ElementSectionReader, ErrorKind, ExternalKind,
    MemorySectionReader, ModuleReader, Operator, SectionCode, Type, TypeOrFuncType,
    TypeSectionReader,
};

fn module_with_memory() -> Vec<u8> {
    vec![
        0x00, 0x61, 0x73, 0x6d, 0x01, 0x00, 0x00, 0x00, // header
        0x01, 0x04, 0x01, 0x60, 0x00, 0x00, // type section
        0x03, 0x02, 0x01, 0x00, // function section
        0x05, 0x03, 0x01, 0x00, 0x02, // memory section: initial 2
        0x0a, 0x05, 0x01, 0x03, 0x00, 0x01, 0x0b, // code section
    ]
}

#[test]
fn var_u32_values() {
    assert_eq!(BinaryReader::new(&[0x00]).read_var_u32(), Ok(0));
    assert_eq!(BinaryReader::new(&[0x7f]).read_var_u32(), Ok(127));
    assert_eq!(BinaryReader::new(&[0xe5, 0x8e, 0x26]).read_var_u32(), Ok(624485));
    assert_eq!(BinaryReader::new(&[0xff, 0xff, 0xff, 0xff, 0x0f]).read_var_u32(), Ok(u32::MAX));
    let mut r = BinaryReader::new(&[0x80, 0x01, 0x05]);
    assert_eq!(r.read_var_u32(), Ok(128));
    assert_eq!(r.position, 2);
}

#[test]
fn overlong_var_u32_is_invalid() {
    let e = BinaryReader::new(&[0x80, 0x80, 0x80, 0x80, 0x80, 0x00]).read_var_u32().unwrap_err();
    assert_eq!(e.kind, ErrorKind::InvalidLeb128);
    assert_eq!(e.offset, 4);
    let e = BinaryReader::new(&[0xff, 0xff, 0xff, 0xff, 0x1f]).read_var_u32().unwrap_err();
    assert_eq!(e.kind, ErrorKind::InvalidLeb128);
}

#[test]
fn truncated_var_u32_is_eof_at_end() {
    let e = BinaryReader::new(&[0x80, 0x80]).read_var_u32().unwrap_err();
    assert_eq!(e.kind, ErrorKind::UnexpectedEof);
    assert_eq!(e.offset, 2);
}

#[test]
fn signed_leb_values() {
    assert_eq!(BinaryReader::new(&[0x7f]).read_var_i32(), Ok(-1));
    assert_eq!(BinaryReader::new(&[0x3f]).read_var_i32(), Ok(63));
    assert_eq!(BinaryReader::new(&[0xc0, 0xbb, 0x78]).read_var_i32(), Ok(-123456));
    assert_eq!(
        BinaryReader::new(&[0x80, 0x80, 0x80, 0x80, 0x78]).read_var_i32(),
        Ok(i32::MIN)
    );
    assert_eq!(
        BinaryReader::new(&[0x80, 0x80, 0x80, 0x80, 0x80, 0x80, 0x80, 0x80, 0x80, 0x7f])
            .read_var_i64(),
        Ok(i64::MIN)
    );
    assert_eq!(BinaryReader::new(&[0x40]).read_var_s33(), Ok(-64));
    let e = BinaryReader::new(&[0x80, 0x80, 0x80, 0x80, 0x08]).read_var_i32().unwrap_err();
    assert_eq!(e.kind, ErrorKind::InvalidLeb128);
    assert_eq!(e.offset, 4);
}

#[test]
fn fixed_width_values() {
    assert_eq!(BinaryReader::new(&[0x01, 0x02, 0x03, 0x04]).read_u32(), Ok(0x04030201));
    assert_eq!(
        BinaryReader::new(&[1, 0, 0, 0, 2, 0, 0, 0]).read_u64(),
        Ok(0x0000_0002_0000_0001)
    );
    let e = BinaryReader::new(&[1, 2, 3]).read_u32().unwrap_err();
    assert_eq!(e.kind, ErrorKind::UnexpectedEof);
    assert_eq!(e.offset, 0);
}

#[test]
fn value_types() {
    assert_eq!(BinaryReader::new(&[0x7f]).read_type(), Ok(Type::I32));
    assert_eq!(BinaryReader::new(&[0x7c]).read_type(), Ok(Type::F64));
    assert_eq!(BinaryReader::new(&[0x70]).read_type(), Ok(Type::AnyFunc));
    let e = BinaryReader::new(&[0x55]).read_type().unwrap_err();
    assert_eq!(e.kind, ErrorKind::InvalidType);
}

#[test]
fn block_types() {
    assert_eq!(
        BinaryReader::new(&[0x40]).read_block_type(),
        Ok(TypeOrFuncType::Type(Type::EmptyBlockType))
    );
    assert_eq!(BinaryReader::new(&[0x7e]).read_block_type(), Ok(TypeOrFuncType::Type(Type::I64)));
    assert_eq!(BinaryReader::new(&[0x05]).read_block_type(), Ok(TypeOrFuncType::FuncType(5)));
}

#[test]
fn operators_decode() {
    assert_eq!(
        BinaryReader::new(&[0x41, 0x7f]).read_operator(),
        Ok(Operator::I32Const { value: -1 })
    );
    assert_eq!(BinaryReader::new(&[0x6a]).read_operator(), Ok(Operator::Numeric { code: 0x6a }));
    let e = BinaryReader::new(&[0x28, 0x21, 0x00]).read_operator().unwrap_err();
    assert_eq!(e.kind, ErrorKind::InvalidAlignment);
    let e = BinaryReader::new(&[0xfd, 0x9a, 0x01]).read_operator().unwrap_err();
    assert_eq!(e.kind, ErrorKind::UnknownOpcode);
    assert_eq!(e.offset, 0);
    match BinaryReader::new(&[0x0e, 0x02, 0x00, 0x01, 0x02]).read_operator() {
        Ok(Operator::BrTable { table }) => {
            assert_eq!(table.count, 2);
            assert_eq!(table.default, 2);
            assert_eq!((table.targets.start, table.targets.end), (2, 4));
        }
        other => panic!("unexpected {:?}", other),
    }
}

#[test]
fn names_are_ranges() {
    let mut r = BinaryReader::new_with_offset(&[0x03, 0x61, 0x62, 0x63], 100);
    let name = r.read_string().unwrap();
    assert_eq!((name.start, name.end), (101, 104));
    let e = BinaryReader::new(&[0x02, 0xc3, 0x28]).read_string().unwrap_err();
    assert_eq!(e.kind, ErrorKind::InvalidUtf8);
}

#[test]
fn module_reader_sections() {
    let data = module_with_memory();
    let mut reader = ModuleReader::new(&data).unwrap();
    assert_eq!(reader.get_version(), 1);
    let section = reader.read().unwrap();
    assert_eq!(section.code, SectionCode::Type);
    let mut types = section.get_type_section_reader().unwrap();
    assert_eq!(types.get_count(), 1);
    let ft = types.read().unwrap();
    assert!(ft.params.is_empty() && ft.results.is_empty());
    let section = reader.read().unwrap();
    let mut functions = section.get_function_section_reader().unwrap();
    assert_eq!(functions.get_count(), 1);
    assert_eq!(functions.read(), Ok(0));
    let section = reader.read().unwrap();
    let mut memories = section.get_memory_section_reader().unwrap();
    assert_eq!(memories.get_count(), 1);
    let m = memories.read().unwrap();
    assert_eq!(m.limits.initial, 2);
    assert_eq!(m.limits.maximum, None);
    assert!(!m.shared);
    let section = reader.read().unwrap();
    let mut code = section.get_code_section_reader().unwrap();
    let body = code.read().unwrap();
    assert_eq!((body.range.start, body.range.end), (27, 30));
    assert!(reader.eof());
}

#[test]
fn module_reader_rejects_bad_header() {
    let e = ModuleReader::new(&[0x00, 0x61, 0x73, 0x6e, 0x01, 0x00, 0x00, 0x00]).err().unwrap();
    assert_eq!(e.kind, ErrorKind::InvalidHeader);
    assert_eq!(e.offset, 0);
}

#[test]
fn skip_custom_sections_moves_past_them() {
    let data = [
        0x00, 0x61, 0x73, 0x6d, 0x01, 0x00, 0x00, 0x00, 0x00, 0x08, 0x03, 0x63, 0x61, 0x74, 0x01,
        0x02, 0x03, 0x04, 0x01, 0x04, 0x01, 0x60, 0x00, 0x00,
    ];
    let mut reader = ModuleReader::new(&data).unwrap();
    reader.skip_custom_sections().unwrap();
    assert!(!reader.eof());
    let section = reader.read().unwrap();
    assert_eq!(section.code, SectionCode::Type);
    reader.skip_custom_sections().unwrap();
    assert!(reader.eof());
}

#[test]
fn section_past_end_is_bad_length() {
    let data = [0x00, 0x61, 0x73, 0x6d, 0x01, 0x00, 0x00, 0x00, 0x01, 0x09, 0x01];
    let mut reader = ModuleReader::new(&data).unwrap();
    let e = reader.read().err().unwrap();
    assert_eq!(e.kind, ErrorKind::BadSectionLength);
    assert_eq!(e.offset, 11);
}

#[test]
fn section_readers_with_offsets() {
    let mut memories = MemorySectionReader::new(&[0x01, 0x01, 0x01, 0x05], 40).unwrap();
    let m = memories.read().unwrap();
    assert_eq!(m.limits.initial, 1);
    assert_eq!(m.limits.maximum, Some(5));
    let e = MemorySectionReader::new(&[0x01, 0x04, 0x00], 40).unwrap().read().unwrap_err();
    assert_eq!(e.kind, ErrorKind::InvalidLimits);
    assert_eq!(e.offset, 41);
    let mut types = TypeSectionReader::new(&[0x01, 0x60, 0x01, 0x7f, 0x01, 0x7e], 0).unwrap();
    let ft = types.read().unwrap();
    assert_eq!(ft.params, vec![Type::I32]);
    assert_eq!(ft.results, vec![Type::I64]);
}

#[test]
fn export_and_start_sections() {
    let data = [
        0x00, 0x61, 0x73, 0x6d, 0x01, 0x00, 0x00, 0x00, // header
        0x01, 0x04, 0x01, 0x60, 0x00, 0x00, // type
        0x03, 0x02, 0x01, 0x00, // function
        0x07, 0x05, 0x01, 0x01, 0x66, 0x00, 0x00, // export "f" function 0
        0x08, 0x01, 0x00, // start 0
    ];
    let mut reader = ModuleReader::new(&data).unwrap();
    reader.read().unwrap();
    reader.read().unwrap();
    let section = reader.read().unwrap();
    let mut exports = section.get_export_section_reader().unwrap();
    let e = exports.read().unwrap();
    assert_eq!(e.kind, ExternalKind::Function);
    assert_eq!(e.index, 0);
    assert_eq!((e.field.start, e.field.end), (22, 23));
    let section = reader.read().unwrap();
    assert_eq!(section.get_start_section_content(), Ok(0));
}

#[test]
fn element_segments_of_every_form() {
    let data = [
        0x03, // three segments
        0x00, 0x41, 0x00, 0x0b, 0x01, 0x00, // table 0 at 0: function 0
        0x01, 0x70, 0x02, 0xd2, 0x01, 0x0b, 0xd0, 0x0b, // passive: ref.func 1, ref.null
        0x02, 0x00, 0x41, 0x02, 0x0b, 0x00, 0x01, 0x03, // table 0 at 2: function 3
    ];
    let mut r = ElementSectionReader::new(&data, 0).unwrap();
    assert_eq!(r.get_count(), 3);
    let a = r.read().unwrap();
    assert!(matches!(a.kind, ElementKind::Active { table_index: 0, .. }));
    assert_eq!((a.count, a.items.start, a.items.end), (1, 6, 7));
    let b = r.read().unwrap();
    assert_eq!(b.kind, ElementKind::Passive { ty: Type::AnyFunc });
    assert_eq!((b.count, b.items.start, b.items.end), (2, 10, 15));
    let c = r.read().unwrap();
    assert!(matches!(c.kind, ElementKind::Active { table_index: 0, .. }));
    assert_eq!((c.count, c.items.start, c.items.end), (1, 22, 23));
    let e = ElementSectionReader::new(&[0x01, 0x01, 0x70, 0x01, 0x41, 0x00, 0x0b], 0)
        .unwrap()
        .read()
        .unwrap_err();
    assert_eq!(e.kind, ErrorKind::IllegalConstantExpr);
    assert_eq!(e.offset, 4);
}

#[test]
fn simd_operators_decode() {
    let op = BinaryReader::new(&[0xfd, 0x00, 0x04, 0x10]).read_operator().unwrap();
    assert!(matches!(op, Operator::SimdMemory { code: 0, .. }));
    let mut bytes = vec![0xfd, 0x0c];
    bytes.extend_from_slice(&[7u8; 16]);
    match BinaryReader::new(&bytes).read_operator().unwrap() {
        Operator::V128Const { value } => assert_eq!((value.start, value.end), (2, 18)),
        other => panic!("unexpected {:?}", other),
    }
    let mut shuffle = vec![0xfd, 0x0d];
    shuffle.extend_from_slice(&[31u8; 16]);
    assert!(matches!(
        BinaryReader::new(&shuffle).read_operator(),
        Ok(Operator::I8x16Shuffle { .. })
    ));
    shuffle[17] = 32;
    let e = BinaryReader::new(&shuffle).read_operator().unwrap_err();
    assert_eq!(e.kind, ErrorKind::InvalidLaneIndex);
    assert_eq!(e.offset, 2);
    assert_eq!(
        BinaryReader::new(&[0xfd, 0x15, 0x0f]).read_operator(),
        Ok(Operator::SimdLane { code: 0x15, lane: 15 })
    );
    let e = BinaryReader::new(&[0xfd, 0x1d, 0x02]).read_operator().unwrap_err();
    assert_eq!(e.kind, ErrorKind::InvalidLaneIndex);
    assert_eq!(
        BinaryReader::new(&[0xfd, 0xae, 0x01]).read_operator(),
        Ok(Operator::Simd { code: 0xae })
    );
}

#[test]
fn skip_custom_sections_reports_an_overlong_one() {
    let data = [0x00, 0x61, 0x73, 0x6d, 0x01, 0x00, 0x00, 0x00, 0x00, 0x05, 0x01, 0x61];
    let mut r = ModuleReader::new(&data).unwrap();
    let e = r.skip_custom_sections().unwrap_err();
    assert_eq!(e.kind, ErrorKind::BadSectionLength);
    assert_eq!(e.offset, 12);
    assert_eq!(r.get_version(), 1);
}

#[test]
fn skip_then_read_yields_the_non_custom_sections() {
    let data = [
        0x00, 0x61, 0x73, 0x6d, 0x01, 0x00, 0x00, 0x00, 0x00, 0x08, 0x03, 0x63, 0x61, 0x74, 0x01,
        0x02, 0x03, 0x04, 0x01, 0x04, 0x01, 0x60, 0x00, 0x00, 0x03, 0x02, 0x01, 0x00, 0x0a, 0x05,
        0x01, 0x03, 0x00, 0x01, 0x0b,
    ];
    let mut r = ModuleReader::new(&data).unwrap();
    assert_eq!(r.skip_custom_sections(), Ok(()));
    assert_eq!(r.skip_custom_sections(), Ok(()));
    let s = r.read().unwrap();
    assert_eq!(s.code, SectionCode::Type);
    assert_eq!(s.offset, 20);
    assert_eq!(s.data, &[0x01, 0x60, 0x00, 0x00]);
    let mut codes = vec![];
    while {
        r.skip_custom_sections().unwrap();
        !r.eof()
    } {
        codes.push(r.read().unwrap().code);
    }
    assert_eq!(codes, vec![SectionCode::Function, SectionCode::Code]);
}

#[test]
fn names_follow_utf8_well_formedness() {
    // "é" (two bytes) and U+10FFFF (four bytes) are well formed.
    assert!(BinaryReader::new(&[0x02, 0xc3, 0xa9]).read_string().is_ok());
    assert!(BinaryReader::new(&[0x04, 0xf4, 0x8f, 0xbf, 0xbf]).read_string().is_ok());
    // An encoded surrogate, an overlong form, and a truncated sequence are not.
    for bad in [
        vec![0x03, 0xed, 0xa0, 0x80],
        vec![0x02, 0xc0, 0x80],
        vec![0x02, 0xe2, 0x82],
        vec![0x04, 0xf4, 0x90, 0x80, 0x80],
    ] {
        let e = BinaryReader::new(&bad).read_string().unwrap_err();
        assert_eq!(e.kind, ErrorKind::InvalidUtf8);
        assert_eq!(e.offset, bad.len() - 1);
    }
}

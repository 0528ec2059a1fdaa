use wasmparser::{
    ErrorKind, Operator, Parser, ParserInput, ParserState, Range, SectionCode, Type,
};

const MINIMAL: [u8; 8] = [0x00, 0x61, 0x73, 0x6d, 0x01, 0x00, 0x00, 0x00];

/// One type `[] -> []`, one function, one body holding just `end`.
const EMPTY_FUNCTION: [u8; 24] = [
    0x00, 0x61, 0x73, 0x6d, 0x01, 0x00, 0x00, 0x00, 0x01, 0x04, 0x01, 0x60, 0x00, 0x00, 0x03,
    0x02, 0x01, 0x00, 0x0a, 0x04, 0x01, 0x02, 0x00, 0x0b,
];

fn events(data: &[u8]) -> Vec<String> {
    let mut parser = Parser::new(data);
    let mut out = Vec::new();
    for _ in 0..1000 {
        let ev = parser.read();
        let done = matches!(ev, ParserState::EndWasm | ParserState::Error(_));
        out.push(format!("{:?}", ev));
        if done {
            break;
        }
    }
    out
}

#[test]
fn minimal_module_events() {
    let mut parser = Parser::new(&MINIMAL);
    assert!(matches!(parser.read(), ParserState::BeginWasm { version: 1 }));
    assert!(matches!(parser.read(), ParserState::EndWasm));
    // The end is terminal.
    assert!(matches!(parser.read(), ParserState::EndWasm));
}

#[test]
fn empty_function_module_events() {
    let mut parser = Parser::new(&EMPTY_FUNCTION);
    assert!(matches!(parser.read(), ParserState::BeginWasm { version: 1 }));
    assert!(matches!(
        parser.read(),
        ParserState::BeginSection { code: SectionCode::Type, range: Range { start: 10, end: 14 } }
    ));
    match parser.read() {
        ParserState::TypeSectionEntry(ft) => {
            assert!(ft.params.is_empty());
            assert!(ft.results.is_empty());
        }
        other => panic!("unexpected {:?}", other),
    }
    assert!(matches!(parser.read(), ParserState::EndSection));
    assert!(matches!(
        parser.read(),
        ParserState::BeginSection { code: SectionCode::Function, .. }
    ));
    assert!(matches!(parser.read(), ParserState::FunctionSectionEntry(0)));
    assert!(matches!(parser.read(), ParserState::EndSection));
    assert!(matches!(parser.read(), ParserState::BeginSection { code: SectionCode::Code, .. }));
    assert!(matches!(
        parser.read(),
        ParserState::BeginFunctionBody { range: Range { start: 22, end: 24 } }
    ));
    match parser.read() {
        ParserState::FunctionBodyLocals { locals } => assert!(locals.is_empty()),
        other => panic!("unexpected {:?}", other),
    }
    assert!(matches!(parser.read(), ParserState::CodeOperator(Operator::End)));
    assert!(matches!(parser.read(), ParserState::EndFunctionBody));
    assert!(matches!(parser.read(), ParserState::EndSection));
    assert!(matches!(parser.read(), ParserState::EndWasm));
}

#[test]
fn bad_magic_is_invalid_header_at_zero() {
    let data = [0x00, 0x61, 0x73, 0x6e, 0x01, 0x00, 0x00, 0x00];
    let mut parser = Parser::new(&data);
    match parser.read() {
        ParserState::Error(e) => {
            assert_eq!(e.kind, ErrorKind::InvalidHeader);
            assert_eq!(e.offset, 0);
        }
        other => panic!("unexpected {:?}", other),
    }
    // Errors are sticky.
    assert!(matches!(parser.read(), ParserState::Error(_)));
}

#[test]
fn bad_version_is_invalid_header_at_four() {
    let data = [0x00, 0x61, 0x73, 0x6d, 0x02, 0x00, 0x00, 0x00];
    match Parser::new(&data).read() {
        ParserState::Error(e) => {
            assert_eq!(e.kind, ErrorKind::InvalidHeader);
            assert_eq!(e.offset, 4);
        }
        other => panic!("unexpected {:?}", other),
    }
}

#[test]
fn skip_function_body_ends_at_declared_end() {
    let mut parser = Parser::new(&EMPTY_FUNCTION);
    let mut body_end = 0;
    loop {
        match parser.read() {
            ParserState::BeginFunctionBody { range } => {
                body_end = range.end;
                break;
            }
            ParserState::EndWasm | ParserState::Error(_) => panic!("no body"),
            _ => {}
        }
    }
    assert!(matches!(
        parser.read_with_input(ParserInput::SkipFunctionBody),
        ParserState::EndFunctionBody
    ));
    assert_eq!(parser.reader.position, body_end);
    assert_eq!(body_end, 24);
    assert!(matches!(parser.read(), ParserState::EndSection));
    assert!(matches!(parser.read(), ParserState::EndWasm));
}

#[test]
fn unknown_opcode_is_reported_at_its_offset() {
    let data = [
        0x00, 0x61, 0x73, 0x6d, 0x01, 0x00, 0x00, 0x00, 0x01, 0x04, 0x01, 0x60, 0x00, 0x00, 0x03,
        0x02, 0x01, 0x00, 0x0a, 0x05, 0x01, 0x03, 0x00, 0x06, 0x0b,
    ];
    let last = events(&data).pop().unwrap();
    assert!(last.contains("UnknownOpcode"), "{}", last);
    assert!(last.contains("offset: 23"), "{}", last);
}

#[test]
fn truncated_leb_is_unexpected_eof_at_truncation() {
    let data = [0x00, 0x61, 0x73, 0x6d, 0x01, 0x00, 0x00, 0x00, 0x01, 0x80];
    let mut parser = Parser::new(&data);
    assert!(matches!(parser.read(), ParserState::BeginWasm { .. }));
    match parser.read() {
        ParserState::Error(e) => {
            assert_eq!(e.kind, ErrorKind::UnexpectedEof);
            assert_eq!(e.offset, 10);
        }
        other => panic!("unexpected {:?}", other),
    }
}

#[test]
fn section_longer_than_input_is_bad_section_length() {
    let data = [0x00, 0x61, 0x73, 0x6d, 0x01, 0x00, 0x00, 0x00, 0x01, 0x05, 0x01];
    let mut parser = Parser::new(&data);
    assert!(matches!(parser.read(), ParserState::BeginWasm { .. }));
    match parser.read() {
        ParserState::Error(e) => {
            assert_eq!(e.kind, ErrorKind::BadSectionLength);
            assert_eq!(e.offset, 11);
        }
        other => panic!("unexpected {:?}", other),
    }
}

#[test]
fn default_reading_reaches_the_last_byte() {
    let mut parser = Parser::new(&EMPTY_FUNCTION);
    loop {
        let before = parser.reader.position;
        match parser.read() {
            ParserState::EndWasm => break,
            ParserState::Error(e) => panic!("{:?}", e),
            _ => assert!(parser.reader.position >= before),
        }
    }
    assert_eq!(parser.reader.position, EMPTY_FUNCTION.len());
}

#[test]
fn section_ends_at_header_plus_declared_length() {
    let mut parser = Parser::new(&EMPTY_FUNCTION);
    let mut begin = 0;
    let mut expected = Vec::new();
    let mut seen = Vec::new();
    loop {
        let before = parser.reader.position;
        match parser.read() {
            ParserState::BeginSection { range, .. } => {
                begin = before;
                // The header is the id byte and a one-byte length here.
                assert_eq!(range.start, begin + 2);
                expected.push(begin + 2 + (range.end - range.start));
            }
            ParserState::EndSection => seen.push(parser.reader.position),
            ParserState::EndWasm => break,
            ParserState::Error(e) => panic!("{:?}", e),
            _ => {}
        }
    }
    assert!(begin > 0);
    assert_eq!(expected, vec![14, 18, 24]);
    assert_eq!(seen, expected);
}

#[test]
fn skip_section_gives_the_same_stream() {
    let mut read_through = Parser::new(&EMPTY_FUNCTION);
    let mut skipping = Parser::new(&EMPTY_FUNCTION);
    assert!(matches!(read_through.read(), ParserState::BeginWasm { .. }));
    assert!(matches!(skipping.read(), ParserState::BeginWasm { .. }));
    assert!(matches!(read_through.read(), ParserState::BeginSection { .. }));
    assert!(matches!(skipping.read(), ParserState::BeginSection { .. }));
    assert!(matches!(
        skipping.read_with_input(ParserInput::SkipSection),
        ParserState::EndSection
    ));
    while !matches!(read_through.read(), ParserState::EndSection) {}
    assert_eq!(read_through.reader.position, skipping.reader.position);
    for _ in 0..20 {
        let a = format!("{:?}", read_through.read());
        let b = format!("{:?}", skipping.read());
        assert_eq!(a, b);
    }
}

#[test]
fn raw_section_data_covers_the_payload() {
    let mut parser = Parser::new(&EMPTY_FUNCTION);
    assert!(matches!(parser.read(), ParserState::BeginWasm { .. }));
    assert!(matches!(parser.read(), ParserState::BeginSection { .. }));
    assert!(matches!(
        parser.read_with_input(ParserInput::ReadSectionRawData),
        ParserState::SectionRawData(Range { start: 10, end: 14 })
    ));
    assert!(matches!(parser.read(), ParserState::EndSection));
}

#[test]
fn custom_section_is_raw_data() {
    let data = [
        0x00, 0x61, 0x73, 0x6d, 0x01, 0x00, 0x00, 0x00, 0x00, 0x05, 0x03, 0x63, 0x61, 0x74, 0x07,
    ];
    let mut parser = Parser::new(&data);
    assert!(matches!(parser.read(), ParserState::BeginWasm { .. }));
    assert!(matches!(
        parser.read(),
        ParserState::BeginSection {
            code: SectionCode::Custom { name: Range { start: 11, end: 14 } },
            range: Range { start: 10, end: 15 },
        }
    ));
    assert!(matches!(parser.read(), ParserState::SectionRawData(Range { start: 14, end: 15 })));
    assert!(matches!(parser.read(), ParserState::EndSection));
    assert!(matches!(parser.read(), ParserState::EndWasm));
}

#[test]
fn custom_section_name_must_be_utf8() {
    let data = [
        0x00, 0x61, 0x73, 0x6d, 0x01, 0x00, 0x00, 0x00, 0x00, 0x03, 0x02, 0xff, 0xfe,
    ];
    let mut parser = Parser::new(&data);
    assert!(matches!(parser.read(), ParserState::BeginWasm { .. }));
    match parser.read() {
        ParserState::Error(e) => {
            assert_eq!(e.kind, ErrorKind::InvalidUtf8);
            assert_eq!(e.offset, 12);
        }
        other => panic!("unexpected {:?}", other),
    }
}

#[test]
fn locals_are_reported_in_groups() {
    // One body with two i32 locals and one i64 local.
    let data = [
        0x00, 0x61, 0x73, 0x6d, 0x01, 0x00, 0x00, 0x00, 0x01, 0x04, 0x01, 0x60, 0x00, 0x00, 0x03,
        0x02, 0x01, 0x00, 0x0a, 0x08, 0x01, 0x06, 0x02, 0x02, 0x7f, 0x01, 0x7e, 0x0b,
    ];
    let mut parser = Parser::new(&data);
    loop {
        match parser.read() {
            ParserState::FunctionBodyLocals { locals } => {
                assert_eq!(locals, vec![(2, Type::I32), (1, Type::I64)]);
                break;
            }
            ParserState::EndWasm | ParserState::Error(_) => panic!("no locals"),
            _ => {}
        }
    }
}

#[test]
fn name_section_is_read_by_subsection() {
    let data = [
        0x00, 0x61, 0x73, 0x6d, 0x01, 0x00, 0x00, 0x00, // header
        0x00, 0x0c, 0x04, 0x6e, 0x61, 0x6d, 0x65, // custom section "name"
        0x00, 0x02, 0x01, 0x6d, // module name "m"
        0x01, 0x01, 0x00, // function names: none
    ];
    let mut parser = Parser::new(&data);
    assert!(matches!(parser.read(), ParserState::BeginWasm { .. }));
    assert!(matches!(parser.read(), ParserState::BeginSection { .. }));
    assert!(matches!(
        parser.read(),
        ParserState::NameSectionEntry { ty: 0, data: Range { start: 17, end: 19 } }
    ));
    assert!(matches!(
        parser.read(),
        ParserState::NameSectionEntry { ty: 1, data: Range { start: 21, end: 22 } }
    ));
    assert!(matches!(parser.read(), ParserState::EndSection));
    assert!(matches!(parser.read(), ParserState::EndWasm));
    // Raw data on request, and skipping, still apply.
    let mut parser = Parser::new(&data);
    parser.read();
    parser.read();
    assert!(matches!(
        parser.read_with_input(ParserInput::ReadSectionRawData),
        ParserState::SectionRawData(Range { start: 15, end: 22 })
    ));
    let mut parser = Parser::new(&data);
    parser.read();
    parser.read();
    parser.read();
    assert!(matches!(parser.read_with_input(ParserInput::SkipSection), ParserState::EndSection));
    assert_eq!(parser.reader.position, 22);
}

#[test]
fn source_mapping_url_section() {
    let mut data = vec![0x00, 0x61, 0x73, 0x6d, 0x01, 0x00, 0x00, 0x00, 0x00, 0x16, 0x10];
    data.extend_from_slice(b"sourceMappingURL");
    data.extend_from_slice(&[0x04, 0x61, 0x2e, 0x6d, 0x70]);
    let mut parser = Parser::new(&data);
    assert!(matches!(parser.read(), ParserState::BeginWasm { .. }));
    assert!(matches!(parser.read(), ParserState::BeginSection { .. }));
    assert!(matches!(
        parser.read(),
        ParserState::SourceMappingURL(Range { start: 28, end: 32 })
    ));
    assert!(matches!(parser.read(), ParserState::EndSection));
    assert!(matches!(parser.read(), ParserState::EndWasm));
}

fn with_custom(name: &str, body: &[u8]) -> Vec<u8> {
    let mut payload = vec![name.len() as u8];
    payload.extend_from_slice(name.as_bytes());
    payload.extend_from_slice(body);
    let mut data = vec![0x00, 0x61, 0x73, 0x6d, 0x01, 0x00, 0x00, 0x00, 0x00, payload.len() as u8];
    data.extend_from_slice(&payload);
    data
}

#[test]
fn linking_section_is_read_by_subsection() {
    let data = with_custom("linking", &[0x02, 0x08, 0x01, 0x00]);
    let mut parser = Parser::new(&data);
    assert!(matches!(parser.read(), ParserState::BeginWasm { .. }));
    assert!(matches!(parser.read(), ParserState::BeginSection { .. }));
    assert!(matches!(
        parser.read(),
        ParserState::LinkingSectionEntry { ty: 8, data: Range { start: 21, end: 22 } }
    ));
    assert!(matches!(parser.read(), ParserState::EndSection));
    assert!(matches!(parser.read(), ParserState::EndWasm));
    let bad = with_custom("linking", &[0x01]);
    let mut parser = Parser::new(&bad);
    parser.read();
    parser.read();
    match parser.read() {
        ParserState::Error(e) => assert_eq!((e.kind, e.offset), (ErrorKind::UnsupportedFeature, 18)),
        other => panic!("unexpected {:?}", other),
    }
}

#[test]
fn producers_section_is_read_by_field() {
    let data = with_custom(
        "producers",
        &[0x01, 0x08, b'l', b'a', b'n', b'g', b'u', b'a', b'g', b'e', 0x01, 0x04, b'R', b'u', b's', b't', 0x00],
    );
    let mut parser = Parser::new(&data);
    assert!(matches!(parser.read(), ParserState::BeginWasm { .. }));
    assert!(matches!(parser.read(), ParserState::BeginSection { .. }));
    match parser.read() {
        ParserState::ProducersSectionEntry(f) => {
            assert_eq!((f.name.start, f.name.end), (22, 30));
            assert_eq!(f.count, 1);
            assert_eq!((f.values.start, f.values.end), (31, 37));
        }
        other => panic!("unexpected {:?}", other),
    }
    assert!(matches!(parser.read(), ParserState::EndSection));
    assert!(matches!(parser.read(), ParserState::EndWasm));
}

#[test]
fn reloc_section_is_read_by_entry() {
    let data = with_custom("reloc.CODE", &[0x03, 0x02, 0x00, 0x05, 0x00, 0x04, 0x07, 0x01, 0x7f]);
    let mut parser = Parser::new(&data);
    assert!(matches!(parser.read(), ParserState::BeginWasm { .. }));
    assert!(matches!(parser.read(), ParserState::BeginSection { .. }));
    assert!(matches!(parser.read(), ParserState::RelocSectionHeader { section: 3 }));
    match parser.read() {
        ParserState::RelocSectionEntry(r) => {
            assert_eq!((r.ty, r.offset, r.index, r.addend), (0, 5, 0, None));
        }
        other => panic!("unexpected {:?}", other),
    }
    match parser.read() {
        ParserState::RelocSectionEntry(r) => {
            assert_eq!((r.ty, r.offset, r.index, r.addend), (4, 7, 1, Some(-1)));
        }
        other => panic!("unexpected {:?}", other),
    }
    assert!(matches!(parser.read(), ParserState::EndSection));
    assert!(matches!(parser.read(), ParserState::EndWasm));
}

use vstd::prelude::*;

use crate::binary_reader::{
    spec_file_header, spec_func_type, spec_memory_type, spec_operator, spec_section_header,
    spec_table_type, spec_var_u32, BinaryReader, Decoded, SectionHeader,
};
use crate::entries::{spec_data, spec_element, spec_export, spec_global, spec_import, spec_locals};
use crate::readers::module::spec_section_end;
use crate::primitives::{
    BinaryReaderError, Data, Element, ErrorKind, Export, FuncType, FuncTypeView, Global, Import,
    MemoryType, ProducersField, RelocEntry,
    Operator, Range, SectionCode, TableType, Type,
};

verus! {

/// What the parser reports, one event per call.
#[derive(Debug)]
pub enum ParserState {
    Error(BinaryReaderError),
    BeginWasm { version: u32 },
    EndWasm,
    BeginSection { code: SectionCode, range: Range },
    EndSection,
    SectionRawData(Range),
    /// One subsection of a `name` section: its id and the range of its
    /// payload.
    NameSectionEntry { ty: u32, data: Range },
    /// The URL a `sourceMappingURL` section holds, as a range of the input.
    SourceMappingURL(Range),
    /// One subsection of a `linking` section: its type and payload.
    LinkingSectionEntry { ty: u32, data: Range },
    /// One field of a `producers` section.
    ProducersSectionEntry(ProducersField),
    /// The index of the section a `reloc.*` section relocates.
    RelocSectionHeader { section: u32 },
    /// One relocation of a `reloc.*` section.
    RelocSectionEntry(RelocEntry),
    TypeSectionEntry(FuncType),
    ImportSectionEntry(Import),
    FunctionSectionEntry(u32),
    TableSectionEntry(TableType),
    MemorySectionEntry(MemoryType),
    GlobalSectionEntry(Global),
    ExportSectionEntry(Export),
    StartSectionEntry(u32),
    ElementSectionEntry(Element),
    DataSectionEntry(Data),
    DataCountSectionEntry(u32),
    BeginFunctionBody { range: Range },
    FunctionBodyLocals { locals: Vec<(u32, Type)> },
    CodeOperator(Operator),
    EndFunctionBody,
}

/// How the caller steers the next step.
#[derive(Clone, Copy, Debug, PartialEq, Eq, Structural)]
pub enum ParserInput {
    Default,
    SkipSection,
    SkipFunctionBody,
    ReadSectionRawData,
}

/// Where the parser stands between two events.
#[derive(Clone, Copy, Debug, PartialEq, Eq, Structural)]
pub enum Phase {
    /// Nothing read yet.
    Start,
    /// At a section boundary: after the header or after a section's end.
    Between,
    /// Right after `BeginSection`.
    SectionStart,
    /// Among the entries of a section.
    Entries,
    /// After the raw bytes of a section.
    RawDone,
    /// Among the subsections of a `name` or `linking` section.
    Subsections,
    /// Among the counted entries of a `producers` or `reloc.*` section.
    CustomEntries,
    /// Right after `BeginFunctionBody`.
    BodyStart,
    /// Among the operators of a function body.
    Operators,
    /// After the `end` that closes a function body.
    BodyDone,
    /// After `EndWasm`.
    Ended,
    /// After an error, which every later call reports again.
    Errored(BinaryReaderError),
}

/// `r` is the event for an entry decoded as `d` in a section ending at
/// `end`: the fault in decoding it, or `BadSectionLength` at `end` when it
/// runs past the section, or the entry as `ok` describes it.
pub open spec fn entry_event<T>(d: Decoded<T>, end: int, ok: spec_fn(T) -> bool, r: ParserState) -> bool {
    match d {
        Err((k, at)) => r == ParserState::Error(BinaryReaderError { kind: k, offset: at as usize }),
        Ok((x, p)) => if p > end {
            r == ParserState::Error(
                BinaryReaderError { kind: ErrorKind::BadSectionLength, offset: end as usize },
            )
        } else {
            ok(x)
        },
    }
}

/// The event for the entry at `pos` of a section of kind `code` ending at
/// `end`. A function body must fit in the section.
pub open spec fn entry_outcome(s: Seq<u8>, pos: int, code: SectionCode, end: int, r: ParserState) -> bool {
    match code {
        SectionCode::Type => entry_event(
            spec_func_type(s, pos),
            end,
            |ft: FuncTypeView| r matches ParserState::TypeSectionEntry(x) && x@ == ft,
            r,
        ),
        SectionCode::Import => entry_event(
            spec_import(s, pos, 0),
            end,
            |i: Import| r == ParserState::ImportSectionEntry(i),
            r,
        ),
        SectionCode::Function => entry_event(
            spec_var_u32(s, pos),
            end,
            |i: u32| r == ParserState::FunctionSectionEntry(i),
            r,
        ),
        SectionCode::Table => entry_event(
            spec_table_type(s, pos),
            end,
            |t: TableType| r == ParserState::TableSectionEntry(t),
            r,
        ),
        SectionCode::Memory => entry_event(
            spec_memory_type(s, pos),
            end,
            |m: MemoryType| r == ParserState::MemorySectionEntry(m),
            r,
        ),
        SectionCode::Global => entry_event(
            spec_global(s, pos, 0),
            end,
            |g: Global| r == ParserState::GlobalSectionEntry(g),
            r,
        ),
        SectionCode::Export => entry_event(
            spec_export(s, pos, 0),
            end,
            |x: Export| r == ParserState::ExportSectionEntry(x),
            r,
        ),
        SectionCode::Element => entry_event(
            spec_element(s, pos, 0),
            end,
            |x: Element| r == ParserState::ElementSectionEntry(x),
            r,
        ),
        SectionCode::Data => entry_event(
            spec_data(s, pos, 0),
            end,
            |x: Data| r == ParserState::DataSectionEntry(x),
            r,
        ),
        SectionCode::Code => match spec_var_u32(s, pos) {
            Err((k, at)) => r == ParserState::Error(BinaryReaderError { kind: k, offset: at as usize }),
            Ok((size, p)) => if p > end || size > end - p {
                r == ParserState::Error(
                    BinaryReaderError { kind: ErrorKind::BadCodeSection, offset: p as usize },
                )
            } else {
                r == (ParserState::BeginFunctionBody {
                    range: Range { start: p as usize, end: (p + size) as usize },
                })
            },
        },
        _ => true,
    }
}

/// The event for the local declarations at `pos` of a body ending at `end`.
pub open spec fn locals_outcome(s: Seq<u8>, pos: int, end: int, r: ParserState) -> bool {
    match spec_locals(s, pos) {
        Err((k, at)) => r == ParserState::Error(BinaryReaderError { kind: k, offset: at as usize }),
        Ok((l, p)) => if p > end {
            r == ParserState::Error(
                BinaryReaderError { kind: ErrorKind::BadCodeSection, offset: end as usize },
            )
        } else {
            r matches ParserState::FunctionBodyLocals { locals } && locals@ == l
        },
    }
}

/// A pull parser over a complete module.
pub struct Parser<'a> {
    pub reader: BinaryReader<'a>,
    pub phase: Phase,
    /// The section being read.
    pub section: Option<SectionCode>,
    pub section_end: usize,
    pub entries_left: u32,
    pub body_end: usize,
    /// Blocks open in the function body, the body's own included.
    pub depth: u32,
    /// Where the header of the current section starts.
    pub section_begin: Ghost<int>,
    /// The declared payload length of the current section.
    pub section_len: Ghost<int>,
}

impl Phase {
    pub open spec fn in_section(self) -> bool {
        self is SectionStart || self is Entries || self is RawDone || self is Subsections
            || self is CustomEntries
            || self.in_body()
    }

    pub open spec fn in_body(self) -> bool {
        self is BodyStart || self is Operators || self is BodyDone
    }
}

impl Phase {
    /// A rank that falls on every step that neither consumes input nor
    /// uses up an entry.
    pub open spec fn rank(self) -> int {
        match self {
            Phase::Start => 7,
            Phase::SectionStart => 6,
            Phase::BodyStart => 5,
            Phase::Operators => 4,
            Phase::BodyDone => 3,
            Phase::RawDone => 3,
            Phase::Entries => 2,
            Phase::Subsections => 2,
            Phase::CustomEntries => 2,
            Phase::Between => 1,
            Phase::Ended => 0,
            Phase::Errored(_) => 0,
        }
    }
}

impl<'a> Parser<'a> {
    pub open spec fn wf(&self) -> bool {
        &&& self.reader.wf()
        &&& self.reader.base_offset == 0
        &&& self.phase.in_section() ==> {
            &&& self.section is Some
            &&& self.reader.position <= self.section_end <= self.reader.buffer@.len()
            &&& spec_section_header(self.reader.buffer@, self.section_begin@, 0) is Ok
            &&& self.section_len@ == spec_section_header(self.reader.buffer@, self.section_begin@, 0)->Ok_0.0.payload_len
            &&& self.section_end == self.section_len@ + spec_section_header(
                self.reader.buffer@,
                self.section_begin@,
                0,
            )->Ok_0.0.payload_start
        }
        &&& self.phase.in_body() ==> {
            &&& self.section == Some(SectionCode::Code)
            &&& self.reader.position <= self.body_end <= self.section_end
        }
        &&& self.phase is Operators ==> self.depth > 0
        &&& self.phase is Start ==> self.reader.position == 0
        &&& self.phase is Ended ==> self.reader.position == self.reader.buffer@.len()
        &&& self.phase is Entries ==> (self.section matches Some(c) && !(c is Custom) && ((c is Start
            || c is DataCount) ==> self.entries_left == 0))
    }

    /// The state at a section boundary at `pos` of `buffer`, the same however
    /// the boundary was reached.
    pub open spec fn at_boundary(&self, buffer: &'a [u8], pos: int) -> bool {
        &&& self.reader == BinaryReader { buffer, position: pos as usize, base_offset: 0 }
        &&& self.phase == Phase::Between
        &&& self.section is None
        &&& self.section_end == 0
        &&& self.entries_left == 0
        &&& self.body_end == 0
        &&& self.depth == 0
        &&& self.section_begin@ == 0
        &&& self.section_len@ == 0
    }

    pub fn new(data: &'a [u8]) -> (r: Parser<'a>)
        ensures
            r.wf(),
            r.reader.buffer@ == data@,
            r.reader.position == 0,
            r.phase == Phase::Start,
    {
        Parser {
            reader: BinaryReader::new(data),
            phase: Phase::Start,
            section: None,
            section_end: 0,
            entries_left: 0,
            body_end: 0,
            depth: 0,
            section_begin: Ghost(0),
            section_len: Ghost(0),
        }
    }

    fn fail(&mut self, e: BinaryReaderError) -> (r: ParserState)
        requires
            old(self).reader.wf(),
            old(self).reader.base_offset == 0,
        ensures
            *final(self) == (Parser { phase: Phase::Errored(e), ..*old(self) }),
            final(self).wf(),
            r == ParserState::Error(e),
    {
        self.phase = Phase::Errored(e);
        ParserState::Error(e)
    }

    /// Leaves the current section at its end.
    fn end_section(&mut self) -> (r: ParserState)
        requires
            old(self).wf(),
            old(self).phase.in_section(),
        ensures
            Self::progress(*old(self), *final(self)),
            final(self).wf(),
            final(self).at_boundary(old(self).reader.buffer, old(self).section_end as int),
            r is EndSection,
    {
        self.reader.position = self.section_end;
        self.phase = Phase::Between;
        self.section = None;
        self.section_end = 0;
        self.entries_left = 0;
        self.body_end = 0;
        self.depth = 0;
        self.section_begin = Ghost(0);
        self.section_len = Ghost(0);
        ParserState::EndSection
    }

    fn begin_section(&mut self) -> (r: ParserState)
        requires
            old(self).wf(),
            old(self).phase is Between,
        ensures
            Self::progress(*old(self), *final(self)),
            final(self).wf(),
            final(self).reader.buffer == old(self).reader.buffer,
            final(self).reader.position >= old(self).reader.position,
            match r {
                ParserState::BeginSection { code, range } => {
                    &&& spec_section_header(old(self).reader.buffer@, old(self).reader.position as int, 0) is Ok
                    &&& {
                        let h = spec_section_header(
                            old(self).reader.buffer@,
                            old(self).reader.position as int,
                            0,
                        )->Ok_0.0;
                        &&& code == h.code
                        &&& range == Range { start: h.payload_start, end: (h.payload_start + h.payload_len) as usize }
                    }
                    &&& final(self).phase is SectionStart
                    &&& final(self).section_end == range.end
                    &&& final(self).section_begin@ == old(self).reader.position
                    &&& final(self).reader.position > old(self).reader.position
                },
                ParserState::Error(e) => final(self).phase == Phase::Errored(e),
                _ => false,
            },
            Self::section_outcome(old(self).reader.buffer@, old(self).reader.position as int, r),
    {
        let begin = self.reader.position;
        let h = match self.reader.read_section_header() {
            Ok(h) => h,
            Err(e) => {
                return self.fail(e);
            },
        };
        let len = self.reader.buffer.len();
        if h.payload_start > len || h.payload_len > len - h.payload_start {
            return self.fail(BinaryReaderError { kind: ErrorKind::BadSectionLength, offset: len });
        }
        let end = h.payload_start + h.payload_len;
        if self.reader.position > end {
            return self.fail(BinaryReaderError { kind: ErrorKind::BadSectionLength, offset: end });
        }
        self.phase = Phase::SectionStart;
        self.section = Some(h.code);
        self.section_end = end;
        self.entries_left = 0;
        self.section_begin = Ghost(begin as int);
        self.section_len = Ghost(h.payload_len as int);
        ParserState::BeginSection { code: h.code, range: Range { start: h.payload_start, end } }
    }

    /// Hands out the rest of the current section as raw bytes.
    fn raw_data(&mut self) -> (r: ParserState)
        requires
            old(self).wf(),
            old(self).phase is SectionStart,
        ensures
            Self::progress(*old(self), *final(self)),
            final(self).wf(),
            final(self).reader.buffer == old(self).reader.buffer,
            final(self).reader.position == old(self).section_end,
            final(self).phase is RawDone,
            final(self).section_end == old(self).section_end,
            final(self).entries_left == old(self).entries_left,
            final(self).section_begin == old(self).section_begin,
            final(self).section_len == old(self).section_len,
            final(self).section == old(self).section,
            r == ParserState::SectionRawData(
                Range { start: old(self).reader.position, end: old(self).section_end },
            ),
    {
        let start = self.reader.position;
        self.reader.position = self.section_end;
        self.phase = Phase::RawDone;
        ParserState::SectionRawData(Range { start, end: self.section_end })
    }

    /// Checks that an entry read up to the cursor stayed inside its section.
    fn within_section(&mut self, event: ParserState) -> (r: ParserState)
        requires
            old(self).reader.wf(),
            old(self).reader.base_offset == 0,
            old(self).phase is Entries,
            old(self).section matches Some(c) && !(c is Custom) && ((c is Start || c is DataCount)
                ==> old(self).entries_left == 0),
            old(self).section_end <= old(self).reader.buffer@.len(),
            spec_section_header(old(self).reader.buffer@, old(self).section_begin@, 0) is Ok,
            old(self).section_end == old(self).section_len@ + spec_section_header(
                old(self).reader.buffer@,
                old(self).section_begin@,
                0,
            )->Ok_0.0.payload_start,
            old(self).section_len@ == spec_section_header(
                old(self).reader.buffer@,
                old(self).section_begin@,
                0,
            )->Ok_0.0.payload_len,
        ensures
            final(self).wf(),
            final(self).reader == old(self).reader,
            old(self).reader.position <= old(self).section_end ==> r == event && *final(self)
                == *old(self),
            old(self).reader.position > old(self).section_end ==> r == ParserState::Error(
                BinaryReaderError {
                    kind: ErrorKind::BadSectionLength,
                    offset: old(self).section_end,
                },
            ) && *final(self) == (Parser {
                phase: Phase::Errored(
                    BinaryReaderError {
                        kind: ErrorKind::BadSectionLength,
                        offset: old(self).section_end,
                    },
                ),
                ..*old(self)
            }),
    {
        if self.reader.position > self.section_end {
            let e = BinaryReaderError { kind: ErrorKind::BadSectionLength, offset: self.section_end };
            self.phase = Phase::Errored(e);
            return ParserState::Error(e);
        }
        event
    }
    /// The event that opening a section at `pos` gives: the fault in its
    /// header, or in its length, or `BeginSection`.
    pub open spec fn section_outcome(s: Seq<u8>, pos: int, r: ParserState) -> bool {
        match spec_section_header(s, pos, 0) {
            Err((k, at)) => r == ParserState::Error(BinaryReaderError { kind: k, offset: at as usize }),
            Ok((h, p)) => match spec_section_end(s, h, p) {
                Err((k, at)) => r == ParserState::Error(
                    BinaryReaderError { kind: k, offset: at as usize },
                ),
                Ok(_) => r is BeginSection,
            },
        }
    }

    /// The bytes left to read.
    pub open spec fn remaining(&self) -> int {
        self.reader.buffer@.len() - self.reader.position
    }

    /// `new` is closer to the end than `old`: fewer bytes left, or as many
    /// and fewer entries left, or as many of both and a lower phase rank.
    pub open spec fn progress(old: Parser<'a>, new: Parser<'a>) -> bool {
        ||| new.remaining() < old.remaining()
        ||| new.remaining() == old.remaining() && new.entries_left < old.entries_left
        ||| new.remaining() == old.remaining() && new.entries_left == old.entries_left
            && new.phase.rank() < old.phase.rank()
    }

    /// The step from `old` to `new` kept the parser well formed, over the same
    /// bytes, without moving back.
    pub open spec fn advanced(old: Parser<'a>, new: Parser<'a>) -> bool {
        &&& new.wf()
        &&& new.reader.buffer == old.reader.buffer
        &&& new.reader.position >= old.reader.position
        &&& (old.phase.in_section() && new.phase.in_section()) ==> {
            &&& new.section_end == old.section_end
            &&& new.section_begin == old.section_begin
            &&& new.section_len == old.section_len
        }
    }

    fn read_type_entry(&mut self) -> (r: ParserState)
        requires
            old(self).wf(),
            old(self).phase is Entries,
            old(self).section == Some(SectionCode::Type),
        ensures
            Self::advanced(*old(self), *final(self)),
            r matches ParserState::Error(e) ==> final(self).phase == Phase::Errored(e),
            !(r is Error) ==> final(self).phase is Entries && r is TypeSectionEntry,
            final(self).section_end == old(self).section_end,
            final(self).entries_left == old(self).entries_left,
            entry_outcome(
                old(self).reader.buffer@,
                old(self).reader.position as int,
                SectionCode::Type,
                old(self).section_end as int,
                r,
            ),
    {
        let v = match self.reader.read_func_type() {
            Ok(v) => v,
            Err(e) => {
                return self.fail(e);
            },
        };
        self.within_section(ParserState::TypeSectionEntry(v))
    }

    fn read_import_entry(&mut self) -> (r: ParserState)
        requires
            old(self).wf(),
            old(self).phase is Entries,
            old(self).section == Some(SectionCode::Import),
        ensures
            Self::advanced(*old(self), *final(self)),
            r matches ParserState::Error(e) ==> final(self).phase == Phase::Errored(e),
            !(r is Error) ==> final(self).phase is Entries && r is ImportSectionEntry,
            final(self).section_end == old(self).section_end,
            final(self).entries_left == old(self).entries_left,
            entry_outcome(
                old(self).reader.buffer@,
                old(self).reader.position as int,
                SectionCode::Import,
                old(self).section_end as int,
                r,
            ),
    {
        let v = match self.reader.read_import() {
            Ok(v) => v,
            Err(e) => {
                return self.fail(e);
            },
        };
        self.within_section(ParserState::ImportSectionEntry(v))
    }

    fn read_function_entry(&mut self) -> (r: ParserState)
        requires
            old(self).wf(),
            old(self).phase is Entries,
            old(self).section == Some(SectionCode::Function),
        ensures
            Self::advanced(*old(self), *final(self)),
            r matches ParserState::Error(e) ==> final(self).phase == Phase::Errored(e),
            !(r is Error) ==> final(self).phase is Entries && r is FunctionSectionEntry,
            final(self).section_end == old(self).section_end,
            final(self).entries_left == old(self).entries_left,
            entry_outcome(
                old(self).reader.buffer@,
                old(self).reader.position as int,
                SectionCode::Function,
                old(self).section_end as int,
                r,
            ),
    {
        let v = match self.reader.read_var_u32() {
            Ok(v) => v,
            Err(e) => {
                return self.fail(e);
            },
        };
        self.within_section(ParserState::FunctionSectionEntry(v))
    }

    fn read_table_entry(&mut self) -> (r: ParserState)
        requires
            old(self).wf(),
            old(self).phase is Entries,
            old(self).section == Some(SectionCode::Table),
        ensures
            Self::advanced(*old(self), *final(self)),
            r matches ParserState::Error(e) ==> final(self).phase == Phase::Errored(e),
            !(r is Error) ==> final(self).phase is Entries && r is TableSectionEntry,
            final(self).section_end == old(self).section_end,
            final(self).entries_left == old(self).entries_left,
            entry_outcome(
                old(self).reader.buffer@,
                old(self).reader.position as int,
                SectionCode::Table,
                old(self).section_end as int,
                r,
            ),
    {
        let v = match self.reader.read_table_type() {
            Ok(v) => v,
            Err(e) => {
                return self.fail(e);
            },
        };
        self.within_section(ParserState::TableSectionEntry(v))
    }

    fn read_memory_entry(&mut self) -> (r: ParserState)
        requires
            old(self).wf(),
            old(self).phase is Entries,
            old(self).section == Some(SectionCode::Memory),
        ensures
            Self::advanced(*old(self), *final(self)),
            r matches ParserState::Error(e) ==> final(self).phase == Phase::Errored(e),
            !(r is Error) ==> final(self).phase is Entries && r is MemorySectionEntry,
            final(self).section_end == old(self).section_end,
            final(self).entries_left == old(self).entries_left,
            entry_outcome(
                old(self).reader.buffer@,
                old(self).reader.position as int,
                SectionCode::Memory,
                old(self).section_end as int,
                r,
            ),
    {
        let v = match self.reader.read_memory_type() {
            Ok(v) => v,
            Err(e) => {
                return self.fail(e);
            },
        };
        self.within_section(ParserState::MemorySectionEntry(v))
    }

    fn read_global_entry(&mut self) -> (r: ParserState)
        requires
            old(self).wf(),
            old(self).phase is Entries,
            old(self).section == Some(SectionCode::Global),
        ensures
            Self::advanced(*old(self), *final(self)),
            r matches ParserState::Error(e) ==> final(self).phase == Phase::Errored(e),
            !(r is Error) ==> final(self).phase is Entries && r is GlobalSectionEntry,
            final(self).section_end == old(self).section_end,
            final(self).entries_left == old(self).entries_left,
            entry_outcome(
                old(self).reader.buffer@,
                old(self).reader.position as int,
                SectionCode::Global,
                old(self).section_end as int,
                r,
            ),
    {
        let v = match self.reader.read_global() {
            Ok(v) => v,
            Err(e) => {
                return self.fail(e);
            },
        };
        self.within_section(ParserState::GlobalSectionEntry(v))
    }

    fn read_export_entry(&mut self) -> (r: ParserState)
        requires
            old(self).wf(),
            old(self).phase is Entries,
            old(self).section == Some(SectionCode::Export),
        ensures
            Self::advanced(*old(self), *final(self)),
            r matches ParserState::Error(e) ==> final(self).phase == Phase::Errored(e),
            !(r is Error) ==> final(self).phase is Entries && r is ExportSectionEntry,
            final(self).section_end == old(self).section_end,
            final(self).entries_left == old(self).entries_left,
            entry_outcome(
                old(self).reader.buffer@,
                old(self).reader.position as int,
                SectionCode::Export,
                old(self).section_end as int,
                r,
            ),
    {
        let v = match self.reader.read_export() {
            Ok(v) => v,
            Err(e) => {
                return self.fail(e);
            },
        };
        self.within_section(ParserState::ExportSectionEntry(v))
    }

    fn read_element_entry(&mut self) -> (r: ParserState)
        requires
            old(self).wf(),
            old(self).phase is Entries,
            old(self).section == Some(SectionCode::Element),
        ensures
            Self::advanced(*old(self), *final(self)),
            r matches ParserState::Error(e) ==> final(self).phase == Phase::Errored(e),
            !(r is Error) ==> final(self).phase is Entries && r is ElementSectionEntry,
            final(self).section_end == old(self).section_end,
            final(self).entries_left == old(self).entries_left,
            entry_outcome(
                old(self).reader.buffer@,
                old(self).reader.position as int,
                SectionCode::Element,
                old(self).section_end as int,
                r,
            ),
    {
        let v = match self.reader.read_element() {
            Ok(v) => v,
            Err(e) => {
                return self.fail(e);
            },
        };
        self.within_section(ParserState::ElementSectionEntry(v))
    }

    fn read_data_entry(&mut self) -> (r: ParserState)
        requires
            old(self).wf(),
            old(self).phase is Entries,
            old(self).section == Some(SectionCode::Data),
        ensures
            Self::advanced(*old(self), *final(self)),
            r matches ParserState::Error(e) ==> final(self).phase == Phase::Errored(e),
            !(r is Error) ==> final(self).phase is Entries && r is DataSectionEntry,
            final(self).section_end == old(self).section_end,
            final(self).entries_left == old(self).entries_left,
            entry_outcome(
                old(self).reader.buffer@,
                old(self).reader.position as int,
                SectionCode::Data,
                old(self).section_end as int,
                r,
            ),
    {
        let v = match self.reader.read_data() {
            Ok(v) => v,
            Err(e) => {
                return self.fail(e);
            },
        };
        self.within_section(ParserState::DataSectionEntry(v))
    }

    fn begin_body(&mut self) -> (r: ParserState)
        requires
            old(self).wf(),
            old(self).phase is Entries,
            old(self).section == Some(SectionCode::Code),
        ensures
            Self::advanced(*old(self), *final(self)),
            r matches ParserState::Error(e) ==> final(self).phase == Phase::Errored(e),
            !(r is Error) ==> final(self).phase is BodyStart && r is BeginFunctionBody,
            final(self).section_end == old(self).section_end,
            final(self).entries_left == old(self).entries_left,
            entry_outcome(
                old(self).reader.buffer@,
                old(self).reader.position as int,
                SectionCode::Code,
                old(self).section_end as int,
                r,
            ),
    {
        let size = match self.reader.read_var_u32() {
            Ok(v) => v,
            Err(e) => {
                return self.fail(e);
            },
        };
        let start = self.reader.position;
        if start > self.section_end || size as usize > self.section_end - start {
            return self.fail(
                BinaryReaderError {
                    kind: ErrorKind::BadCodeSection,
                    offset: self.reader.absolute_position(),
                },
            );
        }
        self.body_end = start + size as usize;
        self.depth = 0;
        self.phase = Phase::BodyStart;
        ParserState::BeginFunctionBody { range: Range { start, end: self.body_end } }
    }

    /// Reads the next entry of a counted section.
    fn read_entry(&mut self) -> (r: ParserState)
        requires
            old(self).wf(),
            old(self).phase is Entries,
            old(self).entries_left > 0,
            old(self).section matches Some(c) && !(c is Custom || c is Start || c is DataCount),
        ensures
            Self::advanced(*old(self), *final(self)),
            r matches ParserState::Error(e) ==> final(self).phase == Phase::Errored(e),
            r is BeginFunctionBody ==> final(self).phase is BodyStart,
            !(r is Error || r is BeginFunctionBody) ==> final(self).phase is Entries,
            !(r is EndSection),
            !(r is SectionRawData),
            !(r is BeginWasm || r is EndWasm || r is BeginSection || r is EndFunctionBody
                || r is CodeOperator || r is FunctionBodyLocals || r is NameSectionEntry
                || r is SourceMappingURL || r is LinkingSectionEntry || r is ProducersSectionEntry
                || r is RelocSectionHeader || r is RelocSectionEntry),
            final(self).section_end == old(self).section_end,
            final(self).entries_left < old(self).entries_left,
            entry_outcome(
                old(self).reader.buffer@,
                old(self).reader.position as int,
                old(self).section->Some_0,
                old(self).section_end as int,
                r,
            ),
    {
        self.entries_left = self.entries_left - 1;
        match self.section {
            Some(SectionCode::Type) => self.read_type_entry(),
            Some(SectionCode::Import) => self.read_import_entry(),
            Some(SectionCode::Function) => self.read_function_entry(),
            Some(SectionCode::Table) => self.read_table_entry(),
            Some(SectionCode::Memory) => self.read_memory_entry(),
            Some(SectionCode::Global) => self.read_global_entry(),
            Some(SectionCode::Export) => self.read_export_entry(),
            Some(SectionCode::Element) => self.read_element_entry(),
            Some(SectionCode::Data) => self.read_data_entry(),
            Some(SectionCode::Code) => self.begin_body(),
            // Custom, start and data count sections have no counted entries;
            // the precondition excludes them.
            _ => ParserState::EndSection,
        }
    }

    /// Emits the next entry, or ends the section when every declared entry
    /// has been read and the section is used up.
    fn next_entry(&mut self) -> (r: ParserState)
        requires
            old(self).wf(),
            old(self).phase is Entries,
            old(self).section matches Some(c) && !(c is Custom),
            old(self).section matches Some(c) && (c is Start || c is DataCount) ==> old(self).entries_left == 0,
        ensures
            Self::progress(*old(self), *final(self)),
            Self::advanced(*old(self), *final(self)),
            r matches ParserState::Error(e) ==> final(self).phase == Phase::Errored(e),
            r is EndSection ==> final(self).at_boundary(
                old(self).reader.buffer,
                old(self).section_end as int,
            ),
            r is BeginFunctionBody ==> final(self).phase is BodyStart,
            !(r is Error || r is BeginFunctionBody || r is EndSection) ==> final(self).phase is Entries,
            !(r is Error || r is EndSection) ==> final(self).entries_left < old(self).entries_left,
            !(r is SectionRawData),
            !(r is BeginWasm || r is EndWasm || r is BeginSection || r is EndFunctionBody
                || r is CodeOperator || r is FunctionBodyLocals || r is NameSectionEntry
                || r is SourceMappingURL || r is LinkingSectionEntry || r is ProducersSectionEntry
                || r is RelocSectionHeader || r is RelocSectionEntry),
            old(self).entries_left > 0 ==> entry_outcome(
                old(self).reader.buffer@,
                old(self).reader.position as int,
                old(self).section->Some_0,
                old(self).section_end as int,
                r,
            ),
            old(self).entries_left == 0 ==> (if old(self).reader.position == old(self).section_end {
                r is EndSection
            } else {
                r == ParserState::Error(
                    BinaryReaderError {
                        kind: ErrorKind::BadSectionLength,
                        offset: old(self).reader.position,
                    },
                )
            }),
    {
        if self.entries_left == 0 {
            if self.reader.position != self.section_end {
                return self.fail(
                    BinaryReaderError {
                        kind: ErrorKind::BadSectionLength,
                        offset: self.reader.position,
                    },
                );
            }
            return self.end_section();
        }
        self.read_entry()
    }

    /// The default step right after `BeginSection`.
    fn open_section(&mut self) -> (r: ParserState)
        requires
            old(self).wf(),
            old(self).phase is SectionStart,
        ensures
            Self::progress(*old(self), *final(self)),
            Self::advanced(*old(self), *final(self)),
            r matches ParserState::Error(e) ==> final(self).phase == Phase::Errored(e),
            r is EndSection ==> final(self).at_boundary(
                old(self).reader.buffer,
                old(self).section_end as int,
            ),
            r is SectionRawData ==> (final(self).phase is RawDone && final(self).reader.position
                == old(self).section_end),
            r matches ParserState::SectionRawData(range) ==> range == (Range {
                start: old(self).reader.position,
                end: old(self).section_end,
            }),
            r is BeginFunctionBody ==> final(self).phase is BodyStart,
            !(r is Error || r is BeginFunctionBody || r is EndSection || r is SectionRawData
                || r is NameSectionEntry || r is SourceMappingURL || r is LinkingSectionEntry
                || r is ProducersSectionEntry || r is RelocSectionHeader || r is RelocSectionEntry)
                ==> final(self).phase is Entries,
            (r is NameSectionEntry || r is LinkingSectionEntry) ==> final(self).phase is Subsections,
            (r is ProducersSectionEntry || r is RelocSectionHeader || r is RelocSectionEntry)
                ==> final(self).phase is CustomEntries,
            r is SourceMappingURL ==> final(self).phase is RawDone,
            !(r is Error || r is SectionRawData || r is EndSection) ==> final(self).reader.position
                > old(self).reader.position,
            r is SectionRawData ==> final(self).entries_left == old(self).entries_left,
            !(r is BeginWasm || r is EndWasm || r is BeginSection || r is EndFunctionBody
                || r is CodeOperator || r is FunctionBodyLocals),
    {
        let code = match self.section {
            Some(c) => c,
            None => {
                return self.raw_data();
            },
        };
        if let SectionCode::Custom { name } = code {
            if self.name_is(name, &[0x6e, 0x61, 0x6d, 0x65]) {
                self.phase = Phase::Subsections;
                return self.name_entry();
            }
            if self.name_is(name, &[0x6c, 0x69, 0x6e, 0x6b, 0x69, 0x6e, 0x67]) {
                return self.open_linking();
            }
            if self.name_is(name, &[0x70, 0x72, 0x6f, 0x64, 0x75, 0x63, 0x65, 0x72, 0x73]) {
                return self.open_counted(false);
            }
            if self.name_starts_with(name, &[0x72, 0x65, 0x6c, 0x6f, 0x63, 0x2e]) {
                return self.open_counted(true);
            }
            if self.name_is(
                name,
                &[0x73, 0x6f, 0x75, 0x72, 0x63, 0x65, 0x4d, 0x61, 0x70, 0x70, 0x69, 0x6e, 0x67, 0x55, 0x52, 0x4c],
            ) {
                return self.source_mapping_url();
            }
            return self.raw_data();
        }
        match code {
            SectionCode::Start | SectionCode::DataCount => {
                let v = match self.reader.read_var_u32() {
                    Ok(v) => v,
                    Err(e) => {
                        return self.fail(e);
                    },
                };
                self.phase = Phase::Entries;
                self.entries_left = 0;
                let event = match code {
                    SectionCode::Start => ParserState::StartSectionEntry(v),
                    _ => ParserState::DataCountSectionEntry(v),
                };
                return self.within_section(event);
            },
            _ => {
                let count = match self.reader.read_var_u32() {
                    Ok(v) => v,
                    Err(e) => {
                        return self.fail(e);
                    },
                };
                if self.reader.position > self.section_end {
                    return self.fail(
                        BinaryReaderError {
                            kind: ErrorKind::BadSectionLength,
                            offset: self.section_end,
                        },
                    );
                }
                self.entries_left = count;
                self.phase = Phase::Entries;
                self.next_entry()
            },
        }
    }

    /// Reads the local declarations of the body just begun.
    fn body_locals(&mut self) -> (r: ParserState)
        requires
            old(self).wf(),
            old(self).phase is BodyStart,
        ensures
            Self::progress(*old(self), *final(self)),
            Self::advanced(*old(self), *final(self)),
            r matches ParserState::Error(e) ==> final(self).phase == Phase::Errored(e),
            !(r is Error) ==> r is FunctionBodyLocals && final(self).phase is Operators
                && final(self).depth == 1 && final(self).body_end == old(self).body_end,
            final(self).entries_left == old(self).entries_left,
            locals_outcome(
                old(self).reader.buffer@,
                old(self).reader.position as int,
                old(self).body_end as int,
                r,
            ),
    {
        let locals = match self.reader.read_locals() {
            Ok(v) => v,
            Err(e) => {
                return self.fail(e);
            },
        };
        if self.reader.position > self.body_end {
            return self.fail(
                BinaryReaderError { kind: ErrorKind::BadCodeSection, offset: self.body_end },
            );
        }
        self.phase = Phase::Operators;
        self.depth = 1;
        ParserState::FunctionBodyLocals { locals }
    }

    /// Reads the next operator of the current body; the body ends with the
    /// `end` that closes its outermost block, which must be its last byte.
    fn next_operator(&mut self) -> (r: ParserState)
        requires
            old(self).wf(),
            old(self).phase is Operators,
        ensures
            Self::progress(*old(self), *final(self)),
            Self::advanced(*old(self), *final(self)),
            r matches ParserState::Error(e) ==> final(self).phase == Phase::Errored(e),
            !(r is Error) ==> {
                &&& r is CodeOperator
                &&& spec_operator(old(self).reader.buffer@, old(self).reader.position as int, 0)
                    == Ok::<(Operator, int), (ErrorKind, int)>(
                    (r->CodeOperator_0, final(self).reader.position as int),
                )
                &&& final(self).body_end == old(self).body_end
                &&& (final(self).phase is BodyDone || final(self).phase is Operators)
                &&& final(self).phase is BodyDone ==> final(self).reader.position == final(self).body_end
                &&& final(self).reader.position > old(self).reader.position
            },
            final(self).entries_left == old(self).entries_left,
            old(self).reader.position < old(self).body_end ==> (spec_operator(
                old(self).reader.buffer@,
                old(self).reader.position as int,
                0,
            ) matches Err((k, at)) ==> r == ParserState::Error(
                BinaryReaderError { kind: k, offset: at as usize },
            )),
    {
        if self.reader.position >= self.body_end {
            return self.fail(
                BinaryReaderError { kind: ErrorKind::BadCodeSection, offset: self.reader.position },
            );
        }
        let op = match self.reader.read_operator() {
            Ok(v) => v,
            Err(e) => {
                return self.fail(e);
            },
        };
        if self.reader.position > self.body_end {
            return self.fail(
                BinaryReaderError { kind: ErrorKind::BadCodeSection, offset: self.body_end },
            );
        }
        match op {
            Operator::Block { .. } | Operator::Loop { .. } | Operator::If { .. } => {
                if self.depth == u32::MAX {
                    return self.fail(
                        BinaryReaderError {
                            kind: ErrorKind::LimitExceeded,
                            offset: self.reader.position,
                        },
                    );
                }
                self.depth = self.depth + 1;
            },
            Operator::End => {
                self.depth = self.depth - 1;
                if self.depth == 0 {
                    if self.reader.position != self.body_end {
                        return self.fail(
                            BinaryReaderError {
                                kind: ErrorKind::BadCodeSection,
                                offset: self.reader.position,
                            },
                        );
                    }
                    self.phase = Phase::BodyDone;
                }
            },
            _ => {},
        }
        ParserState::CodeOperator(op)
    }

    /// Whether the bytes of `name` are those of `text`.
    fn name_is(&self, name: Range, text: &[u8]) -> (r: bool) {
        let b = self.reader.buffer;
        if !(name.start <= name.end && name.end <= b.len() && name.end - name.start == text.len()) {
            return false;
        }
        let mut i: usize = 0;
        while i < text.len()
            invariant
                name.start <= name.end <= b@.len(),
                name.end - name.start == text@.len(),
                i <= text@.len(),
            decreases text@.len() - i,
        {
            if b[name.start + i] != text[i] {
                return false;
            }
            i = i + 1;
        }
        true
    }

    /// Reads the URL of a `sourceMappingURL` section.
    fn source_mapping_url(&mut self) -> (r: ParserState)
        requires
            old(self).wf(),
            old(self).phase is SectionStart,
        ensures
            Self::progress(*old(self), *final(self)),
            Self::advanced(*old(self), *final(self)),
            r matches ParserState::Error(e) ==> final(self).phase == Phase::Errored(e),
            r is SourceMappingURL ==> final(self).phase is RawDone && final(self).reader.position
                > old(self).reader.position,
            r is Error || r is SourceMappingURL,
            final(self).entries_left == old(self).entries_left,
    {
        let url = match self.reader.read_string() {
            Ok(v) => v,
            Err(e) => {
                return self.fail(e);
            },
        };
        if self.reader.position > self.section_end {
            return self.fail(
                BinaryReaderError { kind: ErrorKind::BadSectionLength, offset: self.section_end },
            );
        }
        self.phase = Phase::RawDone;
        ParserState::SourceMappingURL(url)
    }

    /// Reads the next subsection of a `name` section, or ends the section
    /// when its payload is used up.
    fn name_entry(&mut self) -> (r: ParserState)
        requires
            old(self).wf(),
            old(self).phase is Subsections,
        ensures
            Self::progress(*old(self), *final(self)),
            Self::advanced(*old(self), *final(self)),
            r matches ParserState::Error(e) ==> final(self).phase == Phase::Errored(e),
            r is EndSection ==> final(self).at_boundary(
                old(self).reader.buffer,
                old(self).section_end as int,
            ),
            (r is NameSectionEntry || r is LinkingSectionEntry) ==> final(self).phase is Subsections
                && final(self).reader.position > old(self).reader.position,
            r is Error || r is EndSection || r is NameSectionEntry || r is LinkingSectionEntry,
            final(self).entries_left == old(self).entries_left || r is EndSection,
    {
        if self.reader.position >= self.section_end {
            return self.end_section();
        }
        let ty = match self.reader.read_var_u7() {
            Ok(v) => v,
            Err(e) => {
                return self.fail(e);
            },
        };
        let size = match self.reader.read_var_u32() {
            Ok(v) => v,
            Err(e) => {
                return self.fail(e);
            },
        };
        let data = match self.reader.read_bytes(size as usize) {
            Ok(v) => v,
            Err(e) => {
                return self.fail(e);
            },
        };
        if self.reader.position > self.section_end {
            return self.fail(
                BinaryReaderError { kind: ErrorKind::BadSectionLength, offset: self.section_end },
            );
        }
        let linking = match self.section {
            Some(SectionCode::Custom { name }) => self.name_is(name, &[0x6c, 0x69, 0x6e, 0x6b, 0x69, 0x6e, 0x67]),
            _ => false,
        };
        if linking {
            ParserState::LinkingSectionEntry { ty, data }
        } else {
            ParserState::NameSectionEntry { ty, data }
        }
    }

    /// Whether the bytes of `name` begin with those of `text`.
    fn name_starts_with(&self, name: Range, text: &[u8]) -> (r: bool) {
        let b = self.reader.buffer;
        if !(name.start <= name.end && name.end <= b.len() && name.end - name.start >= text.len()) {
            return false;
        }
        let mut i: usize = 0;
        while i < text.len()
            invariant
                name.start <= name.end <= b@.len(),
                name.end - name.start >= text@.len(),
                i <= text@.len(),
            decreases text@.len() - i,
        {
            if b[name.start + i] != text[i] {
                return false;
            }
            i = i + 1;
        }
        true
    }

    /// Opens a `linking` section: its version, which must be 2, then its
    /// subsections.
    fn open_linking(&mut self) -> (r: ParserState)
        requires
            old(self).wf(),
            old(self).phase is SectionStart,
        ensures
            Self::progress(*old(self), *final(self)),
            Self::advanced(*old(self), *final(self)),
            r matches ParserState::Error(e) ==> final(self).phase == Phase::Errored(e),
            r is EndSection ==> final(self).at_boundary(
                old(self).reader.buffer,
                old(self).section_end as int,
            ),
            (r is NameSectionEntry || r is LinkingSectionEntry) ==> final(self).phase is Subsections,
            r is Error || r is EndSection || r is NameSectionEntry || r is LinkingSectionEntry,
            !(r is Error || r is EndSection) ==> final(self).reader.position > old(self).reader.position,
    {
        let at = self.reader.position;
        let version = match self.reader.read_var_u32() {
            Ok(v) => v,
            Err(e) => {
                return self.fail(e);
            },
        };
        if version != 2 {
            return self.fail(BinaryReaderError { kind: ErrorKind::UnsupportedFeature, offset: at });
        }
        if self.reader.position > self.section_end {
            return self.fail(
                BinaryReaderError { kind: ErrorKind::BadSectionLength, offset: self.section_end },
            );
        }
        self.phase = Phase::Subsections;
        self.name_entry()
    }

    /// Opens a `producers` section (its field count) or a `reloc.*` section
    /// (the index of the section it relocates, then its entry count).
    fn open_counted(&mut self, reloc: bool) -> (r: ParserState)
        requires
            old(self).wf(),
            old(self).phase is SectionStart,
        ensures
            Self::progress(*old(self), *final(self)),
            Self::advanced(*old(self), *final(self)),
            r matches ParserState::Error(e) ==> final(self).phase == Phase::Errored(e),
            r is EndSection ==> final(self).at_boundary(
                old(self).reader.buffer,
                old(self).section_end as int,
            ),
            (r is ProducersSectionEntry || r is RelocSectionHeader || r is RelocSectionEntry)
                ==> final(self).phase is CustomEntries,
            r is Error || r is EndSection || r is ProducersSectionEntry || r is RelocSectionHeader
                || r is RelocSectionEntry,
            !(r is Error || r is EndSection) ==> final(self).reader.position > old(self).reader.position,
    {
        let mut section: u32 = 0;
        if reloc {
            section = match self.reader.read_var_u32() {
                Ok(v) => v,
                Err(e) => {
                    return self.fail(e);
                },
            };
        }
        let count = match self.reader.read_var_u32() {
            Ok(v) => v,
            Err(e) => {
                return self.fail(e);
            },
        };
        if self.reader.position > self.section_end {
            return self.fail(
                BinaryReaderError { kind: ErrorKind::BadSectionLength, offset: self.section_end },
            );
        }
        self.entries_left = count;
        self.phase = Phase::CustomEntries;
        if reloc {
            ParserState::RelocSectionHeader { section }
        } else {
            self.custom_entry()
        }
    }

    /// Reads the next entry of a `producers` or `reloc.*` section, or ends
    /// the section after the last one, which must use it up.
    fn custom_entry(&mut self) -> (r: ParserState)
        requires
            old(self).wf(),
            old(self).phase is CustomEntries,
        ensures
            Self::progress(*old(self), *final(self)),
            Self::advanced(*old(self), *final(self)),
            r matches ParserState::Error(e) ==> final(self).phase == Phase::Errored(e),
            r is EndSection ==> final(self).at_boundary(
                old(self).reader.buffer,
                old(self).section_end as int,
            ),
            (r is ProducersSectionEntry || r is RelocSectionEntry) ==> final(self).phase is CustomEntries,
            r is Error || r is EndSection || r is ProducersSectionEntry || r is RelocSectionEntry,
    {
        if self.entries_left == 0 {
            if self.reader.position != self.section_end {
                return self.fail(
                    BinaryReaderError {
                        kind: ErrorKind::BadSectionLength,
                        offset: self.reader.position,
                    },
                );
            }
            return self.end_section();
        }
        self.entries_left = self.entries_left - 1;
        let producers = match self.section {
            Some(SectionCode::Custom { name }) => self.name_is(name, &[0x70, 0x72, 0x6f, 0x64, 0x75, 0x63, 0x65, 0x72, 0x73]),
            _ => false,
        };
        let event = if producers {
            match self.reader.read_producers_field() {
                Ok(f) => ParserState::ProducersSectionEntry(f),
                Err(e) => {
                    return self.fail(e);
                },
            }
        } else {
            match self.reader.read_reloc_entry() {
                Ok(x) => ParserState::RelocSectionEntry(x),
                Err(e) => {
                    return self.fail(e);
                },
            }
        };
        if self.reader.position > self.section_end {
            return self.fail(
                BinaryReaderError { kind: ErrorKind::BadSectionLength, offset: self.section_end },
            );
        }
        event
    }

    /// Leaves the current function body at its declared end.
    fn end_body(&mut self) -> (r: ParserState)
        requires
            old(self).wf(),
            old(self).phase.in_body(),
        ensures
            Self::progress(*old(self), *final(self)),
            Self::advanced(*old(self), *final(self)),
            final(self).reader.position == old(self).body_end,
            final(self).phase is Entries,
            final(self).section_end == old(self).section_end,
            final(self).section == old(self).section,
            final(self).entries_left == old(self).entries_left,
            r is EndFunctionBody,
    {
        self.reader.position = self.body_end;
        self.phase = Phase::Entries;
        self.depth = 0;
        ParserState::EndFunctionBody
    }

    /// Reads the next event.
    pub fn read(&mut self) -> (r: ParserState)
        requires
            old(self).wf(),
        ensures
            Self::steps(*old(self), *final(self), ParserInput::Default, r),
    {
        self.read_with_input(ParserInput::Default)
    }

    /// What one step does, whatever the input.
    pub open spec fn steps(old: Parser<'a>, new: Parser<'a>, input: ParserInput, r: ParserState) -> bool {
        let s = old.reader.buffer@;
        &&& Self::advanced(old, new)
        &&& !(old.phase is Errored || old.phase is Ended) ==> Self::progress(old, new)
        // An error is reported again by every later step, and the end of the
        // module likewise.
        &&& old.phase matches Phase::Errored(e) ==> r == ParserState::Error(e) && new == old
        &&& old.phase is Ended ==> r is EndWasm && new == old
        &&& r matches ParserState::Error(e) ==> new.phase == Phase::Errored(e)
        // The first event is the header's, or the fault in it.
        &&& old.phase is Start ==> (match spec_file_header(s, 0) {
            Ok((version, p)) => r == ParserState::BeginWasm { version } && new.reader.position == p
                && new.phase is Between,
            Err((k, at)) => r == ParserState::Error(
                BinaryReaderError { kind: k, offset: at as usize },
            ),
        })
        &&& r is BeginWasm ==> old.phase is Start
        // The module ends exactly when a section boundary meets the last byte.
        &&& r is EndWasm ==> new.phase is Ended && new.reader.position == s.len()
        &&& old.phase is Between ==> (r is EndWasm <==> old.reader.position == s.len())
        // A section's payload is what its header declares.
        &&& r matches ParserState::BeginSection { code, range } ==> {
            &&& old.phase is Between
            &&& spec_section_header(s, old.reader.position as int, 0) matches Ok((h, _)) && code
                == h.code && range == Range {
                start: h.payload_start,
                end: (h.payload_start + h.payload_len) as usize,
            }
            &&& new.phase is SectionStart
            &&& new.section_begin@ == old.reader.position
            &&& new.section_end == range.end
        }
        // A section ends at the end of its payload, and the parser is then
        // in the one state of that boundary.
        &&& r is EndSection ==> old.phase.in_section() && new.at_boundary(
            old.reader.buffer,
            old.section_end as int,
        )
        &&& r matches ParserState::SectionRawData(range) ==> old.phase is SectionStart && range
            == Range { start: old.reader.position, end: old.section_end } && new.reader.position
            == old.section_end
        // Steering.
        &&& (input is SkipSection && (old.phase is SectionStart || old.phase is Entries
            || old.phase is RawDone || old.phase is Subsections || old.phase is CustomEntries))
            ==> r is EndSection
        &&& (r is NameSectionEntry || r is LinkingSectionEntry) ==> (old.phase is SectionStart
            || old.phase is Subsections) && new.phase is Subsections
        &&& (r is ProducersSectionEntry || r is RelocSectionHeader || r is RelocSectionEntry) ==> (
        old.phase is SectionStart || old.phase is CustomEntries) && new.phase is CustomEntries
        &&& r is SourceMappingURL ==> old.phase is SectionStart && new.phase is RawDone
        &&& (input is ReadSectionRawData && old.phase is SectionStart) ==> r is SectionRawData
        &&& (input is SkipFunctionBody && old.phase.in_body()) ==> r is EndFunctionBody
        &&& r is EndFunctionBody ==> old.phase.in_body() && new.reader.position == old.body_end
            && new.phase is Entries
        // A section header that cannot be read, or a payload that does not
        // fit, is reported as such.
        &&& (old.phase is Between && old.reader.position < s.len()) ==> Self::section_outcome(
            s,
            old.reader.position as int,
            r,
        )
        // An operator that cannot be decoded is reported where it starts.
        &&& (old.phase is Operators && !(input is SkipFunctionBody) && old.reader.position
            < old.body_end) ==> (spec_operator(s, old.reader.position as int, 0) matches Err((k, at))
            ==> r == ParserState::Error(BinaryReaderError { kind: k, offset: at as usize }))
        // Operators are decoded in place, one after another.
        &&& r matches ParserState::CodeOperator(op) ==> old.phase is Operators
            && spec_operator(s, old.reader.position as int, 0) == Ok::<(Operator, int), (ErrorKind, int)>(
            (op, new.reader.position as int),
        )
        &&& r is FunctionBodyLocals ==> old.phase is BodyStart && new.phase is Operators
        // Entries are decoded at the cursor; after the last one the section
        // must be used up.
        &&& (old.phase is Entries && !(input is SkipSection)) ==> (if old.entries_left == 0 {
            if old.reader.position == old.section_end {
                r is EndSection
            } else {
                r == ParserState::Error(
                    BinaryReaderError {
                        kind: ErrorKind::BadSectionLength,
                        offset: old.reader.position,
                    },
                )
            }
        } else {
            entry_outcome(s, old.reader.position as int, old.section->Some_0, old.section_end as int, r)
        })
        &&& (old.phase is BodyStart && !(input is SkipFunctionBody)) ==> locals_outcome(
            s,
            old.reader.position as int,
            old.body_end as int,
            r,
        )
        &&& (old.phase is Operators && !(input is SkipFunctionBody)) ==> (r is CodeOperator
            || r is Error)
    }

    /// Reads the next event, steered by `input`.
    #[verifier::rlimit(80)]
    pub fn read_with_input(&mut self, input: ParserInput) -> (r: ParserState)
        requires
            old(self).wf(),
        ensures
            Self::steps(*old(self), *final(self), input, r),
    {
        let phase = self.phase;
        match phase {
            Phase::Errored(e) => {
                return ParserState::Error(e);
            },
            Phase::Ended => ParserState::EndWasm,
            Phase::Start => {
                let version = match self.reader.read_file_header() {
                    Ok(v) => v,
                    Err(e) => {
                        return self.fail(e);
                    },
                };
                self.phase = Phase::Between;
                ParserState::BeginWasm { version }
            },
            Phase::Between => {
                if self.reader.eof() {
                    self.phase = Phase::Ended;
                    ParserState::EndWasm
                } else {
                    self.begin_section()
                }
            },
            Phase::SectionStart => {
                match input {
                    ParserInput::SkipSection => self.end_section(),
                    ParserInput::ReadSectionRawData => self.raw_data(),
                    _ => self.open_section(),
                }
            },
            Phase::Entries => {
                match input {
                    ParserInput::SkipSection => self.end_section(),
                    _ => self.next_entry(),
                }
            },
            Phase::RawDone => self.end_section(),
            Phase::Subsections => {
                match input {
                    ParserInput::SkipSection => self.end_section(),
                    _ => self.name_entry(),
                }
            },
            Phase::CustomEntries => {
                match input {
                    ParserInput::SkipSection => self.end_section(),
                    _ => self.custom_entry(),
                }
            },
            Phase::BodyStart => {
                match input {
                    ParserInput::SkipFunctionBody => self.end_body(),
                    _ => self.body_locals(),
                }
            },
            Phase::Operators => {
                match input {
                    ParserInput::SkipFunctionBody => self.end_body(),
                    _ => self.next_operator(),
                }
            },
            Phase::BodyDone => self.end_body(),
        }
    }
}

/// The header of the section a parser is in.
pub open spec fn current_header(p: Parser) -> SectionHeader {
    spec_section_header(p.reader.buffer@, p.section_begin@, 0)->Ok_0.0
}

/// A section ends where its header began, plus the header's length, plus
/// the payload length the header declares.
pub proof fn lemma_section_end_position(p: Parser, q: Parser, input: ParserInput, r: ParserState)
    requires
        p.wf(),
        Parser::steps(p, q, input, r),
        r is EndSection,
    ensures
        q.reader.position == p.section_begin@ + (current_header(p).payload_start - p.section_begin@)
            + current_header(p).payload_len,
{
}

/// Two parsers at the same section boundary of the same bytes are in the
/// same state. Skipping a section right after its `BeginSection` and reading
/// it through both end there, at the section's end, so the events that
/// follow are the same.
pub proof fn lemma_section_boundary_unique<'a>(a: Parser<'a>, b: Parser<'a>, buffer: &'a [u8], pos: int)
    requires
        a.at_boundary(buffer, pos),
        b.at_boundary(buffer, pos),
    ensures
        a == b,
{
}

} // verus!

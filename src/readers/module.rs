use vstd::prelude::*;

use crate::binary_reader::{
    spec_file_header, spec_section_header, spec_var_u32, BinaryReader, Decoded, SectionHeader,
};
use crate::primitives::{BinaryReaderError, ErrorKind, Result, SectionCode};
use crate::readers::code_section::CodeSectionReader;
use crate::readers::data_section::DataSectionReader;
use crate::readers::element_section::ElementSectionReader;
use crate::readers::export_section::ExportSectionReader;
use crate::readers::function_section::FunctionSectionReader;
use crate::readers::global_section::GlobalSectionReader;
use crate::readers::import_section::ImportSectionReader;
use crate::readers::memory_section::MemorySectionReader;
use crate::readers::opened;
use crate::readers::table_section::TableSectionReader;
use crate::readers::type_section::TypeSectionReader;

verus! {

/// One section of a module: its code and the bytes of its body (for a
/// custom section, what follows the name), which start at `offset`.
pub struct Section<'a> {
    pub code: SectionCode,
    pub offset: usize,
    pub data: &'a [u8],
}

/// The body of a start section: one function index and nothing after it.
pub open spec fn spec_start_section(data: Seq<u8>) -> Decoded<u32> {
    match spec_var_u32(data, 0) {
        Ok((index, p)) => if p != data.len() {
            Err((ErrorKind::BadSectionLength, p))
        } else {
            Ok((index, p))
        },
        Err(e) => Err(e),
    }
}

impl<'a> Section<'a> {
    /// Absolute offsets of the body fit in `usize`.
    pub open spec fn wf(&self) -> bool {
        self.offset + self.data@.len() <= usize::MAX
    }

    /// Creates a reader for the type section.
    pub fn get_type_section_reader(&self) -> (r: Result<TypeSectionReader<'a>>)
        requires
            self.wf(),
            self.code == SectionCode::Type,
        ensures
            opened(
                r,
                self.data@,
                self.offset,
                |rd: TypeSectionReader<'a>, c: u32, p: int| rd.at_start(self.data@, self.offset, c, p),
            ),
    {
        TypeSectionReader::new(self.data, self.offset)
    }

    /// Creates a reader for the function section.
    pub fn get_function_section_reader(&self) -> (r: Result<FunctionSectionReader<'a>>)
        requires
            self.wf(),
            self.code == SectionCode::Function,
        ensures
            opened(
                r,
                self.data@,
                self.offset,
                |rd: FunctionSectionReader<'a>, c: u32, p: int|
                    rd.at_start(self.data@, self.offset, c, p),
            ),
    {
        FunctionSectionReader::new(self.data, self.offset)
    }

    /// Creates a reader for the code section.
    pub fn get_code_section_reader(&self) -> (r: Result<CodeSectionReader<'a>>)
        requires
            self.wf(),
            self.code == SectionCode::Code,
        ensures
            opened(
                r,
                self.data@,
                self.offset,
                |rd: CodeSectionReader<'a>, c: u32, p: int| rd.at_start(self.data@, self.offset, c, p),
            ),
    {
        CodeSectionReader::new(self.data, self.offset)
    }

    /// Creates a reader for the export section.
    pub fn get_export_section_reader(&self) -> (r: Result<ExportSectionReader<'a>>)
        requires
            self.wf(),
            self.code == SectionCode::Export,
        ensures
            opened(
                r,
                self.data@,
                self.offset,
                |rd: ExportSectionReader<'a>, c: u32, p: int|
                    rd.at_start(self.data@, self.offset, c, p),
            ),
    {
        ExportSectionReader::new(self.data, self.offset)
    }

    /// Creates a reader for the import section.
    pub fn get_import_section_reader(&self) -> (r: Result<ImportSectionReader<'a>>)
        requires
            self.wf(),
            self.code == SectionCode::Import,
        ensures
            opened(
                r,
                self.data@,
                self.offset,
                |rd: ImportSectionReader<'a>, c: u32, p: int|
                    rd.at_start(self.data@, self.offset, c, p),
            ),
    {
        ImportSectionReader::new(self.data, self.offset)
    }

    /// Creates a reader for the global section.
    pub fn get_global_section_reader(&self) -> (r: Result<GlobalSectionReader<'a>>)
        requires
            self.wf(),
            self.code == SectionCode::Global,
        ensures
            opened(
                r,
                self.data@,
                self.offset,
                |rd: GlobalSectionReader<'a>, c: u32, p: int|
                    rd.at_start(self.data@, self.offset, c, p),
            ),
    {
        GlobalSectionReader::new(self.data, self.offset)
    }

    /// Creates a reader for the memory section.
    pub fn get_memory_section_reader(&self) -> (r: Result<MemorySectionReader<'a>>)
        requires
            self.wf(),
            self.code == SectionCode::Memory,
        ensures
            opened(
                r,
                self.data@,
                self.offset,
                |rd: MemorySectionReader<'a>, c: u32, p: int|
                    rd.at_start(self.data@, self.offset, c, p),
            ),
    {
        MemorySectionReader::new(self.data, self.offset)
    }

    /// Creates a reader for the data section.
    pub fn get_data_section_reader(&self) -> (r: Result<DataSectionReader<'a>>)
        requires
            self.wf(),
            self.code == SectionCode::Data,
        ensures
            opened(
                r,
                self.data@,
                self.offset,
                |rd: DataSectionReader<'a>, c: u32, p: int| rd.at_start(self.data@, self.offset, c, p),
            ),
    {
        DataSectionReader::new(self.data, self.offset)
    }

    /// Creates a reader for the table section.
    pub fn get_table_section_reader(&self) -> (r: Result<TableSectionReader<'a>>)
        requires
            self.wf(),
            self.code == SectionCode::Table,
        ensures
            opened(
                r,
                self.data@,
                self.offset,
                |rd: TableSectionReader<'a>, c: u32, p: int| rd.at_start(self.data@, self.offset, c, p),
            ),
    {
        TableSectionReader::new(self.data, self.offset)
    }

    /// Creates a reader for the element section.
    pub fn get_element_section_reader(&self) -> (r: Result<ElementSectionReader<'a>>)
        requires
            self.wf(),
            self.code == SectionCode::Element,
        ensures
            opened(
                r,
                self.data@,
                self.offset,
                |rd: ElementSectionReader<'a>, c: u32, p: int|
                    rd.at_start(self.data@, self.offset, c, p),
            ),
    {
        ElementSectionReader::new(self.data, self.offset)
    }

    /// Reads the start function's index from the start section.
    pub fn get_start_section_content(&self) -> (r: Result<u32>)
        requires
            self.wf(),
            self.code == SectionCode::Start,
        ensures
            match spec_start_section(self.data@) {
                Ok((index, _)) => r == Ok::<u32, BinaryReaderError>(index),
                Err((k, at)) => r == Err::<u32, BinaryReaderError>(
                    BinaryReaderError { kind: k, offset: (self.offset + at) as usize },
                ),
            },
    {
        let mut reader = BinaryReader::new_with_offset(self.data, self.offset);
        let index = match reader.read_var_u32() {
            Ok(v) => v,
            Err(e) => {
                return Err(e);
            },
        };
        if !reader.eof() {
            return Err(
                BinaryReaderError {
                    kind: ErrorKind::BadSectionLength,
                    offset: reader.absolute_position(),
                },
            );
        }
        Ok(index)
    }
}

/// Where the body of the section with header `h`, read up to `pos`, ends:
/// its payload must lie within the module and hold the header's tail.
pub open spec fn spec_section_end(s: Seq<u8>, h: SectionHeader, pos: int) -> core::result::Result<
    int,
    (ErrorKind, int),
> {
    let end = h.payload_start + h.payload_len;
    if end > s.len() {
        Err((ErrorKind::BadSectionLength, s.len() as int))
    } else if pos > end {
        Err((ErrorKind::BadSectionLength, end))
    } else {
        Ok(end)
    }
}

/// The next section header from `pos`: the one read ahead, if any, else the
/// one decoded at `pos`, or none at the end of the input. The result is the
/// header and where the cursor stands after it.
pub open spec fn spec_next_header(s: Seq<u8>, pos: int, ra: Option<SectionHeader>) -> core::result::Result<
    (Option<SectionHeader>, int),
    (ErrorKind, int),
> {
    match ra {
        Some(h) => Ok((Some(h), pos)),
        None => if pos >= s.len() {
            Ok((None, pos))
        } else {
            match spec_section_header(s, pos, 0) {
                Ok((h, p)) => Ok((Some(h), p)),
                Err(e) => Err(e),
            }
        },
    }
}

/// Moving past a run of custom sections from `pos`: the first header that is
/// not a custom section's (read ahead, with the cursor just past it), or
/// none at the end of the input; or the first fault in a custom section's
/// header or length.
pub open spec fn spec_skip_custom(s: Seq<u8>, pos: int, ra: Option<SectionHeader>) -> core::result::Result<
    (Option<SectionHeader>, int),
    (ErrorKind, int),
>
    decreases s.len() - pos, (if ra is Some { 1int } else { 0int }),
{
    match spec_next_header(s, pos, ra) {
        Err(e) => Err(e),
        Ok((None, q)) => Ok((None, q)),
        Ok((Some(h), q)) => if h.code is Custom {
            match spec_section_end(s, h, q) {
                Err(e) => Err(e),
                Ok(end) => if end > pos || (end == pos && ra is Some) {
                    spec_skip_custom(s, end, None)
                } else {
                    // Not reached: a header decoded at `pos` ends past it.
                    Err((ErrorKind::BadSectionLength, pos))
                },
            }
        } else {
            Ok((Some(h), q))
        },
    }
}

/// Reads the top-level structure of a module: its header, then its sections.
pub struct ModuleReader<'a> {
    pub reader: BinaryReader<'a>,
    pub version: u32,
    pub read_ahead: Option<SectionHeader>,
    /// Where the header read ahead starts.
    pub ahead_at: Ghost<int>,
}

impl<'a> ModuleReader<'a> {
    /// The reader stands over the whole module; a header read ahead was
    /// decoded at `ahead_at` and ends at the cursor.
    pub open spec fn wf(&self) -> bool {
        &&& self.reader.wf()
        &&& self.reader.base_offset == 0
        &&& match self.read_ahead {
            Some(h) => {
                &&& h.payload_start <= self.reader.position
                &&& spec_section_header(self.reader.buffer@, self.ahead_at@, 0) == Ok::<
                    (SectionHeader, int),
                    (ErrorKind, int),
                >((h, self.reader.position as int))
            },
            None => true,
        }
    }

    /// The header of the next section, and where the cursor stands after it.
    pub open spec fn next_header(&self) -> Decoded<SectionHeader> {
        match self.read_ahead {
            Some(h) => Ok((h, self.reader.position as int)),
            None => spec_section_header(self.reader.buffer@, self.reader.position as int, 0),
        }
    }

    pub fn new(data: &'a [u8]) -> (r: Result<ModuleReader<'a>>)
        ensures
            match spec_file_header(data@, 0) {
                Ok((version, p)) => r is Ok && r->Ok_0.wf() && r->Ok_0.reader.buffer@ == data@
                    && r->Ok_0.reader.position == p && r->Ok_0.version == version
                    && r->Ok_0.read_ahead is None,
                Err((k, at)) => r == Err::<ModuleReader<'a>, BinaryReaderError>(
                    BinaryReaderError { kind: k, offset: at as usize },
                ),
            },
    {
        let mut reader = BinaryReader::new(data);
        let version = match reader.read_file_header() {
            Ok(v) => v,
            Err(e) => {
                return Err(e);
            },
        };
        Ok(ModuleReader { reader, version, read_ahead: None, ahead_at: Ghost(0) })
    }

    pub fn get_version(&self) -> (r: u32)
        ensures
            r == self.version,
    {
        self.version
    }

    /// Whether every section has been read.
    pub fn eof(&self) -> (r: bool)
        requires
            self.wf(),
        ensures
            r == (self.read_ahead is None && self.reader.position >= self.reader.buffer@.len()),
    {
        self.read_ahead.is_none() && self.reader.eof()
    }

    fn verify_section_end(&self, h: &SectionHeader) -> (r: Result<usize>)
        requires
            self.wf(),
        ensures
            match spec_section_end(self.reader.buffer@, *h, self.reader.position as int) {
                Ok(end) => r == Ok::<usize, BinaryReaderError>(end as usize),
                Err((k, at)) => r == Err::<usize, BinaryReaderError>(
                    BinaryReaderError { kind: k, offset: at as usize },
                ),
            },
    {
        let len = self.reader.buffer.len();
        if h.payload_start > len || h.payload_len > len - h.payload_start {
            return Err(BinaryReaderError { kind: ErrorKind::BadSectionLength, offset: len });
        }
        let end = h.payload_start + h.payload_len;
        if self.reader.position > end {
            return Err(BinaryReaderError { kind: ErrorKind::BadSectionLength, offset: end });
        }
        Ok(end)
    }

    /// Reads the next section and moves past it.
    pub fn read(&mut self) -> (r: Result<Section<'a>>)
        requires
            old(self).wf(),
        ensures
            match old(self).next_header() {
                Ok((h, p)) => {
                    let s = old(self).reader.buffer@;
                    match spec_section_end(s, h, p) {
                        Ok(end) => {
                            &&& r is Ok
                            &&& r->Ok_0.code == h.code
                            &&& r->Ok_0.offset == p
                            &&& !(h.code is Custom) ==> r->Ok_0.offset == h.payload_start
                            &&& r->Ok_0.data@ == s.subrange(p, end)
                            &&& r->Ok_0.wf()
                            &&& final(self).wf()
                            &&& final(self).reader.buffer == old(self).reader.buffer
                            &&& final(self).reader.position == end
                            &&& final(self).read_ahead is None
                            &&& final(self).version == old(self).version
                        },
                        Err((k, at)) => r == Err::<Section<'a>, BinaryReaderError>(
                            BinaryReaderError { kind: k, offset: at as usize },
                        ),
                    }
                },
                Err((k, at)) => r == Err::<Section<'a>, BinaryReaderError>(
                    BinaryReaderError { kind: k, offset: at as usize },
                ),
            },
            final(self).wf(),
            final(self).version == old(self).version,
            final(self).reader.buffer == old(self).reader.buffer,
    {
        let h = match self.read_ahead.take() {
            Some(h) => h,
            None => match self.reader.read_section_header() {
                Ok(h) => h,
                Err(e) => {
                    return Err(e);
                },
            },
        };
        let end = match self.verify_section_end(&h) {
            Ok(end) => end,
            Err(e) => {
                return Err(e);
            },
        };
        let body_start = self.reader.position;
        self.reader.position = end;
        Ok(Section {
            code: h.code,
            offset: body_start,
            data: vstd::slice::slice_subrange(self.reader.buffer, body_start, end),
        })
    }

    /// Decodes the next section header into `read_ahead`, unless one is
    /// there already or the input is used up.
    fn ensure_read_ahead(&mut self) -> (r: Result<()>)
        requires
            old(self).wf(),
        ensures
            final(self).wf(),
            final(self).reader.buffer == old(self).reader.buffer,
            final(self).version == old(self).version,
            final(self).reader.position >= old(self).reader.position,
            (old(self).read_ahead is Some || old(self).reader.position >= old(self).reader.buffer@.len())
                ==> r is Ok && *final(self) == *old(self),
            (old(self).read_ahead is None && old(self).reader.position < old(self).reader.buffer@.len())
                ==> match spec_section_header(old(self).reader.buffer@, old(self).reader.position as int, 0) {
                Ok((h, p)) => r is Ok && final(self).read_ahead == Some(h) && final(self).reader.position == p,
                Err((k, at)) => r == Err::<(), BinaryReaderError>(
                    BinaryReaderError { kind: k, offset: at as usize },
                ),
            },
    {
        if self.read_ahead.is_none() && !self.reader.eof() {
            let at = self.reader.position;
            match self.reader.read_section_header() {
                Ok(h) => {
                    self.read_ahead = Some(h);
                    self.ahead_at = Ghost(at as int);
                },
                Err(e) => {
                    return Err(e);
                },
            }
        }
        Ok(())
    }

    /// Moves past any custom sections; afterwards the next section, if any,
    /// is not a custom one.
    pub fn skip_custom_sections(&mut self) -> (r: Result<()>)
        requires
            old(self).wf(),
        ensures
            final(self).wf(),
            final(self).reader.buffer == old(self).reader.buffer,
            final(self).version == old(self).version,
            match spec_skip_custom(
                old(self).reader.buffer@,
                old(self).reader.position as int,
                old(self).read_ahead,
            ) {
                Ok((ra, p)) => r is Ok && final(self).read_ahead == ra && final(self).reader.position == p,
                Err((k, at)) => r == Err::<(), BinaryReaderError>(
                    BinaryReaderError { kind: k, offset: at as usize },
                ),
            },
    {
        loop
            invariant
                self.wf(),
                self.reader.buffer == old(self).reader.buffer,
                self.version == old(self).version,
                self.reader.position >= old(self).reader.position,
                spec_skip_custom(self.reader.buffer@, self.reader.position as int, self.read_ahead)
                    == spec_skip_custom(
                    old(self).reader.buffer@,
                    old(self).reader.position as int,
                    old(self).read_ahead,
                ),
            decreases self.reader.buffer@.len() - self.reader.position,
                (if self.read_ahead is Some { 1int } else { 0int }),
        {
            match self.ensure_read_ahead() {
                Ok(()) => {},
                Err(e) => {
                    return Err(e);
                },
            }
            match self.read_ahead {
                Some(h) => {
                    if let SectionCode::Custom { .. } = h.code {
                        let end = match self.verify_section_end(&h) {
                            Ok(end) => end,
                            Err(e) => {
                                return Err(e);
                            },
                        };
                        self.read_ahead = None;
                        self.reader.position = end;
                    } else {
                        return Ok(());
                    }
                },
                None => {
                    return Ok(());
                },
            }
        }
    }
}

} // verus!

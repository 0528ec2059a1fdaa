use vstd::prelude::*;

use crate::binary_reader::{BinaryReader, outcome};
use crate::entries::spec_export;
use crate::primitives::{Export, Result};
use crate::readers::opened;

verus! {

/// Reads the entries of an export section, one per call.
pub struct ExportSectionReader<'a> {
    pub reader: BinaryReader<'a>,
    pub count: u32,
}

impl<'a> ExportSectionReader<'a> {
    /// The reader stands over `data`, placed at `offset` in the module, right
    /// after the entry count `count`, which ends at `pos`.
    pub open spec fn at_start(self, data: Seq<u8>, offset: usize, count: u32, pos: int) -> bool {
        &&& self.reader.wf()
        &&& self.reader.buffer@ == data
        &&& self.reader.base_offset == offset
        &&& self.reader.position == pos
        &&& self.count == count
    }

    /// Opens the section body `data`, which starts at `offset` in the module,
    /// by reading its entry count.
    pub fn new(data: &'a [u8], offset: usize) -> (r: Result<ExportSectionReader<'a>>)
        requires
            offset + data@.len() <= usize::MAX,
        ensures
            opened(r, data@, offset, |rd: ExportSectionReader<'a>, c: u32, p: int| rd.at_start(data@, offset, c, p)),
    {
        let mut reader = BinaryReader::new_with_offset(data, offset);
        let count = match reader.read_var_u32() {
            Ok(v) => v,
            Err(e) => {
                return Err(e);
            },
        };
        Ok(ExportSectionReader { reader, count })
    }

    pub fn get_count(&self) -> (r: u32)
        ensures
            r == self.count,
    {
        self.count
    }

    /// Reads the next entry.
    pub fn read(&mut self) -> (r: Result<Export>)
        requires
            old(self).reader.wf(),
        ensures
            final(self).reader.wf(),
            final(self).reader.buffer == old(self).reader.buffer,
            final(self).reader.base_offset == old(self).reader.base_offset,
            final(self).reader.position >= old(self).reader.position,
            final(self).count == old(self).count,
            outcome(
                r,
                final(self).reader.position,
                old(self).reader.base_offset,
                spec_export(old(self).reader.buffer@, old(self).reader.position as int, old(self).reader.base_offset as int),
            ),
    {
        self.reader.read_export()
    }
}

} // verus!

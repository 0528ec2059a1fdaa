use vstd::prelude::*;

use crate::binary_reader::spec_var_u32;
use crate::primitives::{BinaryReaderError, Result};

pub mod code_section;
pub mod data_section;
pub mod element_section;
pub mod export_section;
pub mod function_section;
pub mod global_section;
pub mod import_section;
pub mod memory_section;
pub mod module;
pub mod table_section;
pub mod type_section;

verus! {

/// `r` is what opening a counted section body `data` at `offset` gives: the
/// reader `ok` describes after the entry count, or the fault in reading it.
pub open spec fn opened<T>(
    r: Result<T>,
    data: Seq<u8>,
    offset: usize,
    ok: spec_fn(T, u32, int) -> bool,
) -> bool {
    match spec_var_u32(data, 0) {
        Ok((c, p)) => r is Ok && ok(r->Ok_0, c, p),
        Err((k, at)) => r == Err::<T, BinaryReaderError>(
            BinaryReaderError { kind: k, offset: (offset + at) as usize },
        ),
    }
}

} // verus!

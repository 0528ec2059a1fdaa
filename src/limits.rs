use vstd::prelude::*;

verus! {

// Hard caps imposed on WebAssembly modules, agreed upon with other engines.
pub const MAX_WASM_TYPES: usize = 1000000;
pub const MAX_WASM_FUNCTIONS: usize = 1000000;
pub const MAX_WASM_GLOBALS: usize = 1000000;
pub const MAX_WASM_MEMORY_PAGES: usize = 65536;
pub const MAX_WASM_STRING_SIZE: usize = 100000;
pub const MAX_WASM_FUNCTION_SIZE: usize = 131072;
pub const MAX_WASM_FUNCTION_LOCALS: usize = 50000;
pub const MAX_WASM_FUNCTION_PARAMS: usize = 1000;
pub const MAX_WASM_FUNCTION_RETURNS: usize = 1000;
pub const MAX_WASM_TABLE_ENTRIES: usize = 10000000;
pub const MAX_WASM_TABLES: usize = 1;
pub const MAX_WASM_MEMORIES: usize = 1;

} // verus!

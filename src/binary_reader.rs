use vstd::prelude::*;

use crate::limits::{MAX_WASM_FUNCTION_PARAMS, MAX_WASM_FUNCTION_RETURNS, MAX_WASM_STRING_SIZE};
use crate::primitives::{
    BinaryReaderError, BrTable, ErrorKind, ExternalKind, FuncType, FuncTypeView, GlobalType, MemoryImmediate,
    MemoryType, Operator, Ieee32, Ieee64, Range, ResizableLimits, Result, SectionCode, TableType, Type, TypeOrFuncType,
};

verus! {

/// The outcome of decoding at a position of a byte sequence: the value and
/// the position just past it, or the fault and the position it was found at.
pub type Decoded<T> = core::result::Result<(T, int), (ErrorKind, int)>;

/// `r`, returned by a reader whose bytes start at `base` in the module and
/// whose cursor ended at `pos`, is the outcome `d`.
pub open spec fn outcome<T>(r: Result<T>, pos: usize, base: usize, d: Decoded<T>) -> bool {
    match d {
        Ok((v, p)) => r == Ok::<T, BinaryReaderError>(v) && pos == p,
        Err((k, at)) => r == Err::<T, BinaryReaderError>(
            BinaryReaderError { kind: k, offset: (base + at) as usize },
        ),
    }
}

/// Like `outcome`, for values compared through their view.
pub open spec fn outcome_view<T: View>(
    r: Result<T>,
    pos: usize,
    base: usize,
    d: Decoded<T::V>,
) -> bool {
    match d {
        Ok((v, p)) => r is Ok && r->Ok_0@ == v && pos == p,
        Err((k, at)) => r == Err::<T, BinaryReaderError>(
            BinaryReaderError { kind: k, offset: (base + at) as usize },
        ),
    }
}

/// A read of several bytes that runs past the end fails at the cursor.
pub open spec fn eof_at<T>(pos: int) -> Decoded<T> {
    Err((ErrorKind::UnexpectedEof, pos))
}

/// One byte.
pub open spec fn spec_u8(s: Seq<u8>, pos: int) -> Decoded<u8> {
    if 0 <= pos < s.len() {
        Ok((s[pos], pos + 1))
    } else {
        eof_at(pos)
    }
}

/// Four bytes, little-endian.
pub open spec fn spec_u32(s: Seq<u8>, pos: int) -> Decoded<u32> {
    if 0 <= pos && pos + 4 <= s.len() {
        Ok((
            (s[pos] + s[pos + 1] * 0x100 + s[pos + 2] * 0x10000 + s[pos + 3] * 0x1000000) as u32,
            pos + 4,
        ))
    } else {
        eof_at(pos)
    }
}

pub open spec fn pow128(n: nat) -> int
    decreases n,
{
    if n == 0 {
        1
    } else {
        128 * pow128((n - 1) as nat)
    }
}

/// The number the low seven bits of the `n` bytes at `pos` stand for, least
/// significant group first.
pub open spec fn leb_groups(s: Seq<u8>, pos: int, n: nat) -> int
    decreases n,
{
    if n == 0 {
        0
    } else {
        leb_groups(s, pos, (n - 1) as nat) + (s[pos + n - 1] % 128) * pow128((n - 1) as nat)
    }
}

/// How a LEB128 encoding of at most `max` bytes at `pos` ends, scanning
/// from its `i`-th byte: `Ok(n)` when its `n`-th byte is the first without
/// the continuation bit.
pub open spec fn leb_scan(s: Seq<u8>, pos: int, max: nat, i: nat) -> core::result::Result<
    nat,
    (ErrorKind, int),
>
    decreases max - i,
{
    if i >= max {
        Err((ErrorKind::InvalidLeb128, pos + max - 1))
    } else if pos + i >= s.len() {
        Err((ErrorKind::UnexpectedEof, s.len() as int))
    } else if s[pos + i] < 128 {
        Ok(i + 1)
    } else if i + 1 >= max {
        Err((ErrorKind::InvalidLeb128, pos + i))
    } else {
        leb_scan(s, pos, max, i + 1)
    }
}

/// Unsigned LEB128 of at most five bytes whose value fits in 32 bits.
pub open spec fn spec_var_u32(s: Seq<u8>, pos: int) -> Decoded<u32> {
    match leb_scan(s, pos, 5, 0) {
        Ok(n) => {
            let v = leb_groups(s, pos, n);
            if v < 0x1_0000_0000 {
                Ok((v as u32, pos + n))
            } else {
                Err((ErrorKind::InvalidLeb128, pos + n - 1))
            }
        },
        Err(e) => Err(e),
    }
}

/// The signed number `n` LEB128 bytes at `pos` stand for: the groups, sign
/// extended from the sixth bit of the last byte.
pub open spec fn sleb_value(s: Seq<u8>, pos: int, n: nat) -> int {
    if n > 0 && s[pos + n - 1] % 128 >= 64 {
        leb_groups(s, pos, n) - pow128(n)
    } else {
        leb_groups(s, pos, n)
    }
}

/// Signed LEB128 of at most `max` bytes whose value lies in `[lo, hi)`.
pub open spec fn spec_sleb(s: Seq<u8>, pos: int, max: nat, lo: int, hi: int) -> Decoded<int> {
    match leb_scan(s, pos, max, 0) {
        Ok(n) => {
            let v = sleb_value(s, pos, n);
            if lo <= v < hi {
                Ok((v, pos + n))
            } else {
                Err((ErrorKind::InvalidLeb128, pos + n - 1))
            }
        },
        Err(e) => Err(e),
    }
}

pub open spec fn spec_var_i32(s: Seq<u8>, pos: int) -> Decoded<i32> {
    match spec_sleb(s, pos, 5, -0x8000_0000, 0x8000_0000) {
        Ok((v, p)) => Ok((v as i32, p)),
        Err(e) => Err(e),
    }
}

pub open spec fn spec_var_i64(s: Seq<u8>, pos: int) -> Decoded<i64> {
    match spec_sleb(s, pos, 10, -0x8000_0000_0000_0000, 0x8000_0000_0000_0000) {
        Ok((v, p)) => Ok((v as i64, p)),
        Err(e) => Err(e),
    }
}


/// The type a type code stands for.
pub open spec fn type_of_code(b: u8) -> Option<Type> {
    if b == 0x7f {
        Some(Type::I32)
    } else if b == 0x7e {
        Some(Type::I64)
    } else if b == 0x7d {
        Some(Type::F32)
    } else if b == 0x7c {
        Some(Type::F64)
    } else if b == 0x7b {
        Some(Type::V128)
    } else if b == 0x70 {
        Some(Type::AnyFunc)
    } else if b == 0x6f {
        Some(Type::AnyRef)
    } else if b == 0x60 {
        Some(Type::Func)
    } else if b == 0x40 {
        Some(Type::EmptyBlockType)
    } else {
        None
    }
}

pub open spec fn spec_type(s: Seq<u8>, pos: int) -> Decoded<Type> {
    match spec_u8(s, pos) {
        Ok((b, p)) => match type_of_code(b) {
            Some(t) => Ok((t, p)),
            None => Err((ErrorKind::InvalidType, pos)),
        },
        Err(e) => Err(e),
    }
}

/// A one-bit flag stored in a byte.
pub open spec fn spec_var_u1(s: Seq<u8>, pos: int) -> Decoded<u32> {
    match spec_u8(s, pos) {
        Ok((b, p)) => if b < 2 {
            Ok((b as u32, p))
        } else {
            Err((ErrorKind::InvalidLeb128, pos))
        },
        Err(e) => Err(e),
    }
}

/// A seven-bit number stored in a byte.
pub open spec fn spec_var_u7(s: Seq<u8>, pos: int) -> Decoded<u32> {
    match spec_u8(s, pos) {
        Ok((b, p)) => if b < 128 {
            Ok((b as u32, p))
        } else {
            Err((ErrorKind::InvalidLeb128, pos))
        },
        Err(e) => Err(e),
    }
}

/// A signed 33-bit LEB128 number (block types).
pub open spec fn spec_var_s33(s: Seq<u8>, pos: int) -> Decoded<i64> {
    match spec_sleb(s, pos, 5, -0x1_0000_0000, 0x1_0000_0000) {
        Ok((v, p)) => Ok((v as i64, p)),
        Err(e) => Err(e),
    }
}

/// A signed 33-bit LEB128 number (block types).
/// A UTF-8 continuation byte.
pub open spec fn cont(c: u8) -> bool {
    0x80 <= c <= 0xbf
}

/// Whether the bytes from `i` on are well-formed UTF-8: each sequence is one
/// of the forms of the Unicode standard's table of well-formed byte
/// sequences (no overlong forms, no surrogates, nothing above U+10FFFF).
pub open spec fn utf8_from(b: Seq<u8>, i: int) -> bool
    decreases b.len() - i,
{
    if i < 0 || i >= b.len() {
        true
    } else {
        let c = b[i];
        if c < 0x80 {
            utf8_from(b, i + 1)
        } else if 0xc2 <= c <= 0xdf {
            i + 1 < b.len() && cont(b[i + 1]) && utf8_from(b, i + 2)
        } else if c == 0xe0 {
            i + 2 < b.len() && 0xa0 <= b[i + 1] <= 0xbf && cont(b[i + 2]) && utf8_from(b, i + 3)
        } else if (0xe1 <= c <= 0xec) || c == 0xee || c == 0xef {
            i + 2 < b.len() && cont(b[i + 1]) && cont(b[i + 2]) && utf8_from(b, i + 3)
        } else if c == 0xed {
            i + 2 < b.len() && 0x80 <= b[i + 1] <= 0x9f && cont(b[i + 2]) && utf8_from(b, i + 3)
        } else if c == 0xf0 {
            i + 3 < b.len() && 0x90 <= b[i + 1] <= 0xbf && cont(b[i + 2]) && cont(b[i + 3])
                && utf8_from(b, i + 4)
        } else if 0xf1 <= c <= 0xf3 {
            i + 3 < b.len() && cont(b[i + 1]) && cont(b[i + 2]) && cont(b[i + 3]) && utf8_from(b, i + 4)
        } else if c == 0xf4 {
            i + 3 < b.len() && 0x80 <= b[i + 1] <= 0x8f && cont(b[i + 2]) && cont(b[i + 3])
                && utf8_from(b, i + 4)
        } else {
            false
        }
    }
}

/// Whether the bytes are well-formed UTF-8.
pub open spec fn utf8_valid(b: Seq<u8>) -> bool {
    utf8_from(b, 0)
}

fn is_cont(c: u8) -> (r: bool)
    ensures
        r == cont(c),
{
    0x80 <= c && c <= 0xbf
}

/// Checks that the bytes are well-formed UTF-8.
fn is_utf8(b: &[u8]) -> (r: bool)
    ensures
        r == utf8_valid(b@),
        b@.len() == 0 ==> r,
{
    let n = b.len();
    let mut i: usize = 0;
    while i < n
        invariant
            n == b@.len(),
            i <= n,
            utf8_from(b@, 0) == utf8_from(b@, i as int),
        decreases n - i,
    {
        let c = b[i];
        let len: usize = if c < 0x80 {
            1
        } else if 0xc2 <= c && c <= 0xdf {
            if !(n - i > 1 && is_cont(b[i + 1])) {
                return false;
            }
            2
        } else if c == 0xe0 {
            if !(n - i > 2 && 0xa0 <= b[i + 1] && b[i + 1] <= 0xbf && is_cont(b[i + 2])) {
                return false;
            }
            3
        } else if (0xe1 <= c && c <= 0xec) || c == 0xee || c == 0xef {
            if !(n - i > 2 && is_cont(b[i + 1]) && is_cont(b[i + 2])) {
                return false;
            }
            3
        } else if c == 0xed {
            if !(n - i > 2 && 0x80 <= b[i + 1] && b[i + 1] <= 0x9f && is_cont(b[i + 2])) {
                return false;
            }
            3
        } else if c == 0xf0 {
            if !(n - i > 3 && 0x90 <= b[i + 1] && b[i + 1] <= 0xbf && is_cont(b[i + 2]) && is_cont(
                b[i + 3],
            )) {
                return false;
            }
            4
        } else if 0xf1 <= c && c <= 0xf3 {
            if !(n - i > 3 && is_cont(b[i + 1]) && is_cont(b[i + 2]) && is_cont(b[i + 3])) {
                return false;
            }
            4
        } else if c == 0xf4 {
            if !(n - i > 3 && 0x80 <= b[i + 1] && b[i + 1] <= 0x8f && is_cont(b[i + 2]) && is_cont(
                b[i + 3],
            )) {
                return false;
            }
            4
        } else {
            return false;
        };
        i = i + len;
    }
    true
}

/// `n` items decoded one after another by `f`, starting at `pos`.
pub open spec fn spec_repeat<T>(
    s: Seq<u8>,
    pos: int,
    n: nat,
    f: spec_fn(Seq<u8>, int) -> Decoded<T>,
) -> Decoded<Seq<T>>
    decreases n,
{
    if n == 0 {
        Ok((seq![], pos))
    } else {
        match spec_repeat(s, pos, (n - 1) as nat, f) {
            Ok((items, p)) => match f(s, p) {
                Ok((x, q)) => Ok((items.push(x), q)),
                Err(e) => Err(e),
            },
            Err(e) => Err(e),
        }
    }
}

/// Once an item of a list fails, the list fails with it.
pub proof fn lemma_repeat_err<T>(
    s: Seq<u8>,
    pos: int,
    i: nat,
    n: nat,
    f: spec_fn(Seq<u8>, int) -> Decoded<T>,
)
    requires
        i <= n,
        spec_repeat(s, pos, i, f) is Err,
    ensures
        spec_repeat(s, pos, n, f) == spec_repeat(s, pos, i, f),
    decreases n - i,
{
    if i < n {
        lemma_repeat_err(s, pos, i, (n - 1) as nat, f);
    }
}

/// A name: its length, then that many bytes of UTF-8; the result is the
/// range of the bytes in the module.
pub open spec fn spec_string(s: Seq<u8>, pos: int, base: int) -> Decoded<Range> {
    match spec_var_u32(s, pos) {
        Ok((len, p)) => if len > MAX_WASM_STRING_SIZE {
            Err((ErrorKind::StringTooLong, p - 1))
        } else if p + len > s.len() {
            eof_at(p)
        } else if !utf8_valid(s.subrange(p, p + len)) {
            Err((ErrorKind::InvalidUtf8, p + len - 1))
        } else {
            Ok((Range { start: (base + p) as usize, end: (base + p + len) as usize }, p + len))
        },
        Err(e) => Err(e),
    }
}

/// `len` raw bytes; the result is their range in the module.
pub open spec fn spec_bytes(s: Seq<u8>, pos: int, len: int, base: int) -> Decoded<Range> {
    if 0 <= pos && pos + len <= s.len() {
        Ok((Range { start: (base + pos) as usize, end: (base + pos + len) as usize }, pos + len))
    } else {
        eof_at(pos)
    }
}

pub const WASM_MAGIC_NUMBER: u32 = 0x6d736100;

pub const WASM_VERSION: u32 = 1;

/// The module header: the magic number `\0asm`, then the version, which must be 1.
pub open spec fn spec_file_header(s: Seq<u8>, pos: int) -> Decoded<u32> {
    match spec_u32(s, pos) {
        Ok((magic, p)) => if magic != WASM_MAGIC_NUMBER {
            Err((ErrorKind::InvalidHeader, pos))
        } else {
            match spec_u32(s, p) {
                Ok((v, q)) => if v != WASM_VERSION {
                    Err((ErrorKind::InvalidHeader, p))
                } else {
                    Ok((v, q))
                },
                Err(e) => Err(e),
            }
        },
        Err(e) => Err(e),
    }
}

/// The section a non-zero section id stands for.
pub open spec fn section_code_of(id: u32) -> Option<SectionCode> {
    if id == 1 {
        Some(SectionCode::Type)
    } else if id == 2 {
        Some(SectionCode::Import)
    } else if id == 3 {
        Some(SectionCode::Function)
    } else if id == 4 {
        Some(SectionCode::Table)
    } else if id == 5 {
        Some(SectionCode::Memory)
    } else if id == 6 {
        Some(SectionCode::Global)
    } else if id == 7 {
        Some(SectionCode::Export)
    } else if id == 8 {
        Some(SectionCode::Start)
    } else if id == 9 {
        Some(SectionCode::Element)
    } else if id == 10 {
        Some(SectionCode::Code)
    } else if id == 11 {
        Some(SectionCode::Data)
    } else if id == 12 {
        Some(SectionCode::DataCount)
    } else {
        None
    }
}

/// Where a section's payload lies, and what it is.
#[derive(Clone, Copy, Debug, PartialEq, Eq, Structural)]
pub struct SectionHeader {
    pub code: SectionCode,
    pub payload_start: usize,
    pub payload_len: usize,
}

/// A section header: the id, the payload length, and for a custom section
/// the name that opens the payload.
pub open spec fn spec_section_header(s: Seq<u8>, pos: int, base: int) -> Decoded<SectionHeader> {
    match spec_var_u7(s, pos) {
        Ok((id, p)) => match spec_var_u32(s, p) {
            Ok((len, q)) => if id == 0 {
                match spec_string(s, q, base) {
                    Ok((name, r)) => Ok((
                        SectionHeader {
                            code: SectionCode::Custom { name },
                            payload_start: (base + q) as usize,
                            payload_len: len as usize,
                        },
                        r,
                    )),
                    Err(e) => Err(e),
                }
            } else {
                match section_code_of(id) {
                    Some(code) => Ok((
                        SectionHeader {
                            code,
                            payload_start: (base + q) as usize,
                            payload_len: len as usize,
                        },
                        q,
                    )),
                    None => Err((ErrorKind::InvalidSectionCode, pos)),
                }
            },
            Err(e) => Err(e),
        },
        Err(e) => Err(e),
    }
}

pub open spec fn spec_resizable_limits(s: Seq<u8>, pos: int, has_max: bool) -> Decoded<
    ResizableLimits,
> {
    match spec_var_u32(s, pos) {
        Ok((initial, p)) => if has_max {
            match spec_var_u32(s, p) {
                Ok((m, q)) => Ok((ResizableLimits { initial, maximum: Some(m) }, q)),
                Err(e) => Err(e),
            }
        } else {
            Ok((ResizableLimits { initial, maximum: None }, p))
        },
        Err(e) => Err(e),
    }
}

/// Flags (bit 0: a maximum follows, bit 1: shared), then the limits.
pub open spec fn spec_memory_type(s: Seq<u8>, pos: int) -> Decoded<MemoryType> {
    match spec_var_u32(s, pos) {
        Ok((flags, p)) => if flags >= 4 {
            Err((ErrorKind::InvalidLimits, p - 1))
        } else {
            match spec_resizable_limits(s, p, flags % 2 == 1) {
                Ok((limits, q)) => Ok((MemoryType { limits, shared: flags >= 2 }, q)),
                Err(e) => Err(e),
            }
        },
        Err(e) => Err(e),
    }
}

/// Element type, flags (bit 0: a maximum follows), then the limits.
pub open spec fn spec_table_type(s: Seq<u8>, pos: int) -> Decoded<TableType> {
    match spec_type(s, pos) {
        Ok((element_type, p)) => match spec_var_u32(s, p) {
            Ok((flags, q)) => if flags >= 2 {
                Err((ErrorKind::InvalidLimits, q - 1))
            } else {
                match spec_resizable_limits(s, q, flags == 1) {
                    Ok((limits, r)) => Ok((TableType { element_type, limits }, r)),
                    Err(e) => Err(e),
                }
            },
            Err(e) => Err(e),
        },
        Err(e) => Err(e),
    }
}

pub open spec fn spec_global_type(s: Seq<u8>, pos: int) -> Decoded<GlobalType> {
    match spec_type(s, pos) {
        Ok((content_type, p)) => match spec_var_u1(s, p) {
            Ok((m, q)) => Ok((GlobalType { content_type, mutable: m == 1 }, q)),
            Err(e) => Err(e),
        },
        Err(e) => Err(e),
    }
}

pub open spec fn spec_external_kind(s: Seq<u8>, pos: int) -> Decoded<ExternalKind> {
    match spec_u8(s, pos) {
        Ok((b, p)) => if b == 0 {
            Ok((ExternalKind::Function, p))
        } else if b == 1 {
            Ok((ExternalKind::Table, p))
        } else if b == 2 {
            Ok((ExternalKind::Memory, p))
        } else if b == 3 {
            Ok((ExternalKind::Global, p))
        } else {
            Err((ErrorKind::InvalidExternalKind, pos))
        },
        Err(e) => Err(e),
    }
}

/// `n` value types in a row.
pub open spec fn spec_type_list(s: Seq<u8>, pos: int, n: nat) -> Decoded<Seq<Type>> {
    spec_repeat(s, pos, n, |s: Seq<u8>, p: int| spec_type(s, p))
}

/// A signature: the form `func`, then the counted parameter and result types.
pub open spec fn spec_func_type(s: Seq<u8>, pos: int) -> Decoded<FuncTypeView> {
    match spec_type(s, pos) {
        Ok((form, p)) => if form != Type::Func {
            Err((ErrorKind::InvalidType, pos))
        } else {
            match spec_var_u32(s, p) {
                Ok((np, q)) => if np > MAX_WASM_FUNCTION_PARAMS {
                    Err((ErrorKind::LimitExceeded, q - 1))
                } else {
                    match spec_type_list(s, q, np as nat) {
                        Ok((params, r)) => match spec_var_u32(s, r) {
                            Ok((nr, t)) => if nr > MAX_WASM_FUNCTION_RETURNS {
                                Err((ErrorKind::LimitExceeded, t - 1))
                            } else {
                                match spec_type_list(s, t, nr as nat) {
                                    Ok((results, u)) => Ok((FuncTypeView { params, results }, u)),
                                    Err(e) => Err(e),
                                }
                            },
                            Err(e) => Err(e),
                        },
                        Err(e) => Err(e),
                    }
                },
                Err(e) => Err(e),
            }
        },
        Err(e) => Err(e),
    }
}

/// Alignment exponent (at most 32) and offset of a load or store.
pub open spec fn spec_memarg(s: Seq<u8>, pos: int) -> Decoded<MemoryImmediate> {
    match spec_var_u32(s, pos) {
        Ok((flags, p)) => match spec_var_u32(s, p) {
            Ok((offset, q)) => if flags > 32 {
                Err((ErrorKind::InvalidAlignment, pos))
            } else {
                Ok((MemoryImmediate { flags, offset }, q))
            },
            Err(e) => Err(e),
        },
        Err(e) => Err(e),
    }
}

/// A block type: a one-byte negative code names a value type or no result;
/// otherwise a non-negative signed 33-bit number names a type index.
pub open spec fn spec_block_type(s: Seq<u8>, pos: int) -> Decoded<TypeOrFuncType> {
    match spec_u8(s, pos) {
        Ok((b, _)) => if 0x40 <= b < 0x80 {
            match spec_type(s, pos) {
                Ok((t, p)) => if t == Type::Func {
                    Err((ErrorKind::InvalidType, pos))
                } else {
                    Ok((TypeOrFuncType::Type(t), p))
                },
                Err(e) => Err(e),
            }
        } else {
            match spec_var_s33(s, pos) {
                Ok((v, p)) => if v < 0 {
                    Err((ErrorKind::InvalidType, pos))
                } else {
                    Ok((TypeOrFuncType::FuncType(v as u32), p))
                },
                Err(e) => Err(e),
            }
        },
        Err(e) => Err(e),
    }
}

/// Eight bytes, little-endian.
pub open spec fn spec_u64(s: Seq<u8>, pos: int) -> Decoded<u64> {
    match spec_u32(s, pos) {
        Ok((lo, p)) => match spec_u32(s, p) {
            Ok((hi, q)) => Ok(((lo + hi * 0x1_0000_0000) as u64, q)),
            Err(_) => eof_at(pos),
        },
        Err(e) => Err(e),
    }
}

/// The decoder of one unsigned 32-bit LEB128 item of a list.
pub open spec fn var_u32_item() -> spec_fn(Seq<u8>, int) -> Decoded<u32> {
    |s: Seq<u8>, q: int| spec_var_u32(s, q)
}

/// The table of a `br_table`: the count, the target depths, the default.
pub open spec fn spec_br_table(s: Seq<u8>, pos: int, base: int) -> Decoded<BrTable> {
    match spec_var_u32(s, pos) {
        Ok((count, p)) => match spec_repeat(s, p, count as nat, var_u32_item()) {
            Ok((_, q)) => match spec_var_u32(s, q) {
                Ok((default, r)) => Ok((
                    BrTable {
                        targets: Range { start: (base + p) as usize, end: (base + q) as usize },
                        count,
                        default,
                    },
                    r,
                )),
                Err(e) => Err(e),
            },
            Err(e) => Err(e),
        },
        Err(e) => Err(e),
    }
}

/// Wraps a decoded immediate into an operator.
pub open spec fn spec_with<T>(d: Decoded<T>, f: spec_fn(T) -> Operator) -> Decoded<Operator> {
    match d {
        Ok((v, p)) => Ok((f(v), p)),
        Err(e) => Err(e),
    }
}

/// The instructions of the control and variable groups (opcodes below 0x28).
pub open spec fn spec_control_op(s: Seq<u8>, code: u8, pos: int, p: int, base: int) -> Decoded<Operator> {
    if code == 0x00 {
        Ok((Operator::Unreachable, p))
    } else if code == 0x01 {
        Ok((Operator::Nop, p))
    } else if code == 0x02 {
        spec_with(spec_block_type(s, p), |ty| Operator::Block { ty })
    } else if code == 0x03 {
        spec_with(spec_block_type(s, p), |ty| Operator::Loop { ty })
    } else if code == 0x04 {
        spec_with(spec_block_type(s, p), |ty| Operator::If { ty })
    } else if code == 0x05 {
        Ok((Operator::Else, p))
    } else if code == 0x0b {
        Ok((Operator::End, p))
    } else if code == 0x0c {
        spec_with(spec_var_u32(s, p), |relative_depth| Operator::Br { relative_depth })
    } else if code == 0x0d {
        spec_with(spec_var_u32(s, p), |relative_depth| Operator::BrIf { relative_depth })
    } else if code == 0x0e {
        spec_with(spec_br_table(s, p, base), |table| Operator::BrTable { table })
    } else if code == 0x0f {
        Ok((Operator::Return, p))
    } else if code == 0x10 {
        spec_with(spec_var_u32(s, p), |function_index| Operator::Call { function_index })
    } else if code == 0x11 {
        match spec_var_u32(s, p) {
            Ok((index, q)) => spec_with(
                spec_var_u32(s, q),
                |table_index| Operator::CallIndirect { index, table_index },
            ),
            Err(e) => Err(e),
        }
    } else if code == 0x1a {
        Ok((Operator::Drop, p))
    } else if code == 0x1b {
        Ok((Operator::Select, p))
    } else if code == 0x20 {
        spec_with(spec_var_u32(s, p), |local_index| Operator::LocalGet { local_index })
    } else if code == 0x21 {
        spec_with(spec_var_u32(s, p), |local_index| Operator::LocalSet { local_index })
    } else if code == 0x22 {
        spec_with(spec_var_u32(s, p), |local_index| Operator::LocalTee { local_index })
    } else if code == 0x23 {
        spec_with(spec_var_u32(s, p), |global_index| Operator::GlobalGet { global_index })
    } else if code == 0x24 {
        spec_with(spec_var_u32(s, p), |global_index| Operator::GlobalSet { global_index })
    } else if code == 0x25 {
        spec_with(spec_var_u32(s, p), |table| Operator::TableGet { table })
    } else if code == 0x26 {
        spec_with(spec_var_u32(s, p), |table| Operator::TableSet { table })
    } else {
        Err((ErrorKind::UnknownOpcode, pos))
    }
}

/// Two indices in a row.
pub open spec fn spec_two_indices(s: Seq<u8>, p: int) -> Decoded<(u32, u32)> {
    match spec_var_u32(s, p) {
        Ok((a, q)) => match spec_var_u32(s, q) {
            Ok((b, r)) => Ok(((a, b), r)),
            Err(e) => Err(e),
        },
        Err(e) => Err(e),
    }
}

/// The instructions behind the prefix 0xfc, sub-opcode `sub` read up to `p`:
/// saturating truncations, the bulk memory operations, and the table
/// operations of the reference types proposal.
pub open spec fn spec_misc_op(s: Seq<u8>, sub: u32, pos: int, p: int) -> Decoded<Operator> {
    if sub <= 7 {
        Ok((Operator::TruncSat { code: sub }, p))
    } else if sub == 8 {
        spec_with(spec_two_indices(s, p), |ab: (u32, u32)| Operator::MemoryInit { segment: ab.0, mem: ab.1 })
    } else if sub == 9 {
        spec_with(spec_var_u32(s, p), |segment| Operator::DataDrop { segment })
    } else if sub == 10 {
        spec_with(spec_two_indices(s, p), |ab: (u32, u32)| Operator::MemoryCopy { dst: ab.0, src: ab.1 })
    } else if sub == 11 {
        spec_with(spec_var_u32(s, p), |mem| Operator::MemoryFill { mem })
    } else if sub == 12 {
        spec_with(spec_two_indices(s, p), |ab: (u32, u32)| Operator::TableInit { segment: ab.0, table: ab.1 })
    } else if sub == 13 {
        spec_with(spec_var_u32(s, p), |segment| Operator::ElemDrop { segment })
    } else if sub == 14 {
        spec_with(spec_two_indices(s, p), |ab: (u32, u32)| Operator::TableCopy { dst: ab.0, src: ab.1 })
    } else if sub == 15 {
        spec_with(spec_var_u32(s, p), |table| Operator::TableGrow { table })
    } else if sub == 16 {
        spec_with(spec_var_u32(s, p), |table| Operator::TableSize { table })
    } else if sub == 17 {
        spec_with(spec_var_u32(s, p), |table| Operator::TableFill { table })
    } else {
        Err((ErrorKind::UnsupportedFeature, pos))
    }
}

/// The atomic memory accesses behind the prefix 0xfe: wait and notify
/// (0 to 2), loads, stores, read-modify-write and compare-exchange
/// (0x10 to 0x4e).
pub open spec fn is_atomic_access(sub: u32) -> bool {
    sub <= 2 || (0x10 <= sub <= 0x4e)
}

/// The instructions behind the prefix 0xfe, sub-opcode `sub` read up to `p`.
pub open spec fn spec_atomic_op(s: Seq<u8>, sub: u32, pos: int, p: int) -> Decoded<Operator> {
    if sub == 3 {
        spec_with(spec_u8(s, p), |flags| Operator::AtomicFence { flags })
    } else if is_atomic_access(sub) {
        spec_with(spec_memarg(s, p), |memarg| Operator::Atomic { code: sub, memarg })
    } else {
        Err((ErrorKind::UnknownOpcode, pos))
    }
}

/// The shape of a SIMD operator without immediates (prefix 0xfd):
/// 0 none such, 1 `[v128] -> [v128]`, 2 `[v128 v128] -> [v128]`, 3 shift
/// `[v128 i32] -> [v128]`, 4 test `[v128] -> [i32]`, 5 `[v128 v128 v128] ->
/// [v128]`, 6 to 9 splat of i32, i64, f32, f64.
pub open spec fn simd_class(sub: u32) -> u8 {
    if sub == 0x0e {
        2
    } else if 0x0f <= sub <= 0x11 {
        6
    } else if sub == 0x12 {
        7
    } else if sub == 0x13 {
        8
    } else if sub == 0x14 {
        9
    } else if 0x23 <= sub <= 0x4c {
        2
    } else if sub == 0x4d {
        1
    } else if 0x4e <= sub <= 0x51 {
        2
    } else if sub == 0x52 {
        5
    } else if sub == 0x53 {
        4
    } else if sub == 0x5e || sub == 0x5f {
        1
    } else if 0x60 <= sub <= 0xff {
        if sub == 0x9a || sub == 0xa2 || sub == 0xa5 || sub == 0xa6 || sub == 0xaf || sub == 0xb0
            || (0xb2 <= sub <= 0xb4) || sub == 0xbb || sub == 0xc2 || sub == 0xc5 || sub == 0xc6
            || sub == 0xcf || sub == 0xd0 || (0xd2 <= sub <= 0xd4) || sub == 0xe2 || sub == 0xee {
            0
        } else if sub == 0x63 || sub == 0x64 || sub == 0x83 || sub == 0x84 || sub == 0xa3 || sub
            == 0xa4 || sub == 0xc3 || sub == 0xc4 {
            4
        } else if (0x6b <= sub <= 0x6d) || (0x8b <= sub <= 0x8d) || (0xab <= sub <= 0xad) || (0xcb
            <= sub <= 0xcd) {
            3
        } else if (0x60 <= sub <= 0x62) || (0x67 <= sub <= 0x6a) || sub == 0x74 || sub == 0x75 || sub
            == 0x7a || (0x7c <= sub <= 0x81) || (0x87 <= sub <= 0x8a) || sub == 0x94 || sub == 0xa0
            || sub == 0xa1 || (0xa7 <= sub <= 0xaa) || sub == 0xc0 || sub == 0xc1 || (0xc7 <= sub
            <= 0xca) || sub == 0xe0 || sub == 0xe1 || sub == 0xe3 || sub == 0xec || sub == 0xed
            || sub == 0xef || sub >= 0xf8 {
            1
        } else {
            2
        }
    } else {
        0
    }
}

/// The number of lanes a lane immediate of SIMD operator `sub` indexes.
pub open spec fn simd_lanes(sub: u32) -> u8 {
    if (0x15 <= sub <= 0x17) || sub == 0x54 || sub == 0x58 {
        16
    } else if (0x18 <= sub <= 0x1a) || sub == 0x55 || sub == 0x59 {
        8
    } else if sub == 0x1b || sub == 0x1c || sub == 0x1f || sub == 0x20 || sub == 0x56 || sub
        == 0x5a {
        4
    } else {
        2
    }
}

/// A lane index below `n`.
pub open spec fn spec_lane(s: Seq<u8>, pos: int, n: u8) -> Decoded<u8> {
    match spec_u8(s, pos) {
        Ok((b, p)) => if b < n {
            Ok((b, p))
        } else {
            Err((ErrorKind::InvalidLaneIndex, pos))
        },
        Err(e) => Err(e),
    }
}

/// The instructions behind the prefix 0xfd, sub-opcode `sub` read up to `p`.
pub open spec fn spec_simd_op(s: Seq<u8>, sub: u32, pos: int, p: int, base: int) -> Decoded<Operator> {
    if sub <= 0x0b || sub == 0x5c || sub == 0x5d {
        spec_with(spec_memarg(s, p), |memarg| Operator::SimdMemory { code: sub, memarg })
    } else if sub == 0x0c {
        spec_with(spec_bytes(s, p, 16, base), |value| Operator::V128Const { value })
    } else if sub == 0x0d {
        match spec_bytes(s, p, 16, base) {
            Ok((lanes, q)) => if forall|i: int| 0 <= i < 16 ==> #[trigger] s[p + i] < 32 {
                Ok((Operator::I8x16Shuffle { lanes }, q))
            } else {
                Err((ErrorKind::InvalidLaneIndex, p))
            },
            Err(e) => Err(e),
        }
    } else if 0x15 <= sub <= 0x22 {
        spec_with(spec_lane(s, p, simd_lanes(sub)), |lane| Operator::SimdLane { code: sub, lane })
    } else if 0x54 <= sub <= 0x5b {
        match spec_memarg(s, p) {
            Ok((memarg, q)) => spec_with(
                spec_lane(s, q, simd_lanes(sub)),
                |lane| Operator::SimdMemoryLane { code: sub, memarg, lane },
            ),
            Err(e) => Err(e),
        }
    } else if simd_class(sub) != 0 {
        Ok((Operator::Simd { code: sub }, p))
    } else {
        Err((ErrorKind::UnknownOpcode, pos))
    }
}

/// The instructions behind a prefix byte, `code`, with sub-opcode `sub`.
pub open spec fn spec_prefixed_op(s: Seq<u8>, code: u8, sub: u32, pos: int, p: int, base: int) -> Decoded<
    Operator,
> {
    if code == 0xfc {
        spec_misc_op(s, sub, pos, p)
    } else if code == 0xfd {
        spec_simd_op(s, sub, pos, p, base)
    } else {
        spec_atomic_op(s, sub, pos, p)
    }
}

/// One instruction: its opcode, then its immediates.
pub open spec fn spec_operator(s: Seq<u8>, pos: int, base: int) -> Decoded<Operator> {
    match spec_u8(s, pos) {
        Ok((code, p)) => if code < 0x28 {
            spec_control_op(s, code, pos, p, base)
        } else if code <= 0x35 {
            spec_with(spec_memarg(s, p), |memarg| Operator::Load { code, memarg })
        } else if code <= 0x3e {
            spec_with(spec_memarg(s, p), |memarg| Operator::Store { code, memarg })
        } else if code == 0x3f {
            spec_with(spec_var_u1(s, p), |reserved| Operator::MemorySize { reserved })
        } else if code == 0x40 {
            spec_with(spec_var_u1(s, p), |reserved| Operator::MemoryGrow { reserved })
        } else if code == 0x41 {
            spec_with(spec_var_i32(s, p), |value| Operator::I32Const { value })
        } else if code == 0x42 {
            spec_with(spec_var_i64(s, p), |value| Operator::I64Const { value })
        } else if code == 0x43 {
            spec_with(spec_u32(s, p), |bits| Operator::F32Const { value: Ieee32 { bits } })
        } else if code == 0x44 {
            spec_with(spec_u64(s, p), |bits| Operator::F64Const { value: Ieee64 { bits } })
        } else if code <= 0xc4 {
            Ok((Operator::Numeric { code }, p))
        } else if code == 0xd0 {
            Ok((Operator::RefNull, p))
        } else if code == 0xd1 {
            Ok((Operator::RefIsNull, p))
        } else if code == 0xd2 {
            spec_with(spec_var_u32(s, p), |function_index| Operator::RefFunc { function_index })
        } else if code == 0xfc || code == 0xfd || code == 0xfe {
            match spec_var_u32(s, p) {
                Ok((sub, q)) => spec_prefixed_op(s, code, sub, pos, q, base),
                Err(e) => Err(e),
            }
        } else {
            Err((ErrorKind::UnknownOpcode, pos))
        },
        Err(e) => Err(e),
    }
}

pub fn simd_class_of(sub: u32) -> (r: u8)
    ensures
        r == simd_class(sub),
{
    if sub == 0x0e {
        2
    } else if 0x0f <= sub && sub <= 0x11 {
        6
    } else if sub == 0x12 {
        7
    } else if sub == 0x13 {
        8
    } else if sub == 0x14 {
        9
    } else if 0x23 <= sub && sub <= 0x4c {
        2
    } else if sub == 0x4d {
        1
    } else if 0x4e <= sub && sub <= 0x51 {
        2
    } else if sub == 0x52 {
        5
    } else if sub == 0x53 {
        4
    } else if sub == 0x5e || sub == 0x5f {
        1
    } else if 0x60 <= sub && sub <= 0xff {
        if sub == 0x9a || sub == 0xa2 || sub == 0xa5 || sub == 0xa6 || sub == 0xaf || sub == 0xb0
            || (0xb2 <= sub && sub <= 0xb4) || sub == 0xbb || sub == 0xc2 || sub == 0xc5 || sub
            == 0xc6 || sub == 0xcf || sub == 0xd0 || (0xd2 <= sub && sub <= 0xd4) || sub == 0xe2
            || sub == 0xee {
            0
        } else if sub == 0x63 || sub == 0x64 || sub == 0x83 || sub == 0x84 || sub == 0xa3 || sub
            == 0xa4 || sub == 0xc3 || sub == 0xc4 {
            4
        } else if (0x6b <= sub && sub <= 0x6d) || (0x8b <= sub && sub <= 0x8d) || (0xab <= sub
            && sub <= 0xad) || (0xcb <= sub && sub <= 0xcd) {
            3
        } else if (0x60 <= sub && sub <= 0x62) || (0x67 <= sub && sub <= 0x6a) || sub == 0x74
            || sub == 0x75 || sub == 0x7a || (0x7c <= sub && sub <= 0x81) || (0x87 <= sub && sub
            <= 0x8a) || sub == 0x94 || sub == 0xa0 || sub == 0xa1 || (0xa7 <= sub && sub <= 0xaa)
            || sub == 0xc0 || sub == 0xc1 || (0xc7 <= sub && sub <= 0xca) || sub == 0xe0 || sub
            == 0xe1 || sub == 0xe3 || sub == 0xec || sub == 0xed || sub == 0xef || sub >= 0xf8 {
            1
        } else {
            2
        }
    } else {
        0
    }
}

pub fn simd_lanes_of(sub: u32) -> (r: u8)
    ensures
        r == simd_lanes(sub),
{
    if (0x15 <= sub && sub <= 0x17) || sub == 0x54 || sub == 0x58 {
        16
    } else if (0x18 <= sub && sub <= 0x1a) || sub == 0x55 || sub == 0x59 {
        8
    } else if sub == 0x1b || sub == 0x1c || sub == 0x1f || sub == 0x20 || sub == 0x56 || sub
        == 0x5a {
        4
    } else {
        2
    }
}

/// A cursor over a byte slice that sits at `base_offset` in the module.
pub struct BinaryReader<'a> {
    pub buffer: &'a [u8],
    pub position: usize,
    pub base_offset: usize,
}

proof fn lemma_leb_groups_bound(s: Seq<u8>, pos: int, n: nat)
    ensures
        0 <= leb_groups(s, pos, n) < pow128(n),
    decreases n,
{
    if n > 0 {
        lemma_leb_groups_bound(s, pos, (n - 1) as nat);
        let g = leb_groups(s, pos, (n - 1) as nat);
        let b = s[pos + n - 1] % 128;
        let p = pow128((n - 1) as nat);
        assert(g + b * p < 128 * p) by (nonlinear_arith)
            requires
                0 <= g < p,
                0 <= b < 128,
        ;
        assert(0 <= b * p) by (nonlinear_arith)
            requires
                0 <= b,
                0 < p,
        ;
    }
}

proof fn lemma_pow128_positive(n: nat)
    ensures
        pow128(n) > 0,
    decreases n,
{
    if n > 0 {
        lemma_pow128_positive((n - 1) as nat);
    }
}

proof fn lemma_pow128_10()
    ensures
        pow128(10) == 0x40_0000_0000_0000_0000,
{
    reveal_with_fuel(pow128, 11);
}

proof fn lemma_pow128_le_10(n: nat)
    requires
        n <= 10,
    ensures
        0 < pow128(n) <= 0x40_0000_0000_0000_0000,
    decreases 10 - n,
{
    lemma_pow128_positive(n);
    if n < 10 {
        lemma_pow128_le_10(n + 1);
    } else {
        lemma_pow128_10();
    }
}

impl<'a> BinaryReader<'a> {
    /// The reader's invariant: its cursor lies within its bytes, and absolute
    /// offsets fit in `usize`.
    pub open spec fn wf(&self) -> bool {
        &&& self.position <= self.buffer@.len()
        &&& self.base_offset + self.buffer@.len() <= usize::MAX
    }

    pub fn new(data: &'a [u8]) -> (r: BinaryReader<'a>)
        ensures
            r.buffer@ == data@,
            r.position == 0,
            r.base_offset == 0,
            r.wf(),
    {
        proof {
            broadcast use vstd::slice::axiom_spec_len;

            assert(data@.len() == data.len());
        }
        BinaryReader { buffer: data, position: 0, base_offset: 0 }
    }

    pub fn new_with_offset(data: &'a [u8], base_offset: usize) -> (r: BinaryReader<'a>)
        requires
            base_offset + data@.len() <= usize::MAX,
        ensures
            r.buffer@ == data@,
            r.position == 0,
            r.base_offset == base_offset,
            r.wf(),
    {
        BinaryReader { buffer: data, position: 0, base_offset }
    }

    /// The absolute position of the cursor in the module.
    pub fn absolute_position(&self) -> (r: usize)
        requires
            self.wf(),
        ensures
            r == self.base_offset + self.position,
    {
        self.base_offset + self.position
    }

    pub fn eof(&self) -> (r: bool)
        requires
            self.wf(),
        ensures
            r == (self.position >= self.buffer@.len()),
    {
        self.position >= self.buffer.len()
    }

    pub fn bytes_remaining(&self) -> (r: usize)
        requires
            self.wf(),
        ensures
            r == self.buffer@.len() - self.position,
    {
        self.buffer.len() - self.position
    }

    fn eof_error(&self) -> (e: BinaryReaderError)
        requires
            self.wf(),
        ensures
            e == (BinaryReaderError {
                kind: ErrorKind::UnexpectedEof,
                offset: (self.base_offset + self.buffer@.len()) as usize,
            }),
    {
        BinaryReaderError {
            kind: ErrorKind::UnexpectedEof,
            offset: self.base_offset + self.buffer.len(),
        }
    }

    pub(crate) fn eof_here(&self) -> (e: BinaryReaderError)
        requires
            self.wf(),
        ensures
            e == (BinaryReaderError {
                kind: ErrorKind::UnexpectedEof,
                offset: (self.base_offset + self.position) as usize,
            }),
    {
        BinaryReaderError {
            kind: ErrorKind::UnexpectedEof,
            offset: self.base_offset + self.position,
        }
    }

    pub fn read_u8(&mut self) -> (r: Result<u8>)
        requires
            old(self).wf(),
        ensures
            final(self).wf(),
            final(self).buffer == old(self).buffer,
            final(self).base_offset == old(self).base_offset,
            final(self).position >= old(self).position,
            outcome(
                r,
                final(self).position,
                old(self).base_offset,
                spec_u8(old(self).buffer@, old(self).position as int),
            ),
    {
        if self.position >= self.buffer.len() {
            return Err(self.eof_here());
        }
        let b = self.buffer[self.position];
        self.position = self.position + 1;
        Ok(b)
    }
    pub(crate) fn fault_before(&self, kind: ErrorKind) -> (e: BinaryReaderError)
        requires
            self.wf(),
            self.position > 0,
        ensures
            e == (BinaryReaderError {
                kind,
                offset: (self.base_offset + self.position - 1) as usize,
            }),
    {
        BinaryReaderError { kind, offset: self.base_offset + self.position - 1 }
    }

    pub fn read_u32(&mut self) -> (r: Result<u32>)
        requires
            old(self).wf(),
        ensures
            final(self).wf(),
            final(self).buffer == old(self).buffer,
            final(self).base_offset == old(self).base_offset,
            final(self).position >= old(self).position,
            outcome(
                r,
                final(self).position,
                old(self).base_offset,
                spec_u32(old(self).buffer@, old(self).position as int),
            ),
    {
        if self.buffer.len() - self.position < 4 {
            return Err(self.eof_here());
        }
        let p = self.position;
        let v: u32 = self.buffer[p] as u32 + self.buffer[p + 1] as u32 * 0x100
            + self.buffer[p + 2] as u32 * 0x10000 + self.buffer[p + 3] as u32 * 0x1000000;
        self.position = p + 4;
        Ok(v)
    }

    /// Reads one LEB128 encoding of at most `max` bytes; results the number
    /// its groups stand for and `128` to the power of its length.
    fn read_leb(&mut self, max: usize) -> (r: Result<(u128, u128)>)
        requires
            old(self).wf(),
            1 <= max <= 10,
        ensures
            final(self).wf(),
            final(self).buffer == old(self).buffer,
            final(self).base_offset == old(self).base_offset,
            final(self).position >= old(self).position,
            match leb_scan(old(self).buffer@, old(self).position as int, max as nat, 0) {
                Ok(n) => {
                    &&& r == Ok::<(u128, u128), BinaryReaderError>(
                        (
                            leb_groups(old(self).buffer@, old(self).position as int, n) as u128,
                            pow128(n) as u128,
                        ),
                    )
                    &&& final(self).position == old(self).position + n
                    &&& 1 <= n <= max
                    &&& 0 <= leb_groups(old(self).buffer@, old(self).position as int, n) < pow128(n)
                    &&& pow128(n) <= 0x40_0000_0000_0000_0000
                },
                Err((k, at)) => r == Err::<(u128, u128), BinaryReaderError>(
                    BinaryReaderError { kind: k, offset: (old(self).base_offset + at) as usize },
                ),
            },
    {
        let ghost s = self.buffer@;
        let ghost start = self.position as int;
        let mut result: u128 = 0;
        let mut mult: u128 = 1;
        let mut i: usize = 0;
        proof {
            lemma_pow128_le_10(0);
        }
        loop
            invariant
                self.wf(),
                self.buffer@ == s,
                self.buffer == old(self).buffer,
                self.base_offset == old(self).base_offset,
                self.position >= old(self).position,
                start == old(self).position,
                i < max <= 10,
                self.position == start + i,
                result as int == leb_groups(s, start, i as nat),
                mult as int == pow128(i as nat),
                0 <= leb_groups(s, start, i as nat) < pow128(i as nat),
                0 < pow128(i as nat) <= 0x40_0000_0000_0000_0000,
                leb_scan(s, start, max as nat, 0) == leb_scan(s, start, max as nat, i as nat),
            decreases max - i,
        {
            if self.position >= self.buffer.len() {
                return Err(self.eof_error());
            }
            let b = self.buffer[self.position];
            self.position = self.position + 1;
            proof {
                lemma_leb_groups_bound(s, start, (i + 1) as nat);
                lemma_pow128_le_10((i + 1) as nat);
                let g = (b % 128) as int;
                assert(g * mult <= 127 * mult) by (nonlinear_arith)
                    requires
                        0 <= g < 128,
                        0 < mult,
                ;
            }
            result = result + (b % 128) as u128 * mult;
            if b < 128 {
                return Ok((result, mult * 128));
            }
            if i + 1 >= max {
                return Err(self.fault_before(ErrorKind::InvalidLeb128));
            }
            mult = mult * 128;
            i = i + 1;
        }
    }

    pub fn read_var_u32(&mut self) -> (r: Result<u32>)
        requires
            old(self).wf(),
        ensures
            final(self).wf(),
            final(self).buffer == old(self).buffer,
            final(self).base_offset == old(self).base_offset,
            final(self).position >= old(self).position,
            outcome(
                r,
                final(self).position,
                old(self).base_offset,
                spec_var_u32(old(self).buffer@, old(self).position as int),
            ),
            r is Ok ==> final(self).position > old(self).position,
    {
        let ghost s = self.buffer@;
        let ghost start = self.position as int;
        let (g, _) = match self.read_leb(5) {
            Ok(gp) => gp,
            Err(e) => {
                return Err(e);
            },
        };
        assert(leb_scan(s, start, 5, 0) is Ok);
        if g < 0x1_0000_0000 {
            Ok(g as u32)
        } else {
            Err(self.fault_before(ErrorKind::InvalidLeb128))
        }
    }

    /// Reads a signed LEB128 number of at most `max` bytes that lies in `[lo, hi)`.
    fn read_sleb(&mut self, max: usize, lo: i128, hi: i128) -> (r: Result<i128>)
        requires
            old(self).wf(),
            1 <= max <= 10,
        ensures
            final(self).wf(),
            final(self).buffer == old(self).buffer,
            final(self).base_offset == old(self).base_offset,
            final(self).position >= old(self).position,
            match spec_sleb(old(self).buffer@, old(self).position as int, max as nat, lo as int, hi as int) {
                Ok((v, p)) => r == Ok::<i128, BinaryReaderError>(v as i128) && final(self).position == p,
                Err((k, at)) => r == Err::<i128, BinaryReaderError>(
                    BinaryReaderError { kind: k, offset: (old(self).base_offset + at) as usize },
                ),
            },
    {
        let ghost s = self.buffer@;
        let ghost start = self.position as int;
        let (g, p) = match self.read_leb(max) {
            Ok(gp) => gp,
            Err(e) => {
                return Err(e);
            },
        };
        assert(leb_scan(s, start, max as nat, 0) is Ok);
        let ghost n = leb_scan(s, start, max as nat, 0)->Ok_0;
        let last = self.buffer[self.position - 1];
        let v: i128 = if last % 128 >= 64 {
            g as i128 - p as i128
        } else {
            g as i128
        };
        if lo <= v && v < hi {
            Ok(v)
        } else {
            Err(self.fault_before(ErrorKind::InvalidLeb128))
        }
    }

    pub fn read_var_i32(&mut self) -> (r: Result<i32>)
        requires
            old(self).wf(),
        ensures
            final(self).wf(),
            final(self).buffer == old(self).buffer,
            final(self).base_offset == old(self).base_offset,
            final(self).position >= old(self).position,
            outcome(
                r,
                final(self).position,
                old(self).base_offset,
                spec_var_i32(old(self).buffer@, old(self).position as int),
            ),
    {
        let v = self.read_sleb(5, -0x8000_0000, 0x8000_0000)?;
        Ok(v as i32)
    }

    pub fn read_var_s33(&mut self) -> (r: Result<i64>)
        requires
            old(self).wf(),
        ensures
            final(self).wf(),
            final(self).buffer == old(self).buffer,
            final(self).base_offset == old(self).base_offset,
            final(self).position >= old(self).position,
            outcome(
                r,
                final(self).position,
                old(self).base_offset,
                spec_var_s33(old(self).buffer@, old(self).position as int),
            ),
    {
        let v = self.read_sleb(5, -0x1_0000_0000, 0x1_0000_0000)?;
        Ok(v as i64)
    }

    pub fn read_var_i64(&mut self) -> (r: Result<i64>)
        requires
            old(self).wf(),
        ensures
            final(self).wf(),
            final(self).buffer == old(self).buffer,
            final(self).base_offset == old(self).base_offset,
            final(self).position >= old(self).position,
            outcome(
                r,
                final(self).position,
                old(self).base_offset,
                spec_var_i64(old(self).buffer@, old(self).position as int),
            ),
    {
        let v = self.read_sleb(10, -0x8000_0000_0000_0000, 0x8000_0000_0000_0000)?;
        Ok(v as i64)
    }

    pub fn read_var_u1(&mut self) -> (r: Result<u32>)
        requires
            old(self).wf(),
        ensures
            final(self).wf(),
            final(self).buffer == old(self).buffer,
            final(self).base_offset == old(self).base_offset,
            final(self).position >= old(self).position,
            outcome(
                r,
                final(self).position,
                old(self).base_offset,
                spec_var_u1(old(self).buffer@, old(self).position as int),
            ),
    {
        let b = self.read_u8()?;
        if b < 2 {
            Ok(b as u32)
        } else {
            Err(self.fault_before(ErrorKind::InvalidLeb128))
        }
    }

    pub fn read_var_u7(&mut self) -> (r: Result<u32>)
        requires
            old(self).wf(),
        ensures
            final(self).wf(),
            final(self).buffer == old(self).buffer,
            final(self).base_offset == old(self).base_offset,
            final(self).position >= old(self).position,
            outcome(
                r,
                final(self).position,
                old(self).base_offset,
                spec_var_u7(old(self).buffer@, old(self).position as int),
            ),
    {
        let b = self.read_u8()?;
        if b < 128 {
            Ok(b as u32)
        } else {
            Err(self.fault_before(ErrorKind::InvalidLeb128))
        }
    }

    pub fn read_type(&mut self) -> (r: Result<Type>)
        requires
            old(self).wf(),
        ensures
            final(self).wf(),
            final(self).buffer == old(self).buffer,
            final(self).base_offset == old(self).base_offset,
            final(self).position >= old(self).position,
            outcome(
                r,
                final(self).position,
                old(self).base_offset,
                spec_type(old(self).buffer@, old(self).position as int),
            ),
    {
        let b = self.read_u8()?;
        let t = if b == 0x7f {
            Type::I32
        } else if b == 0x7e {
            Type::I64
        } else if b == 0x7d {
            Type::F32
        } else if b == 0x7c {
            Type::F64
        } else if b == 0x7b {
            Type::V128
        } else if b == 0x70 {
            Type::AnyFunc
        } else if b == 0x6f {
            Type::AnyRef
        } else if b == 0x60 {
            Type::Func
        } else if b == 0x40 {
            Type::EmptyBlockType
        } else {
            return Err(self.fault_before(ErrorKind::InvalidType));
        };
        Ok(t)
    }
    pub(crate) fn fault_at(&self, kind: ErrorKind, pos: usize) -> (e: BinaryReaderError)
        requires
            self.wf(),
            pos <= self.buffer@.len(),
        ensures
            e == (BinaryReaderError { kind, offset: (self.base_offset + pos) as usize }),
    {
        BinaryReaderError { kind, offset: self.base_offset + pos }
    }

    pub fn read_bytes(&mut self, len: usize) -> (r: Result<Range>)
        requires
            old(self).wf(),
        ensures
            final(self).wf(),
            final(self).buffer == old(self).buffer,
            final(self).base_offset == old(self).base_offset,
            final(self).position >= old(self).position,
            outcome(
                r,
                final(self).position,
                old(self).base_offset,
                spec_bytes(old(self).buffer@, old(self).position as int, len as int, old(self).base_offset as int),
            ),
    {
        if self.buffer.len() - self.position < len {
            return Err(self.eof_here());
        }
        let start = self.position;
        self.position = start + len;
        Ok(Range { start: self.base_offset + start, end: self.base_offset + start + len })
    }

    pub fn read_string(&mut self) -> (r: Result<Range>)
        requires
            old(self).wf(),
        ensures
            final(self).wf(),
            final(self).buffer == old(self).buffer,
            final(self).base_offset == old(self).base_offset,
            final(self).position >= old(self).position,
            outcome(
                r,
                final(self).position,
                old(self).base_offset,
                spec_string(old(self).buffer@, old(self).position as int, old(self).base_offset as int),
            ),
            r is Ok ==> final(self).position > old(self).position,
    {
        let len = match self.read_var_u32() {
            Ok(v) => v,
            Err(e) => {
                return Err(e);
            },
        };
        if len as usize > MAX_WASM_STRING_SIZE {
            return Err(self.fault_before(ErrorKind::StringTooLong));
        }
        if self.buffer.len() - self.position < len as usize {
            return Err(self.eof_here());
        }
        let start = self.position;
        let end = start + len as usize;
        let bytes = vstd::slice::slice_subrange(self.buffer, start, end);
        let valid = is_utf8(bytes);
        self.position = end;
        if !valid {
            return Err(self.fault_before(ErrorKind::InvalidUtf8));
        }
        Ok(Range { start: self.base_offset + start, end: self.base_offset + end })
    }

    pub fn read_file_header(&mut self) -> (r: Result<u32>)
        requires
            old(self).wf(),
        ensures
            final(self).wf(),
            final(self).buffer == old(self).buffer,
            final(self).base_offset == old(self).base_offset,
            final(self).position >= old(self).position,
            outcome(
                r,
                final(self).position,
                old(self).base_offset,
                spec_file_header(old(self).buffer@, old(self).position as int),
            ),
    {
        let start = self.position;
        let magic = match self.read_u32() {
            Ok(v) => v,
            Err(e) => {
                return Err(e);
            },
        };
        if magic != WASM_MAGIC_NUMBER {
            return Err(self.fault_at(ErrorKind::InvalidHeader, start));
        }
        let version_start = self.position;
        let version = match self.read_u32() {
            Ok(v) => v,
            Err(e) => {
                return Err(e);
            },
        };
        if version != WASM_VERSION {
            return Err(self.fault_at(ErrorKind::InvalidHeader, version_start));
        }
        Ok(version)
    }

    pub fn read_section_header(&mut self) -> (r: Result<SectionHeader>)
        requires
            old(self).wf(),
        ensures
            final(self).wf(),
            final(self).buffer == old(self).buffer,
            final(self).base_offset == old(self).base_offset,
            final(self).position >= old(self).position,
            outcome(
                r,
                final(self).position,
                old(self).base_offset,
                spec_section_header(old(self).buffer@, old(self).position as int, old(self).base_offset as int),
            ),
            r is Ok ==> final(self).position > old(self).position,
    {
        let start = self.position;
        let id = match self.read_var_u7() {
            Ok(v) => v,
            Err(e) => {
                return Err(e);
            },
        };
        let len = match self.read_var_u32() {
            Ok(v) => v,
            Err(e) => {
                return Err(e);
            },
        };
        let payload_start = self.base_offset + self.position;
        let code = if id == 0 {
            match self.read_string() {
                Ok(name) => SectionCode::Custom { name },
                Err(e) => {
                    return Err(e);
                },
            }
        } else if id == 1 {
            SectionCode::Type
        } else if id == 2 {
            SectionCode::Import
        } else if id == 3 {
            SectionCode::Function
        } else if id == 4 {
            SectionCode::Table
        } else if id == 5 {
            SectionCode::Memory
        } else if id == 6 {
            SectionCode::Global
        } else if id == 7 {
            SectionCode::Export
        } else if id == 8 {
            SectionCode::Start
        } else if id == 9 {
            SectionCode::Element
        } else if id == 10 {
            SectionCode::Code
        } else if id == 11 {
            SectionCode::Data
        } else if id == 12 {
            SectionCode::DataCount
        } else {
            return Err(self.fault_at(ErrorKind::InvalidSectionCode, start));
        };
        Ok(SectionHeader { code, payload_start, payload_len: len as usize })
    }

    pub fn read_resizable_limits(&mut self, has_max: bool) -> (r: Result<ResizableLimits>)
        requires
            old(self).wf(),
        ensures
            final(self).wf(),
            final(self).buffer == old(self).buffer,
            final(self).base_offset == old(self).base_offset,
            final(self).position >= old(self).position,
            outcome(
                r,
                final(self).position,
                old(self).base_offset,
                spec_resizable_limits(old(self).buffer@, old(self).position as int, has_max),
            ),
    {
        let initial = match self.read_var_u32() {
            Ok(v) => v,
            Err(e) => {
                return Err(e);
            },
        };
        let maximum = if has_max {
            match self.read_var_u32() {
                Ok(v) => Some(v),
                Err(e) => {
                    return Err(e);
                },
            }
        } else {
            None
        };
        Ok(ResizableLimits { initial, maximum })
    }

    pub fn read_memory_type(&mut self) -> (r: Result<MemoryType>)
        requires
            old(self).wf(),
        ensures
            final(self).wf(),
            final(self).buffer == old(self).buffer,
            final(self).base_offset == old(self).base_offset,
            final(self).position >= old(self).position,
            outcome(
                r,
                final(self).position,
                old(self).base_offset,
                spec_memory_type(old(self).buffer@, old(self).position as int),
            ),
    {
        let flags = match self.read_var_u32() {
            Ok(v) => v,
            Err(e) => {
                return Err(e);
            },
        };
        if flags >= 4 {
            return Err(self.fault_before(ErrorKind::InvalidLimits));
        }
        let limits = match self.read_resizable_limits(flags % 2 == 1) {
            Ok(v) => v,
            Err(e) => {
                return Err(e);
            },
        };
        Ok(MemoryType { limits, shared: flags >= 2 })
    }

    pub fn read_table_type(&mut self) -> (r: Result<TableType>)
        requires
            old(self).wf(),
        ensures
            final(self).wf(),
            final(self).buffer == old(self).buffer,
            final(self).base_offset == old(self).base_offset,
            final(self).position >= old(self).position,
            outcome(
                r,
                final(self).position,
                old(self).base_offset,
                spec_table_type(old(self).buffer@, old(self).position as int),
            ),
    {
        let element_type = match self.read_type() {
            Ok(v) => v,
            Err(e) => {
                return Err(e);
            },
        };
        let flags = match self.read_var_u32() {
            Ok(v) => v,
            Err(e) => {
                return Err(e);
            },
        };
        if flags >= 2 {
            return Err(self.fault_before(ErrorKind::InvalidLimits));
        }
        let limits = match self.read_resizable_limits(flags == 1) {
            Ok(v) => v,
            Err(e) => {
                return Err(e);
            },
        };
        Ok(TableType { element_type, limits })
    }

    pub fn read_global_type(&mut self) -> (r: Result<GlobalType>)
        requires
            old(self).wf(),
        ensures
            final(self).wf(),
            final(self).buffer == old(self).buffer,
            final(self).base_offset == old(self).base_offset,
            final(self).position >= old(self).position,
            outcome(
                r,
                final(self).position,
                old(self).base_offset,
                spec_global_type(old(self).buffer@, old(self).position as int),
            ),
    {
        let content_type = match self.read_type() {
            Ok(v) => v,
            Err(e) => {
                return Err(e);
            },
        };
        let m = match self.read_var_u1() {
            Ok(v) => v,
            Err(e) => {
                return Err(e);
            },
        };
        Ok(GlobalType { content_type, mutable: m == 1 })
    }

    pub fn read_external_kind(&mut self) -> (r: Result<ExternalKind>)
        requires
            old(self).wf(),
        ensures
            final(self).wf(),
            final(self).buffer == old(self).buffer,
            final(self).base_offset == old(self).base_offset,
            final(self).position >= old(self).position,
            outcome(
                r,
                final(self).position,
                old(self).base_offset,
                spec_external_kind(old(self).buffer@, old(self).position as int),
            ),
    {
        let b = match self.read_u8() {
            Ok(v) => v,
            Err(e) => {
                return Err(e);
            },
        };
        if b == 0 {
            Ok(ExternalKind::Function)
        } else if b == 1 {
            Ok(ExternalKind::Table)
        } else if b == 2 {
            Ok(ExternalKind::Memory)
        } else if b == 3 {
            Ok(ExternalKind::Global)
        } else {
            Err(self.fault_before(ErrorKind::InvalidExternalKind))
        }
    }

    fn read_type_list(&mut self, n: u32) -> (r: Result<Vec<Type>>)
        requires
            old(self).wf(),
        ensures
            final(self).wf(),
            final(self).buffer == old(self).buffer,
            final(self).base_offset == old(self).base_offset,
            final(self).position >= old(self).position,
            outcome_view(
                r,
                final(self).position,
                old(self).base_offset,
                spec_type_list(old(self).buffer@, old(self).position as int, n as nat),
            ),
    {
        let ghost s = self.buffer@;
        let ghost start = self.position as int;
        let ghost f = |s: Seq<u8>, p: int| spec_type(s, p);
        let mut types: Vec<Type> = Vec::new();
        let mut i: u32 = 0;
        while i < n
            invariant
                self.wf(),
                self.buffer@ == s,
                self.buffer == old(self).buffer,
                self.base_offset == old(self).base_offset,
                self.position >= old(self).position,
                start == old(self).position,
                i <= n,
                f == (|s: Seq<u8>, p: int| spec_type(s, p)),
                spec_repeat(s, start, i as nat, f) == Ok::<(Seq<Type>, int), (ErrorKind, int)>(
                    (types@, self.position as int),
                ),
            decreases n - i,
        {
            match self.read_type() {
                Ok(t) => {
                    types.push(t);
                },
                Err(e) => {
                    proof {
                        lemma_repeat_err(s, start, (i + 1) as nat, n as nat, f);
                    }
                    return Err(e);
                },
            }
            i = i + 1;
        }
        Ok(types)
    }

    pub fn read_func_type(&mut self) -> (r: Result<FuncType>)
        requires
            old(self).wf(),
        ensures
            final(self).wf(),
            final(self).buffer == old(self).buffer,
            final(self).base_offset == old(self).base_offset,
            final(self).position >= old(self).position,
            outcome_view(
                r,
                final(self).position,
                old(self).base_offset,
                spec_func_type(old(self).buffer@, old(self).position as int),
            ),
    {
        let start = self.position;
        let form = match self.read_type() {
            Ok(v) => v,
            Err(e) => {
                return Err(e);
            },
        };
        if form != Type::Func {
            return Err(self.fault_at(ErrorKind::InvalidType, start));
        }
        let np = match self.read_var_u32() {
            Ok(v) => v,
            Err(e) => {
                return Err(e);
            },
        };
        if np as usize > MAX_WASM_FUNCTION_PARAMS {
            return Err(self.fault_before(ErrorKind::LimitExceeded));
        }
        let params = match self.read_type_list(np) {
            Ok(v) => v,
            Err(e) => {
                return Err(e);
            },
        };
        let nr = match self.read_var_u32() {
            Ok(v) => v,
            Err(e) => {
                return Err(e);
            },
        };
        if nr as usize > MAX_WASM_FUNCTION_RETURNS {
            return Err(self.fault_before(ErrorKind::LimitExceeded));
        }
        let results = match self.read_type_list(nr) {
            Ok(v) => v,
            Err(e) => {
                return Err(e);
            },
        };
        Ok(FuncType { params, results })
    }

    pub fn read_memarg(&mut self) -> (r: Result<MemoryImmediate>)
        requires
            old(self).wf(),
        ensures
            final(self).wf(),
            final(self).buffer == old(self).buffer,
            final(self).base_offset == old(self).base_offset,
            final(self).position >= old(self).position,
            outcome(
                r,
                final(self).position,
                old(self).base_offset,
                spec_memarg(old(self).buffer@, old(self).position as int),
            ),
    {
        let start = self.position;
        let flags = match self.read_var_u32() {
            Ok(v) => v,
            Err(e) => {
                return Err(e);
            },
        };
        let offset = match self.read_var_u32() {
            Ok(v) => v,
            Err(e) => {
                return Err(e);
            },
        };
        if flags > 32 {
            return Err(self.fault_at(ErrorKind::InvalidAlignment, start));
        }
        Ok(MemoryImmediate { flags, offset })
    }

    pub fn read_block_type(&mut self) -> (r: Result<TypeOrFuncType>)
        requires
            old(self).wf(),
        ensures
            final(self).wf(),
            final(self).buffer == old(self).buffer,
            final(self).base_offset == old(self).base_offset,
            final(self).position >= old(self).position,
            outcome(
                r,
                final(self).position,
                old(self).base_offset,
                spec_block_type(old(self).buffer@, old(self).position as int),
            ),
    {
        let start = self.position;
        if self.position >= self.buffer.len() {
            return Err(self.eof_here());
        }
        let b = self.buffer[self.position];
        if 0x40 <= b && b < 0x80 {
            let t = match self.read_type() {
                Ok(v) => v,
                Err(e) => {
                    return Err(e);
                },
            };
            if t == Type::Func {
                return Err(self.fault_at(ErrorKind::InvalidType, start));
            }
            Ok(TypeOrFuncType::Type(t))
        } else {
            let v = match self.read_var_s33() {
                Ok(v) => v,
                Err(e) => {
                    return Err(e);
                },
            };
            if v < 0 {
                return Err(self.fault_at(ErrorKind::InvalidType, start));
            }
            Ok(TypeOrFuncType::FuncType(v as u32))
        }
    }
    pub fn read_u64(&mut self) -> (r: Result<u64>)
        requires
            old(self).wf(),
        ensures
            final(self).wf(),
            final(self).buffer == old(self).buffer,
            final(self).base_offset == old(self).base_offset,
            final(self).position >= old(self).position,
            outcome(
                r,
                final(self).position,
                old(self).base_offset,
                spec_u64(old(self).buffer@, old(self).position as int),
            ),
    {
        if self.buffer.len() - self.position < 8 {
            return Err(self.eof_here());
        }
        let lo = match self.read_u32() {
            Ok(v) => v,
            Err(e) => {
                return Err(e);
            },
        };
        let hi = match self.read_u32() {
            Ok(v) => v,
            Err(e) => {
                return Err(e);
            },
        };
        Ok(lo as u64 + hi as u64 * 0x1_0000_0000)
    }

    pub fn read_br_table(&mut self) -> (r: Result<BrTable>)
        requires
            old(self).wf(),
        ensures
            final(self).wf(),
            final(self).buffer == old(self).buffer,
            final(self).base_offset == old(self).base_offset,
            final(self).position >= old(self).position,
            outcome(
                r,
                final(self).position,
                old(self).base_offset,
                spec_br_table(old(self).buffer@, old(self).position as int, old(self).base_offset as int),
            ),
    {
        let count = match self.read_var_u32() {
            Ok(v) => v,
            Err(e) => {
                return Err(e);
            },
        };
        let ghost s = self.buffer@;
        let ghost start = self.position as int;
        let ghost f = var_u32_item();
        let targets_start = self.position;
        let mut i: u32 = 0;
        let ghost mut items: Seq<u32> = seq![];
        while i < count
            invariant
                self.wf(),
                self.buffer@ == s,
                self.buffer == old(self).buffer,
                self.base_offset == old(self).base_offset,
                self.position >= old(self).position,
                start == targets_start,
                spec_var_u32(s, old(self).position as int) == Ok::<(u32, int), (ErrorKind, int)>(
                    (count, start),
                ),
                i <= count,
                f == var_u32_item(),
                spec_repeat(s, start, i as nat, f) == Ok::<(Seq<u32>, int), (ErrorKind, int)>(
                    (items, self.position as int),
                ),
            decreases count - i,
        {
            match self.read_var_u32() {
                Ok(t) => {
                    proof {
                        items = items.push(t);
                    }
                },
                Err(e) => {
                    proof {
                        lemma_repeat_err(s, start, (i + 1) as nat, count as nat, f);
                    }
                    return Err(e);
                },
            }
            i = i + 1;
        }
        let targets_end = self.position;
        let default = match self.read_var_u32() {
            Ok(v) => v,
            Err(e) => {
                return Err(e);
            },
        };
        Ok(BrTable {
            targets: Range {
                start: self.base_offset + targets_start,
                end: self.base_offset + targets_end,
            },
            count,
            default,
        })
    }

    fn read_control_op(&mut self, code: u8, pos: usize) -> (r: Result<Operator>)
        requires
            old(self).wf(),
            pos < old(self).position,
            code < 0x28,
        ensures
            final(self).wf(),
            final(self).buffer == old(self).buffer,
            final(self).base_offset == old(self).base_offset,
            final(self).position >= old(self).position,
            outcome(
                r,
                final(self).position,
                old(self).base_offset,
                spec_control_op(old(self).buffer@, code, pos as int, old(self).position as int, old(self).base_offset as int),
            ),
    {
        if code == 0x00 {
            Ok(Operator::Unreachable)
        } else if code == 0x01 {
            Ok(Operator::Nop)
        } else if code == 0x02 {
            let ty = match self.read_block_type() {
            Ok(v) => v,
            Err(e) => {
                return Err(e);
            },
        };
            Ok(Operator::Block { ty })
        } else if code == 0x03 {
            let ty = match self.read_block_type() {
            Ok(v) => v,
            Err(e) => {
                return Err(e);
            },
        };
            Ok(Operator::Loop { ty })
        } else if code == 0x04 {
            let ty = match self.read_block_type() {
            Ok(v) => v,
            Err(e) => {
                return Err(e);
            },
        };
            Ok(Operator::If { ty })
        } else if code == 0x05 {
            Ok(Operator::Else)
        } else if code == 0x0b {
            Ok(Operator::End)
        } else if code == 0x0c {
            let relative_depth = match self.read_var_u32() {
            Ok(v) => v,
            Err(e) => {
                return Err(e);
            },
        };
            Ok(Operator::Br { relative_depth })
        } else if code == 0x0d {
            let relative_depth = match self.read_var_u32() {
            Ok(v) => v,
            Err(e) => {
                return Err(e);
            },
        };
            Ok(Operator::BrIf { relative_depth })
        } else if code == 0x0e {
            let table = match self.read_br_table() {
            Ok(v) => v,
            Err(e) => {
                return Err(e);
            },
        };
            Ok(Operator::BrTable { table })
        } else if code == 0x0f {
            Ok(Operator::Return)
        } else if code == 0x10 {
            let function_index = match self.read_var_u32() {
            Ok(v) => v,
            Err(e) => {
                return Err(e);
            },
        };
            Ok(Operator::Call { function_index })
        } else if code == 0x11 {
            let index = match self.read_var_u32() {
            Ok(v) => v,
            Err(e) => {
                return Err(e);
            },
        };
            let table_index = match self.read_var_u32() {
            Ok(v) => v,
            Err(e) => {
                return Err(e);
            },
        };
            Ok(Operator::CallIndirect { index, table_index })
        } else if code == 0x1a {
            Ok(Operator::Drop)
        } else if code == 0x1b {
            Ok(Operator::Select)
        } else if code == 0x20 {
            let local_index = match self.read_var_u32() {
            Ok(v) => v,
            Err(e) => {
                return Err(e);
            },
        };
            Ok(Operator::LocalGet { local_index })
        } else if code == 0x21 {
            let local_index = match self.read_var_u32() {
            Ok(v) => v,
            Err(e) => {
                return Err(e);
            },
        };
            Ok(Operator::LocalSet { local_index })
        } else if code == 0x22 {
            let local_index = match self.read_var_u32() {
            Ok(v) => v,
            Err(e) => {
                return Err(e);
            },
        };
            Ok(Operator::LocalTee { local_index })
        } else if code == 0x23 {
            let global_index = match self.read_var_u32() {
            Ok(v) => v,
            Err(e) => {
                return Err(e);
            },
        };
            Ok(Operator::GlobalGet { global_index })
        } else if code == 0x24 {
            let global_index = match self.read_var_u32() {
            Ok(v) => v,
            Err(e) => {
                return Err(e);
            },
        };
            Ok(Operator::GlobalSet { global_index })
        } else if code == 0x25 {
            let table = match self.read_var_u32() {
                Ok(v) => v,
                Err(e) => {
                    return Err(e);
                },
            };
            Ok(Operator::TableGet { table })
        } else if code == 0x26 {
            let table = match self.read_var_u32() {
                Ok(v) => v,
                Err(e) => {
                    return Err(e);
                },
            };
            Ok(Operator::TableSet { table })
        } else {
            Err(self.fault_at(ErrorKind::UnknownOpcode, pos))
        }
    }

    fn read_two_indices(&mut self) -> (r: Result<(u32, u32)>)
        requires
            old(self).wf(),
        ensures
            final(self).wf(),
            final(self).buffer == old(self).buffer,
            final(self).base_offset == old(self).base_offset,
            final(self).position >= old(self).position,
            outcome(
                r,
                final(self).position,
                old(self).base_offset,
                spec_two_indices(old(self).buffer@, old(self).position as int),
            ),
    {
        let a = match self.read_var_u32() {
            Ok(v) => v,
            Err(e) => {
                return Err(e);
            },
        };
        let b = match self.read_var_u32() {
            Ok(v) => v,
            Err(e) => {
                return Err(e);
            },
        };
        Ok((a, b))
    }

    fn read_misc_op(&mut self, sub: u32, pos: usize) -> (r: Result<Operator>)
        requires
            old(self).wf(),
            pos < old(self).position,
        ensures
            final(self).wf(),
            final(self).buffer == old(self).buffer,
            final(self).base_offset == old(self).base_offset,
            final(self).position >= old(self).position,
            outcome(
                r,
                final(self).position,
                old(self).base_offset,
                spec_misc_op(old(self).buffer@, sub, pos as int, old(self).position as int),
            ),
    {
        if sub <= 7 {
            Ok(Operator::TruncSat { code: sub })
        } else if sub == 8 {
            let ab = match self.read_two_indices() {
                Ok(v) => v,
                Err(e) => {
                    return Err(e);
                },
            };
            Ok(Operator::MemoryInit { segment: ab.0, mem: ab.1 })
        } else if sub == 9 {
            let segment = match self.read_var_u32() {
                Ok(v) => v,
                Err(e) => {
                    return Err(e);
                },
            };
            Ok(Operator::DataDrop { segment })
        } else if sub == 10 {
            let ab = match self.read_two_indices() {
                Ok(v) => v,
                Err(e) => {
                    return Err(e);
                },
            };
            Ok(Operator::MemoryCopy { dst: ab.0, src: ab.1 })
        } else if sub == 11 {
            let mem = match self.read_var_u32() {
                Ok(v) => v,
                Err(e) => {
                    return Err(e);
                },
            };
            Ok(Operator::MemoryFill { mem })
        } else if sub == 12 {
            let ab = match self.read_two_indices() {
                Ok(v) => v,
                Err(e) => {
                    return Err(e);
                },
            };
            Ok(Operator::TableInit { segment: ab.0, table: ab.1 })
        } else if sub == 13 {
            let segment = match self.read_var_u32() {
                Ok(v) => v,
                Err(e) => {
                    return Err(e);
                },
            };
            Ok(Operator::ElemDrop { segment })
        } else if sub == 14 {
            let ab = match self.read_two_indices() {
                Ok(v) => v,
                Err(e) => {
                    return Err(e);
                },
            };
            Ok(Operator::TableCopy { dst: ab.0, src: ab.1 })
        } else if sub == 15 {
            let table = match self.read_var_u32() {
                Ok(v) => v,
                Err(e) => {
                    return Err(e);
                },
            };
            Ok(Operator::TableGrow { table })
        } else if sub == 16 {
            let table = match self.read_var_u32() {
                Ok(v) => v,
                Err(e) => {
                    return Err(e);
                },
            };
            Ok(Operator::TableSize { table })
        } else if sub == 17 {
            let table = match self.read_var_u32() {
                Ok(v) => v,
                Err(e) => {
                    return Err(e);
                },
            };
            Ok(Operator::TableFill { table })
        } else {
            Err(self.fault_at(ErrorKind::UnsupportedFeature, pos))
        }
    }

    fn read_atomic_op(&mut self, sub: u32, pos: usize) -> (r: Result<Operator>)
        requires
            old(self).wf(),
            pos < old(self).position,
        ensures
            final(self).wf(),
            final(self).buffer == old(self).buffer,
            final(self).base_offset == old(self).base_offset,
            final(self).position >= old(self).position,
            outcome(
                r,
                final(self).position,
                old(self).base_offset,
                spec_atomic_op(old(self).buffer@, sub, pos as int, old(self).position as int),
            ),
    {
        if sub == 3 {
            let flags = match self.read_u8() {
                Ok(v) => v,
                Err(e) => {
                    return Err(e);
                },
            };
            Ok(Operator::AtomicFence { flags })
        } else if sub <= 2 || (0x10 <= sub && sub <= 0x4e) {
            let memarg = match self.read_memarg() {
                Ok(v) => v,
                Err(e) => {
                    return Err(e);
                },
            };
            Ok(Operator::Atomic { code: sub, memarg })
        } else {
            Err(self.fault_at(ErrorKind::UnknownOpcode, pos))
        }
    }

    fn read_lane(&mut self, n: u8) -> (r: Result<u8>)
        requires
            old(self).wf(),
        ensures
            final(self).wf(),
            final(self).buffer == old(self).buffer,
            final(self).base_offset == old(self).base_offset,
            final(self).position >= old(self).position,
            outcome(
                r,
                final(self).position,
                old(self).base_offset,
                spec_lane(old(self).buffer@, old(self).position as int, n),
            ),
    {
        let at = self.position;
        let b = match self.read_u8() {
            Ok(v) => v,
            Err(e) => {
                return Err(e);
            },
        };
        if b < n {
            Ok(b)
        } else {
            Err(self.fault_at(ErrorKind::InvalidLaneIndex, at))
        }
    }

    /// Whether the sixteen bytes at `start` are all below 32.
    fn lanes_below_32(&self, start: usize) -> (r: bool)
        requires
            start + 16 <= self.buffer@.len(),
        ensures
            r == (forall|i: int| 0 <= i < 16 ==> #[trigger] self.buffer@[start + i] < 32),
    {
        let mut i: usize = 0;
        proof {
            broadcast use vstd::slice::axiom_spec_len;

            assert(self.buffer@.len() == self.buffer.len());
        }
        while i < 16
            invariant
                start + 16 <= self.buffer@.len(),
                self.buffer@.len() <= usize::MAX,
                i <= 16,
                forall|j: int| 0 <= j < i ==> #[trigger] self.buffer@[start + j] < 32,
            decreases 16 - i,
        {
            if self.buffer[start + i] >= 32 {
                return false;
            }
            i = i + 1;
        }
        true
    }

    fn read_prefixed_op(&mut self, code: u8, sub: u32, pos: usize) -> (r: Result<Operator>)
        requires
            old(self).wf(),
            pos < old(self).position,
        ensures
            final(self).wf(),
            final(self).buffer == old(self).buffer,
            final(self).base_offset == old(self).base_offset,
            final(self).position >= old(self).position,
            outcome(
                r,
                final(self).position,
                old(self).base_offset,
                spec_prefixed_op(old(self).buffer@, code, sub, pos as int, old(self).position as int, old(self).base_offset as int),
            ),
    {
        if code == 0xfc {
            self.read_misc_op(sub, pos)
        } else if code == 0xfd {
            self.read_simd_op(sub, pos)
        } else {
            self.read_atomic_op(sub, pos)
        }
    }

    fn read_simd_op(&mut self, sub: u32, pos: usize) -> (r: Result<Operator>)
        requires
            old(self).wf(),
            pos < old(self).position,
        ensures
            final(self).wf(),
            final(self).buffer == old(self).buffer,
            final(self).base_offset == old(self).base_offset,
            final(self).position >= old(self).position,
            outcome(
                r,
                final(self).position,
                old(self).base_offset,
                spec_simd_op(old(self).buffer@, sub, pos as int, old(self).position as int, old(self).base_offset as int),
            ),
    {
        if sub <= 0x0b || sub == 0x5c || sub == 0x5d {
            let memarg = match self.read_memarg() {
                Ok(v) => v,
                Err(e) => {
                    return Err(e);
                },
            };
            Ok(Operator::SimdMemory { code: sub, memarg })
        } else if sub == 0x0c {
            let value = match self.read_bytes(16) {
                Ok(v) => v,
                Err(e) => {
                    return Err(e);
                },
            };
            Ok(Operator::V128Const { value })
        } else if sub == 0x0d {
            let start = self.position;
            let lanes = match self.read_bytes(16) {
                Ok(v) => v,
                Err(e) => {
                    return Err(e);
                },
            };
            if !self.lanes_below_32(start) {
                return Err(self.fault_at(ErrorKind::InvalidLaneIndex, start));
            }
            Ok(Operator::I8x16Shuffle { lanes })
        } else if 0x15 <= sub && sub <= 0x22 {
            let lane = match self.read_lane(simd_lanes_of(sub)) {
                Ok(v) => v,
                Err(e) => {
                    return Err(e);
                },
            };
            Ok(Operator::SimdLane { code: sub, lane })
        } else if 0x54 <= sub && sub <= 0x5b {
            let memarg = match self.read_memarg() {
                Ok(v) => v,
                Err(e) => {
                    return Err(e);
                },
            };
            let lane = match self.read_lane(simd_lanes_of(sub)) {
                Ok(v) => v,
                Err(e) => {
                    return Err(e);
                },
            };
            Ok(Operator::SimdMemoryLane { code: sub, memarg, lane })
        } else if simd_class_of(sub) != 0 {
            Ok(Operator::Simd { code: sub })
        } else {
            Err(self.fault_at(ErrorKind::UnknownOpcode, pos))
        }
    }

    pub fn read_operator(&mut self) -> (r: Result<Operator>)
        requires
            old(self).wf(),
        ensures
            final(self).wf(),
            final(self).buffer == old(self).buffer,
            final(self).base_offset == old(self).base_offset,
            final(self).position >= old(self).position,
            outcome(
                r,
                final(self).position,
                old(self).base_offset,
                spec_operator(old(self).buffer@, old(self).position as int, old(self).base_offset as int),
            ),
            r is Ok ==> final(self).position > old(self).position,
    {
        let pos = self.position;
        let code = match self.read_u8() {
            Ok(v) => v,
            Err(e) => {
                return Err(e);
            },
        };
        if code < 0x28 {
            self.read_control_op(code, pos)
        } else if code <= 0x35 {
            let memarg = match self.read_memarg() {
            Ok(v) => v,
            Err(e) => {
                return Err(e);
            },
        };
            Ok(Operator::Load { code, memarg })
        } else if code <= 0x3e {
            let memarg = match self.read_memarg() {
            Ok(v) => v,
            Err(e) => {
                return Err(e);
            },
        };
            Ok(Operator::Store { code, memarg })
        } else if code == 0x3f {
            let reserved = match self.read_var_u1() {
            Ok(v) => v,
            Err(e) => {
                return Err(e);
            },
        };
            Ok(Operator::MemorySize { reserved })
        } else if code == 0x40 {
            let reserved = match self.read_var_u1() {
            Ok(v) => v,
            Err(e) => {
                return Err(e);
            },
        };
            Ok(Operator::MemoryGrow { reserved })
        } else if code == 0x41 {
            let value = match self.read_var_i32() {
            Ok(v) => v,
            Err(e) => {
                return Err(e);
            },
        };
            Ok(Operator::I32Const { value })
        } else if code == 0x42 {
            let value = match self.read_var_i64() {
            Ok(v) => v,
            Err(e) => {
                return Err(e);
            },
        };
            Ok(Operator::I64Const { value })
        } else if code == 0x43 {
            let bits = match self.read_u32() {
            Ok(v) => v,
            Err(e) => {
                return Err(e);
            },
        };
            Ok(Operator::F32Const { value: Ieee32 { bits } })
        } else if code == 0x44 {
            let bits = match self.read_u64() {
            Ok(v) => v,
            Err(e) => {
                return Err(e);
            },
        };
            Ok(Operator::F64Const { value: Ieee64 { bits } })
        } else if code <= 0xc4 {
            Ok(Operator::Numeric { code })
        } else if code == 0xd0 {
            Ok(Operator::RefNull)
        } else if code == 0xd1 {
            Ok(Operator::RefIsNull)
        } else if code == 0xd2 {
            let function_index = match self.read_var_u32() {
            Ok(v) => v,
            Err(e) => {
                return Err(e);
            },
        };
            Ok(Operator::RefFunc { function_index })
        } else if code == 0xfc || code == 0xfd || code == 0xfe {
            let sub = match self.read_var_u32() {
                Ok(v) => v,
                Err(e) => {
                    return Err(e);
                },
            };
            self.read_prefixed_op(code, sub, pos)
        } else {
            Err(self.fault_at(ErrorKind::UnknownOpcode, pos))
        }
    }
}

} // verus!

use vstd::prelude::*;

use crate::binary_reader::{
    lemma_repeat_err, outcome, spec_bytes, spec_external_kind, spec_global_type, spec_memory_type,
    spec_operator, spec_repeat, spec_string, spec_table_type, spec_type, spec_u8, spec_var_i32,
    spec_var_u32, var_u32_item, BinaryReader, Decoded,
};
use crate::primitives::{
    BinaryReaderError, Data, DataKind, Element, ElementKind, ErrorKind, Export, ExternalKind,
    FunctionBody, Global, Import, ImportSectionEntryType, Operator, ProducersField, Range,
    RelocEntry, Result, Type,
};

verus! {

/// An initializer expression: instructions up to and including the first
/// `end`; the result is the position just past it.
pub open spec fn spec_init_expr_end(s: Seq<u8>, pos: int, base: int) -> Decoded<()>
    decreases s.len() - pos,
{
    match spec_operator(s, pos, base) {
        Ok((op, p)) => if op == Operator::End {
            Ok(((), p))
        } else if pos < p <= s.len() {
            spec_init_expr_end(s, p, base)
        } else {
            Err((ErrorKind::UnexpectedEof, pos))
        },
        Err(e) => Err(e),
    }
}

/// The range of an initializer expression, `end` included.
pub open spec fn spec_init_expr(s: Seq<u8>, pos: int, base: int) -> Decoded<Range> {
    match spec_init_expr_end(s, pos, base) {
        Ok((_, p)) => Ok((Range { start: (base + pos) as usize, end: (base + p) as usize }, p)),
        Err(e) => Err(e),
    }
}

pub open spec fn spec_import_type(s: Seq<u8>, pos: int) -> Decoded<ImportSectionEntryType> {
    match spec_external_kind(s, pos) {
        Ok((kind, p)) => match kind {
            ExternalKind::Function => spec_with_import(spec_var_u32(s, p), |i| ImportSectionEntryType::Function(i)),
            ExternalKind::Table => spec_with_import(spec_table_type(s, p), |t| ImportSectionEntryType::Table(t)),
            ExternalKind::Memory => spec_with_import(spec_memory_type(s, p), |m| ImportSectionEntryType::Memory(m)),
            ExternalKind::Global => spec_with_import(spec_global_type(s, p), |g| ImportSectionEntryType::Global(g)),
        },
        Err(e) => Err(e),
    }
}

pub open spec fn spec_with_import<T>(d: Decoded<T>, f: spec_fn(T) -> ImportSectionEntryType) -> Decoded<ImportSectionEntryType> {
    match d {
        Ok((v, p)) => Ok((f(v), p)),
        Err(e) => Err(e),
    }
}

/// An import entry: module name, field name, kind and descriptor.
pub open spec fn spec_import(s: Seq<u8>, pos: int, base: int) -> Decoded<Import> {
    match spec_string(s, pos, base) {
        Ok((module, p)) => match spec_string(s, p, base) {
            Ok((field, q)) => match spec_import_type(s, q) {
                Ok((ty, r)) => Ok((Import { module, field, ty }, r)),
                Err(e) => Err(e),
            },
            Err(e) => Err(e),
        },
        Err(e) => Err(e),
    }
}

/// An export entry: name, kind, index.
pub open spec fn spec_export(s: Seq<u8>, pos: int, base: int) -> Decoded<Export> {
    match spec_string(s, pos, base) {
        Ok((field, p)) => match spec_external_kind(s, p) {
            Ok((kind, q)) => match spec_var_u32(s, q) {
                Ok((index, r)) => Ok((Export { field, kind, index }, r)),
                Err(e) => Err(e),
            },
            Err(e) => Err(e),
        },
        Err(e) => Err(e),
    }
}

/// A global entry: its type, then its initializer expression.
pub open spec fn spec_global(s: Seq<u8>, pos: int, base: int) -> Decoded<Global> {
    match spec_global_type(s, pos) {
        Ok((ty, p)) => match spec_init_expr(s, p, base) {
            Ok((init_expr, q)) => Ok((Global { ty, init_expr }, q)),
            Err(e) => Err(e),
        },
        Err(e) => Err(e),
    }
}

/// A function body entry: its size, then that many bytes.
pub open spec fn spec_function_body(s: Seq<u8>, pos: int, base: int) -> Decoded<FunctionBody> {
    match spec_var_u32(s, pos) {
        Ok((size, p)) => match spec_bytes(s, p, size as int, base) {
            Ok((range, q)) => Ok((FunctionBody { range }, q)),
            Err(e) => Err(e),
        },
        Err(e) => Err(e),
    }
}

/// A length-prefixed run of bytes.
pub open spec fn spec_sized_bytes(s: Seq<u8>, pos: int, base: int) -> Decoded<Range> {
    match spec_var_u32(s, pos) {
        Ok((size, p)) => spec_bytes(s, p, size as int, base),
        Err(e) => Err(e),
    }
}

/// One item of a passive element segment: `ref.func` of a function, or
/// `ref.null`, then `end`.
pub open spec fn spec_elem_item(s: Seq<u8>, pos: int) -> Decoded<Option<u32>> {
    match spec_u8(s, pos) {
        Ok((b, p)) => if b == 0xd2 {
            match spec_var_u32(s, p) {
                Ok((f, q)) => match spec_u8(s, q) {
                    Ok((e, t)) => if e == 0x0b {
                        Ok((Some(f), t))
                    } else {
                        Err((ErrorKind::IllegalConstantExpr, q))
                    },
                    Err(e) => Err(e),
                },
                Err(e) => Err(e),
            }
        } else if b == 0xd0 {
            match spec_u8(s, p) {
                Ok((e, t)) => if e == 0x0b {
                    Ok((None, t))
                } else {
                    Err((ErrorKind::IllegalConstantExpr, p))
                },
                Err(e) => Err(e),
            }
        } else {
            Err((ErrorKind::IllegalConstantExpr, pos))
        },
        Err(e) => Err(e),
    }
}

pub open spec fn elem_item() -> spec_fn(Seq<u8>, int) -> Decoded<Option<u32>> {
    |s: Seq<u8>, p: int| spec_elem_item(s, p)
}

/// Where `count` items at `pos` end: expressions, or function indices.
pub open spec fn spec_items_end(s: Seq<u8>, pos: int, count: nat, exprs: bool) -> Decoded<()> {
    if exprs {
        match spec_repeat(s, pos, count, elem_item()) {
            Ok((_, p)) => Ok(((), p)),
            Err(e) => Err(e),
        }
    } else {
        match spec_repeat(s, pos, count, var_u32_item()) {
            Ok((_, p)) => Ok(((), p)),
            Err(e) => Err(e),
        }
    }
}

/// The counted items of an element segment of kind `kind`.
pub open spec fn spec_element_items(s: Seq<u8>, pos: int, base: int, kind: ElementKind) -> Decoded<Element> {
    match spec_var_u32(s, pos) {
        Ok((count, p)) => match spec_items_end(s, p, count as nat, kind is Passive) {
            Ok((_, t)) => Ok((
                Element {
                    kind,
                    count,
                    items: Range { start: (base + p) as usize, end: (base + t) as usize },
                },
                t,
            )),
            Err(e) => Err(e),
        },
        Err(e) => Err(e),
    }
}

/// An element segment: flags 0 (table 0, offset expression, function
/// indices), 1 (passive: reference type, item expressions) or 2 (table
/// index, offset expression, the kind byte 0, function indices).
pub open spec fn spec_element(s: Seq<u8>, pos: int, base: int) -> Decoded<Element> {
    match spec_var_u32(s, pos) {
        Ok((flags, p)) => if flags == 0 {
            match spec_init_expr(s, p, base) {
                Ok((init_expr, q)) => spec_element_items(
                    s,
                    q,
                    base,
                    ElementKind::Active { table_index: 0, init_expr },
                ),
                Err(e) => Err(e),
            }
        } else if flags == 1 {
            match spec_type(s, p) {
                Ok((ty, q)) => spec_element_items(s, q, base, ElementKind::Passive { ty }),
                Err(e) => Err(e),
            }
        } else if flags == 2 {
            match spec_var_u32(s, p) {
                Ok((table_index, q)) => match spec_init_expr(s, q, base) {
                    Ok((init_expr, r)) => match spec_u8(s, r) {
                        Ok((k, t)) => if k != 0 {
                            Err((ErrorKind::UnsupportedFeature, r))
                        } else {
                            spec_element_items(s, t, base, ElementKind::Active { table_index, init_expr })
                        },
                        Err(e) => Err(e),
                    },
                    Err(e) => Err(e),
                },
                Err(e) => Err(e),
            }
        } else {
            Err((ErrorKind::UnsupportedFeature, pos))
        },
        Err(e) => Err(e),
    }
}

/// A data segment: flags 0 (memory 0, offset expression, bytes), 1 (passive
/// bytes) or 2 (memory index, offset expression, bytes).
pub open spec fn spec_data(s: Seq<u8>, pos: int, base: int) -> Decoded<Data> {
    match spec_var_u32(s, pos) {
        Ok((flags, p)) => if flags == 1 {
            match spec_sized_bytes(s, p, base) {
                Ok((data, q)) => Ok((Data { kind: DataKind::Passive, data }, q)),
                Err(e) => Err(e),
            }
        } else if flags == 0 || flags == 2 {
            match (if flags == 2 { spec_var_u32(s, p) } else { Ok((0u32, p)) }) {
                Ok((memory_index, q)) => match spec_init_expr(s, q, base) {
                    Ok((init_expr, r)) => match spec_sized_bytes(s, r, base) {
                        Ok((data, t)) => Ok((
                            Data { kind: DataKind::Active { memory_index, init_expr }, data },
                            t,
                        )),
                        Err(e) => Err(e),
                    },
                    Err(e) => Err(e),
                },
                Err(e) => Err(e),
            }
        } else {
            Err((ErrorKind::UnsupportedFeature, pos))
        },
        Err(e) => Err(e),
    }
}

/// One group of locals: how many, and their type.
pub open spec fn spec_local_decl(s: Seq<u8>, pos: int) -> Decoded<(u32, Type)> {
    match spec_var_u32(s, pos) {
        Ok((n, p)) => match spec_type(s, p) {
            Ok((t, q)) => Ok(((n, t), q)),
            Err(e) => Err(e),
        },
        Err(e) => Err(e),
    }
}

pub open spec fn local_decl_item() -> spec_fn(Seq<u8>, int) -> Decoded<(u32, Type)> {
    |s: Seq<u8>, p: int| spec_local_decl(s, p)
}

/// The local declarations that open a function body: a count of groups,
/// then the groups.
pub open spec fn spec_locals(s: Seq<u8>, pos: int) -> Decoded<Seq<(u32, Type)>> {
    match spec_var_u32(s, pos) {
        Ok((n, p)) => spec_repeat(s, p, n as nat, local_decl_item()),
        Err(e) => Err(e),
    }
}

/// A (name, version) pair of a `producers` field; the result is where it ends.
pub open spec fn spec_string_pair(s: Seq<u8>, pos: int) -> Decoded<()> {
    match spec_string(s, pos, 0) {
        Ok((_, p)) => match spec_string(s, p, 0) {
            Ok((_, q)) => Ok(((), q)),
            Err(e) => Err(e),
        },
        Err(e) => Err(e),
    }
}

pub open spec fn string_pair_item() -> spec_fn(Seq<u8>, int) -> Decoded<()> {
    |s: Seq<u8>, p: int| spec_string_pair(s, p)
}

/// A field of a `producers` section: its name, then its counted pairs.
pub open spec fn spec_producers_field(s: Seq<u8>, pos: int, base: int) -> Decoded<ProducersField> {
    match spec_string(s, pos, base) {
        Ok((name, p)) => match spec_var_u32(s, p) {
            Ok((count, q)) => match spec_repeat(s, q, count as nat, string_pair_item()) {
                Ok((_, t)) => Ok((
                    ProducersField {
                        name,
                        count,
                        values: Range { start: (base + q) as usize, end: (base + t) as usize },
                    },
                    t,
                )),
                Err(e) => Err(e),
            },
            Err(e) => Err(e),
        },
        Err(e) => Err(e),
    }
}

/// Whether relocations of type `ty` carry an addend.
pub open spec fn reloc_has_addend(ty: u8) -> bool {
    ty == 3 || ty == 4 || ty == 5 || ty == 8 || ty == 9
}

/// A relocation: type byte, offset, index, and an addend where the type has one.
pub open spec fn spec_reloc_entry(s: Seq<u8>, pos: int) -> Decoded<RelocEntry> {
    match spec_u8(s, pos) {
        Ok((ty, p)) => match spec_var_u32(s, p) {
            Ok((offset, q)) => match spec_var_u32(s, q) {
                Ok((index, t)) => if reloc_has_addend(ty) {
                    match spec_var_i32(s, t) {
                        Ok((a, u)) => Ok((RelocEntry { ty, offset, index, addend: Some(a) }, u)),
                        Err(e) => Err(e),
                    }
                } else {
                    Ok((RelocEntry { ty, offset, index, addend: None }, t))
                },
                Err(e) => Err(e),
            },
            Err(e) => Err(e),
        },
        Err(e) => Err(e),
    }
}

impl<'a> BinaryReader<'a> {
    pub fn read_locals(&mut self) -> (r: Result<Vec<(u32, Type)>>)
        requires
            old(self).wf(),
        ensures
            final(self).wf(),
            final(self).buffer == old(self).buffer,
            final(self).base_offset == old(self).base_offset,
            final(self).position >= old(self).position,
            match spec_locals(old(self).buffer@, old(self).position as int) {
                Ok((v, p)) => r is Ok && r->Ok_0@ == v && final(self).position == p,
                Err((k, at)) => r == Err::<Vec<(u32, Type)>, BinaryReaderError>(
                    BinaryReaderError { kind: k, offset: (old(self).base_offset + at) as usize },
                ),
            },
    {
        let count = match self.read_var_u32() {
            Ok(v) => v,
            Err(e) => {
                return Err(e);
            },
        };
        let ghost s = self.buffer@;
        let ghost start = self.position as int;
        let ghost f = local_decl_item();
        let mut locals: Vec<(u32, Type)> = Vec::new();
        let mut i: u32 = 0;
        while i < count
            invariant
                self.wf(),
                self.buffer@ == s,
                self.buffer == old(self).buffer,
                self.base_offset == old(self).base_offset,
                self.position >= start >= old(self).position,
                spec_var_u32(s, old(self).position as int) == Ok::<(u32, int), (ErrorKind, int)>(
                    (count, start),
                ),
                i <= count,
                f == local_decl_item(),
                spec_repeat(s, start, i as nat, f) == Ok::<(Seq<(u32, Type)>, int), (ErrorKind, int)>(
                    (locals@, self.position as int),
                ),
            decreases count - i,
        {
            let n = match self.read_var_u32() {
                Ok(v) => v,
                Err(e) => {
                    proof {
                        lemma_repeat_err(s, start, (i + 1) as nat, count as nat, f);
                    }
                    return Err(e);
                },
            };
            let t = match self.read_type() {
                Ok(v) => v,
                Err(e) => {
                    proof {
                        lemma_repeat_err(s, start, (i + 1) as nat, count as nat, f);
                    }
                    return Err(e);
                },
            };
            locals.push((n, t));
            i = i + 1;
        }
        Ok(locals)
    }

    /// Skips an initializer expression and returns its range.
    pub fn read_init_expr(&mut self) -> (r: Result<Range>)
        requires
            old(self).wf(),
        ensures
            final(self).wf(),
            final(self).buffer == old(self).buffer,
            final(self).base_offset == old(self).base_offset,
            final(self).position >= old(self).position,
            outcome(
                r,
                final(self).position,
                old(self).base_offset,
                spec_init_expr(old(self).buffer@, old(self).position as int, old(self).base_offset as int),
            ),
    {
        let ghost s = self.buffer@;
        let ghost base = self.base_offset as int;
        let start = self.position;
        loop
            invariant
                self.wf(),
                self.buffer@ == s,
                self.buffer == old(self).buffer,
                self.base_offset == old(self).base_offset,
                base == self.base_offset,
                start == old(self).position,
                self.position >= start,
                spec_init_expr_end(s, start as int, base) == spec_init_expr_end(s, self.position as int, base),
            decreases self.buffer@.len() - self.position,
        {
            let op = match self.read_operator() {
                Ok(v) => v,
                Err(e) => {
                    return Err(e);
                },
            };
            if op == Operator::End {
                return Ok(Range {
                    start: self.base_offset + start,
                    end: self.base_offset + self.position,
                });
            }
        }
    }

    pub fn read_import(&mut self) -> (r: Result<Import>)
        requires
            old(self).wf(),
        ensures
            final(self).wf(),
            final(self).buffer == old(self).buffer,
            final(self).base_offset == old(self).base_offset,
            final(self).position >= old(self).position,
            outcome(
                r,
                final(self).position,
                old(self).base_offset,
                spec_import(old(self).buffer@, old(self).position as int, old(self).base_offset as int),
            ),
    {
        let module = match self.read_string() {
            Ok(v) => v,
            Err(e) => {
                return Err(e);
            },
        };
        let field = match self.read_string() {
            Ok(v) => v,
            Err(e) => {
                return Err(e);
            },
        };
        let kind = match self.read_external_kind() {
            Ok(v) => v,
            Err(e) => {
                return Err(e);
            },
        };
        let ty = match kind {
            ExternalKind::Function => {
                let i = match self.read_var_u32() {
                    Ok(v) => v,
                    Err(e) => {
                        return Err(e);
                    },
                };
                ImportSectionEntryType::Function(i)
            },
            ExternalKind::Table => {
                let t = match self.read_table_type() {
                    Ok(v) => v,
                    Err(e) => {
                        return Err(e);
                    },
                };
                ImportSectionEntryType::Table(t)
            },
            ExternalKind::Memory => {
                let m = match self.read_memory_type() {
                    Ok(v) => v,
                    Err(e) => {
                        return Err(e);
                    },
                };
                ImportSectionEntryType::Memory(m)
            },
            ExternalKind::Global => {
                let g = match self.read_global_type() {
                    Ok(v) => v,
                    Err(e) => {
                        return Err(e);
                    },
                };
                ImportSectionEntryType::Global(g)
            },
        };
        Ok(Import { module, field, ty })
    }

    pub fn read_export(&mut self) -> (r: Result<Export>)
        requires
            old(self).wf(),
        ensures
            final(self).wf(),
            final(self).buffer == old(self).buffer,
            final(self).base_offset == old(self).base_offset,
            final(self).position >= old(self).position,
            outcome(
                r,
                final(self).position,
                old(self).base_offset,
                spec_export(old(self).buffer@, old(self).position as int, old(self).base_offset as int),
            ),
    {
        let field = match self.read_string() {
            Ok(v) => v,
            Err(e) => {
                return Err(e);
            },
        };
        let kind = match self.read_external_kind() {
            Ok(v) => v,
            Err(e) => {
                return Err(e);
            },
        };
        let index = match self.read_var_u32() {
            Ok(v) => v,
            Err(e) => {
                return Err(e);
            },
        };
        Ok(Export { field, kind, index })
    }

    pub fn read_global(&mut self) -> (r: Result<Global>)
        requires
            old(self).wf(),
        ensures
            final(self).wf(),
            final(self).buffer == old(self).buffer,
            final(self).base_offset == old(self).base_offset,
            final(self).position >= old(self).position,
            outcome(
                r,
                final(self).position,
                old(self).base_offset,
                spec_global(old(self).buffer@, old(self).position as int, old(self).base_offset as int),
            ),
    {
        let ty = match self.read_global_type() {
            Ok(v) => v,
            Err(e) => {
                return Err(e);
            },
        };
        let init_expr = match self.read_init_expr() {
            Ok(v) => v,
            Err(e) => {
                return Err(e);
            },
        };
        Ok(Global { ty, init_expr })
    }

    pub fn read_function_body(&mut self) -> (r: Result<FunctionBody>)
        requires
            old(self).wf(),
        ensures
            final(self).wf(),
            final(self).buffer == old(self).buffer,
            final(self).base_offset == old(self).base_offset,
            final(self).position >= old(self).position,
            outcome(
                r,
                final(self).position,
                old(self).base_offset,
                spec_function_body(old(self).buffer@, old(self).position as int, old(self).base_offset as int),
            ),
    {
        let size = match self.read_var_u32() {
            Ok(v) => v,
            Err(e) => {
                return Err(e);
            },
        };
        let range = match self.read_bytes(size as usize) {
            Ok(v) => v,
            Err(e) => {
                return Err(e);
            },
        };
        Ok(FunctionBody { range })
    }

    fn read_sized_bytes(&mut self) -> (r: Result<Range>)
        requires
            old(self).wf(),
        ensures
            final(self).wf(),
            final(self).buffer == old(self).buffer,
            final(self).base_offset == old(self).base_offset,
            final(self).position >= old(self).position,
            outcome(
                r,
                final(self).position,
                old(self).base_offset,
                spec_sized_bytes(old(self).buffer@, old(self).position as int, old(self).base_offset as int),
            ),
    {
        let size = match self.read_var_u32() {
            Ok(v) => v,
            Err(e) => {
                return Err(e);
            },
        };
        self.read_bytes(size as usize)
    }

    /// Reads one item of a passive element segment.
    pub fn read_elem_item(&mut self) -> (r: Result<Option<u32>>)
        requires
            old(self).wf(),
        ensures
            final(self).wf(),
            final(self).buffer == old(self).buffer,
            final(self).base_offset == old(self).base_offset,
            final(self).position >= old(self).position,
            outcome(
                r,
                final(self).position,
                old(self).base_offset,
                spec_elem_item(old(self).buffer@, old(self).position as int),
            ),
    {
        let start = self.position;
        let b = match self.read_u8() {
            Ok(v) => v,
            Err(e) => {
                return Err(e);
            },
        };
        if b == 0xd2 {
            let f = match self.read_var_u32() {
                Ok(v) => v,
                Err(e) => {
                    return Err(e);
                },
            };
            let at = self.position;
            let e = match self.read_u8() {
                Ok(v) => v,
                Err(e) => {
                    return Err(e);
                },
            };
            if e != 0x0b {
                return Err(self.fault_at(ErrorKind::IllegalConstantExpr, at));
            }
            Ok(Some(f))
        } else if b == 0xd0 {
            let at = self.position;
            let e = match self.read_u8() {
                Ok(v) => v,
                Err(e) => {
                    return Err(e);
                },
            };
            if e != 0x0b {
                return Err(self.fault_at(ErrorKind::IllegalConstantExpr, at));
            }
            Ok(None)
        } else {
            Err(self.fault_at(ErrorKind::IllegalConstantExpr, start))
        }
    }

    /// Reads `count` items: item expressions when `exprs`, else function
    /// indices.
    fn skip_items(&mut self, count: u32, exprs: bool) -> (r: Result<()>)
        requires
            old(self).wf(),
        ensures
            final(self).wf(),
            final(self).buffer == old(self).buffer,
            final(self).base_offset == old(self).base_offset,
            final(self).position >= old(self).position,
            outcome(
                r,
                final(self).position,
                old(self).base_offset,
                spec_items_end(old(self).buffer@, old(self).position as int, count as nat, exprs),
            ),
    {
        let ghost s = self.buffer@;
        let ghost start = self.position as int;
        let ghost mut items_u: Seq<u32> = seq![];
        let ghost mut items_e: Seq<Option<u32>> = seq![];
        let mut i: u32 = 0;
        while i < count
            invariant
                self.wf(),
                self.buffer@ == s,
                self.buffer == old(self).buffer,
                self.base_offset == old(self).base_offset,
                self.position >= start >= old(self).position,
                start == old(self).position,
                i <= count,
                exprs ==> spec_repeat(s, start, i as nat, elem_item()) == Ok::<
                    (Seq<Option<u32>>, int),
                    (ErrorKind, int),
                >((items_e, self.position as int)),
                !exprs ==> spec_repeat(s, start, i as nat, var_u32_item()) == Ok::<
                    (Seq<u32>, int),
                    (ErrorKind, int),
                >((items_u, self.position as int)),
            decreases count - i,
        {
            if exprs {
                match self.read_elem_item() {
                    Ok(x) => {
                        proof {
                            items_e = items_e.push(x);
                        }
                    },
                    Err(e) => {
                        proof {
                            lemma_repeat_err(s, start, (i + 1) as nat, count as nat, elem_item());
                        }
                        return Err(e);
                    },
                }
            } else {
                match self.read_var_u32() {
                    Ok(x) => {
                        proof {
                            items_u = items_u.push(x);
                        }
                    },
                    Err(e) => {
                        proof {
                            lemma_repeat_err(s, start, (i + 1) as nat, count as nat, var_u32_item());
                        }
                        return Err(e);
                    },
                }
            }
            i = i + 1;
        }
        Ok(())
    }

    fn read_element_items(&mut self, kind: ElementKind) -> (r: Result<Element>)
        requires
            old(self).wf(),
        ensures
            final(self).wf(),
            final(self).buffer == old(self).buffer,
            final(self).base_offset == old(self).base_offset,
            final(self).position >= old(self).position,
            outcome(
                r,
                final(self).position,
                old(self).base_offset,
                spec_element_items(
                    old(self).buffer@,
                    old(self).position as int,
                    old(self).base_offset as int,
                    kind,
                ),
            ),
    {
        let count = match self.read_var_u32() {
            Ok(v) => v,
            Err(e) => {
                return Err(e);
            },
        };
        let start = self.position;
        let exprs = match kind {
            ElementKind::Passive { .. } => true,
            ElementKind::Active { .. } => false,
        };
        match self.skip_items(count, exprs) {
            Ok(()) => {},
            Err(e) => {
                return Err(e);
            },
        }
        Ok(Element {
            kind,
            count,
            items: Range { start: self.base_offset + start, end: self.base_offset + self.position },
        })
    }

    pub fn read_element(&mut self) -> (r: Result<Element>)
        requires
            old(self).wf(),
        ensures
            final(self).wf(),
            final(self).buffer == old(self).buffer,
            final(self).base_offset == old(self).base_offset,
            final(self).position >= old(self).position,
            outcome(
                r,
                final(self).position,
                old(self).base_offset,
                spec_element(old(self).buffer@, old(self).position as int, old(self).base_offset as int),
            ),
    {
        let start = self.position;
        let flags = match self.read_var_u32() {
            Ok(v) => v,
            Err(e) => {
                return Err(e);
            },
        };
        if flags == 0 {
            let init_expr = match self.read_init_expr() {
                Ok(v) => v,
                Err(e) => {
                    return Err(e);
                },
            };
            self.read_element_items(ElementKind::Active { table_index: 0, init_expr })
        } else if flags == 1 {
            let ty = match self.read_type() {
                Ok(v) => v,
                Err(e) => {
                    return Err(e);
                },
            };
            self.read_element_items(ElementKind::Passive { ty })
        } else if flags == 2 {
            let table_index = match self.read_var_u32() {
                Ok(v) => v,
                Err(e) => {
                    return Err(e);
                },
            };
            let init_expr = match self.read_init_expr() {
                Ok(v) => v,
                Err(e) => {
                    return Err(e);
                },
            };
            let at = self.position;
            let k = match self.read_u8() {
                Ok(v) => v,
                Err(e) => {
                    return Err(e);
                },
            };
            if k != 0 {
                return Err(self.fault_at(ErrorKind::UnsupportedFeature, at));
            }
            self.read_element_items(ElementKind::Active { table_index, init_expr })
        } else {
            Err(self.fault_at(ErrorKind::UnsupportedFeature, start))
        }
    }

    pub fn read_data(&mut self) -> (r: Result<Data>)
        requires
            old(self).wf(),
        ensures
            final(self).wf(),
            final(self).buffer == old(self).buffer,
            final(self).base_offset == old(self).base_offset,
            final(self).position >= old(self).position,
            outcome(
                r,
                final(self).position,
                old(self).base_offset,
                spec_data(old(self).buffer@, old(self).position as int, old(self).base_offset as int),
            ),
    {
        let start = self.position;
        let flags = match self.read_var_u32() {
            Ok(v) => v,
            Err(e) => {
                return Err(e);
            },
        };
        if flags == 1 {
            let data = match self.read_sized_bytes() {
                Ok(v) => v,
                Err(e) => {
                    return Err(e);
                },
            };
            Ok(Data { kind: DataKind::Passive, data })
        } else if flags == 0 || flags == 2 {
            let memory_index = if flags == 2 {
                match self.read_var_u32() {
                    Ok(v) => v,
                    Err(e) => {
                        return Err(e);
                    },
                }
            } else {
                0
            };
            let init_expr = match self.read_init_expr() {
                Ok(v) => v,
                Err(e) => {
                    return Err(e);
                },
            };
            let data = match self.read_sized_bytes() {
                Ok(v) => v,
                Err(e) => {
                    return Err(e);
                },
            };
            Ok(Data { kind: DataKind::Active { memory_index, init_expr }, data })
        } else {
            Err(self.fault_at(ErrorKind::UnsupportedFeature, start))
        }
    }

    fn read_string_pair(&mut self) -> (r: Result<()>)
        requires
            old(self).wf(),
            old(self).base_offset == 0,
        ensures
            final(self).wf(),
            final(self).buffer == old(self).buffer,
            final(self).base_offset == old(self).base_offset,
            final(self).position >= old(self).position,
            outcome(
                r,
                final(self).position,
                old(self).base_offset,
                spec_string_pair(old(self).buffer@, old(self).position as int),
            ),
    {
        let _a = match self.read_string() {
            Ok(v) => v,
            Err(e) => {
                return Err(e);
            },
        };
        let _b = match self.read_string() {
            Ok(v) => v,
            Err(e) => {
                return Err(e);
            },
        };
        Ok(())
    }

    /// Reads one field of a `producers` section.
    pub fn read_producers_field(&mut self) -> (r: Result<ProducersField>)
        requires
            old(self).wf(),
            old(self).base_offset == 0,
        ensures
            final(self).wf(),
            final(self).buffer == old(self).buffer,
            final(self).base_offset == old(self).base_offset,
            final(self).position >= old(self).position,
            outcome(
                r,
                final(self).position,
                old(self).base_offset,
                spec_producers_field(old(self).buffer@, old(self).position as int, 0),
            ),
    {
        let name = match self.read_string() {
            Ok(v) => v,
            Err(e) => {
                return Err(e);
            },
        };
        let count = match self.read_var_u32() {
            Ok(v) => v,
            Err(e) => {
                return Err(e);
            },
        };
        let ghost s = self.buffer@;
        let start = self.position;
        let ghost f = string_pair_item();
        let ghost mut items: Seq<()> = seq![];
        let mut i: u32 = 0;
        while i < count
            invariant
                self.wf(),
                self.buffer@ == s,
                self.buffer == old(self).buffer,
                self.base_offset == 0,
                old(self).base_offset == 0,
                self.position >= start >= old(self).position,
                i <= count,
                f == string_pair_item(),
                spec_repeat(s, start as int, i as nat, f) == Ok::<(Seq<()>, int), (ErrorKind, int)>(
                    (items, self.position as int),
                ),
                spec_producers_field(s, old(self).position as int, 0) == (match spec_repeat(
                    s,
                    start as int,
                    count as nat,
                    f,
                ) {
                    Ok((_, t)) => Ok((
                        ProducersField {
                            name,
                            count,
                            values: Range { start: start as usize, end: t as usize },
                        },
                        t,
                    )),
                    Err(e) => Err(e),
                }),
            decreases count - i,
        {
            match self.read_string_pair() {
                Ok(()) => {
                    proof {
                        items = items.push(());
                    }
                },
                Err(e) => {
                    proof {
                        lemma_repeat_err(s, start as int, (i + 1) as nat, count as nat, f);
                    }
                    return Err(e);
                },
            }
            i = i + 1;
        }
        Ok(ProducersField { name, count, values: Range { start, end: self.position } })
    }

    /// Reads one relocation of a `reloc.*` section.
    pub fn read_reloc_entry(&mut self) -> (r: Result<RelocEntry>)
        requires
            old(self).wf(),
        ensures
            final(self).wf(),
            final(self).buffer == old(self).buffer,
            final(self).base_offset == old(self).base_offset,
            final(self).position >= old(self).position,
            outcome(
                r,
                final(self).position,
                old(self).base_offset,
                spec_reloc_entry(old(self).buffer@, old(self).position as int),
            ),
    {
        let ty = match self.read_u8() {
            Ok(v) => v,
            Err(e) => {
                return Err(e);
            },
        };
        let offset = match self.read_var_u32() {
            Ok(v) => v,
            Err(e) => {
                return Err(e);
            },
        };
        let index = match self.read_var_u32() {
            Ok(v) => v,
            Err(e) => {
                return Err(e);
            },
        };
        if ty == 3 || ty == 4 || ty == 5 || ty == 8 || ty == 9 {
            let a = match self.read_var_i32() {
                Ok(v) => v,
                Err(e) => {
                    return Err(e);
                },
            };
            Ok(RelocEntry { ty, offset, index, addend: Some(a) })
        } else {
            Ok(RelocEntry { ty, offset, index, addend: None })
        }
    }
}

} // verus!

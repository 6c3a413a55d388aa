use vstd::prelude::*;
use crate::error::DecodeError;
use crate::leb128::{read_u32, spec_u32};
use crate::reader::{
    lemma_vec_u32_mono, Item, spec_byte, read_byte, spec_vec, read_vec, valtype_of, valtype_from_byte, ValTypeItem, U32Item, LimitsItem,
    TableTypeItem, GlobalTypeItem, ConstExprItem,
};
use crate::utf8::{spec_name, read_name};
use crate::instr::{spec_expr, read_expr, frame_plain};
use crate::types::{
    ValType, FuncType, Import, ImportDesc, Export, ExternKind, Global, Elem, Data, Code,
};

verus! {

/// A vector of value types: a `u32` count and one byte per type. Yields
/// the byte range of the types.
pub open spec fn spec_valtypes(s: Seq<u8>, pos: usize, end: usize) -> Result<((usize, usize), usize), DecodeError> {
    match spec_u32(s, pos, end) {
        Ok((n, p)) => match spec_vec::<ValTypeItem>(s, p, end, n as nat) {
            Ok((_, q)) => Ok(((p, q), q)),
            Err(e) => Err(e),
        },
        Err(e) => Err(e),
    }
}

/// Each value type takes one byte: `n` of them end `n` bytes on, each
/// byte being the value type read.
proof fn lemma_valtypes(s: Seq<u8>, p: usize, end: usize, n: nat)
    ensures
        spec_vec::<ValTypeItem>(s, p, end, n) matches Ok((ts, q)) ==> q == p + n && ts.len() == n
            && forall|k: int| 0 <= k < n ==> valtype_of(#[trigger] s[p + k]) == Some(ts[k]),
    decreases n,
{
    if n > 0 {
        lemma_valtypes(s, p, end, (n - 1) as nat);
    }
}

/// Every byte in `a .. b` encodes a value type.
pub open spec fn valtype_bytes(s: Seq<u8>, a: int, b: int) -> bool {
    forall|k: int| a <= k < b ==> (#[trigger] valtype_of(s[k])) is Some
}

/// The value types whose bytes are `a .. b`.
pub open spec fn valtypes_at(s: Seq<u8>, a: int, b: int) -> Seq<ValType> {
    Seq::new((b - a) as nat, |k: int| valtype_of(s[a + k])->Some_0)
}

/// Reads the value types whose bytes are `a .. b`.
pub fn valtypes_from(s: &[u8], a: usize, b: usize) -> (r: Vec<ValType>)
    requires
        a <= b <= s@.len(),
        valtype_bytes(s@, a as int, b as int),
    ensures
        r@ == valtypes_at(s@, a as int, b as int),
{
    let mut r: Vec<ValType> = Vec::new();
    let mut k: usize = a;
    while k < b
        invariant
            a <= k <= b <= s@.len(),
            valtype_bytes(s@, a as int, b as int),
            r@ == valtypes_at(s@, a as int, k as int),
        decreases b - k,
    {
        assert(valtype_of(s@[k as int]) is Some);
        let t = match valtype_from_byte(s[k]) {
            Some(t) => t,
            None => ValType::I32,
        };
        r.push(t);
        k = k + 1;
        proof {
            assert(r@ =~= valtypes_at(s@, a as int, k as int));
        }
    }
    r
}

fn read_valtypes(s: &[u8], pos: usize, end: usize) -> (r: Result<((usize, usize), usize), DecodeError>)
    requires
        end <= s@.len(),
    ensures
        r == spec_valtypes(s@, pos, end),
        r matches Ok((_, q)) ==> pos < q <= end,
        r matches Ok(((a, b), q)) ==> pos < a <= b && b == q && valtype_bytes(s@, a as int, b as int),
{
    let (n, p) = read_u32(s, pos, end)?;
    match read_vec::<ValTypeItem>(s, p, end, n) {
        Ok((_, q)) => {
            proof {
                lemma_valtypes(s@, p, end, n as nat);
                assert forall|k: int| p <= k < q implies (#[trigger] valtype_of(s@[k])) is Some by {
                    assert(s@[k] == s@[p + (k - p)]);
                }
            }
            Ok(((p, q), q))
        },
        Err(e) => Err(e),
    }
}

/// A function type: `0x60`, the parameter types, the result types.
pub struct FuncTypeItem;

impl Item for FuncTypeItem {
    type Out = FuncType;

    open spec fn within(s: Seq<u8>, x: FuncType, end: usize) -> bool {
        &&& x.params_start <= x.params_end <= x.results_start <= x.results_end <= end
        &&& valtype_bytes(s, x.params_start as int, x.params_end as int)
        &&& valtype_bytes(s, x.results_start as int, x.results_end as int)
    }

    proof fn lemma_within_mono(s: Seq<u8>, x: FuncType, e1: usize, e2: usize) {
    }

    open spec fn spec_item(s: Seq<u8>, pos: usize, end: usize) -> Result<(FuncType, usize), DecodeError> {
        match spec_byte(s, pos, end) {
            Ok((tag, p)) => if tag != 0x60 {
                Err(DecodeError::MalformedFunctionType)
            } else {
                match spec_valtypes(s, p, end) {
                    Ok(((ps, pe), q)) => match spec_valtypes(s, q, end) {
                        Ok(((rs, re), q2)) => Ok((FuncType { params_start: ps, params_end: pe, results_start: rs, results_end: re }, q2)),
                        Err(e) => Err(e),
                    },
                    Err(e) => Err(e),
                }
            },
            Err(e) => Err(e),
        }
    }

    fn item(s: &[u8], pos: usize, end: usize) -> (r: Result<(FuncType, usize), DecodeError>) {
        let (tag, p) = read_byte(s, pos, end)?;
        if tag != 0x60 {
            return Err(DecodeError::MalformedFunctionType);
        }
        let ((ps, pe), q) = read_valtypes(s, p, end)?;
        let ((rs, re), q2) = read_valtypes(s, q, end)?;
        Ok((FuncType { params_start: ps, params_end: pe, results_start: rs, results_end: re }, q2))
    }
}

/// An import: module name, field name, and a descriptor tagged 0 (function
/// type index), 1 (table type), 2 (memory limits) or 3 (global type).
pub struct ImportItem;

pub open spec fn spec_import_desc(s: Seq<u8>, pos: usize, end: usize) -> Result<(ImportDesc, usize), DecodeError> {
    match spec_byte(s, pos, end) {
        Ok((kind, p)) => if kind == 0 {
            match spec_u32(s, p, end) {
                Ok((t, q)) => Ok((ImportDesc::Function(t), q)),
                Err(e) => Err(e),
            }
        } else if kind == 1 {
            match TableTypeItem::spec_item(s, p, end) {
                Ok((t, q)) => Ok((ImportDesc::Table(t), q)),
                Err(e) => Err(e),
            }
        } else if kind == 2 {
            match LimitsItem::spec_item(s, p, end) {
                Ok((l, q)) => Ok((ImportDesc::Memory(l), q)),
                Err(e) => Err(e),
            }
        } else if kind == 3 {
            match GlobalTypeItem::spec_item(s, p, end) {
                Ok((g, q)) => Ok((ImportDesc::Global(g), q)),
                Err(e) => Err(e),
            }
        } else {
            Err(DecodeError::MalformedImportKind)
        },
        Err(e) => Err(e),
    }
}

fn read_import_desc(s: &[u8], pos: usize, end: usize) -> (r: Result<(ImportDesc, usize), DecodeError>)
    requires
        end <= s@.len(),
    ensures
        r == spec_import_desc(s@, pos, end),
        r matches Ok((_, q)) ==> pos < q <= end,
{
    let (kind, p) = read_byte(s, pos, end)?;
    if kind == 0 {
        let (t, q) = read_u32(s, p, end)?;
        Ok((ImportDesc::Function(t), q))
    } else if kind == 1 {
        let (t, q) = TableTypeItem::item(s, p, end)?;
        Ok((ImportDesc::Table(t), q))
    } else if kind == 2 {
        let (l, q) = LimitsItem::item(s, p, end)?;
        Ok((ImportDesc::Memory(l), q))
    } else if kind == 3 {
        let (g, q) = GlobalTypeItem::item(s, p, end)?;
        Ok((ImportDesc::Global(g), q))
    } else {
        Err(DecodeError::MalformedImportKind)
    }
}

impl Item for ImportItem {
    type Out = Import;

    open spec fn within(s: Seq<u8>, x: Import, end: usize) -> bool {
        x.module_start + x.module_len <= end && x.name_start + x.name_len <= end
    }

    proof fn lemma_within_mono(s: Seq<u8>, x: Import, e1: usize, e2: usize) {
    }

    open spec fn spec_item(s: Seq<u8>, pos: usize, end: usize) -> Result<(Import, usize), DecodeError> {
        match spec_name(s, pos, end) {
            Ok(((ms, ml), p)) => match spec_name(s, p, end) {
                Ok(((ns, nl), q)) => match spec_import_desc(s, q, end) {
                    Ok((desc, q2)) => Ok((Import { module_start: ms, module_len: ml, name_start: ns, name_len: nl, desc }, q2)),
                    Err(e) => Err(e),
                },
                Err(e) => Err(e),
            },
            Err(e) => Err(e),
        }
    }

    fn item(s: &[u8], pos: usize, end: usize) -> (r: Result<(Import, usize), DecodeError>) {
        let ((ms, ml), p) = read_name(s, pos, end)?;
        let ((ns, nl), q) = read_name(s, p, end)?;
        let (desc, q2) = read_import_desc(s, q, end)?;
        Ok((Import { module_start: ms, module_len: ml, name_start: ns, name_len: nl, desc }, q2))
    }
}

/// The extern kind that an export tag encodes, if any.
pub open spec fn extern_kind_of(b: u8) -> Option<ExternKind> {
    if b == 0 {
        Some(ExternKind::Function)
    } else if b == 1 {
        Some(ExternKind::Table)
    } else if b == 2 {
        Some(ExternKind::Memory)
    } else if b == 3 {
        Some(ExternKind::Global)
    } else {
        None
    }
}

fn extern_kind_from_byte(b: u8) -> (r: Option<ExternKind>)
    ensures
        r == extern_kind_of(b),
{
    if b == 0 {
        Some(ExternKind::Function)
    } else if b == 1 {
        Some(ExternKind::Table)
    } else if b == 2 {
        Some(ExternKind::Memory)
    } else if b == 3 {
        Some(ExternKind::Global)
    } else {
        None
    }
}

/// An export: name, kind tag (0 to 3), index.
pub struct ExportItem;

impl Item for ExportItem {
    type Out = Export;

    open spec fn within(s: Seq<u8>, x: Export, end: usize) -> bool {
        x.name_start + x.name_len <= end
    }

    proof fn lemma_within_mono(s: Seq<u8>, x: Export, e1: usize, e2: usize) {
    }

    open spec fn spec_item(s: Seq<u8>, pos: usize, end: usize) -> Result<(Export, usize), DecodeError> {
        match spec_name(s, pos, end) {
            Ok(((ns, nl), p)) => match spec_byte(s, p, end) {
                Ok((tag, q)) => match extern_kind_of(tag) {
                    Some(kind) => match spec_u32(s, q, end) {
                        Ok((index, q2)) => Ok((Export { name_start: ns, name_len: nl, kind, index }, q2)),
                        Err(e) => Err(e),
                    },
                    None => Err(DecodeError::MalformedExportKind),
                },
                Err(e) => Err(e),
            },
            Err(e) => Err(e),
        }
    }

    fn item(s: &[u8], pos: usize, end: usize) -> (r: Result<(Export, usize), DecodeError>) {
        let ((ns, nl), p) = read_name(s, pos, end)?;
        let (tag, q) = read_byte(s, p, end)?;
        match extern_kind_from_byte(tag) {
            Some(kind) => {
                let (index, q2) = read_u32(s, q, end)?;
                Ok((Export { name_start: ns, name_len: nl, kind, index }, q2))
            },
            None => Err(DecodeError::MalformedExportKind),
        }
    }
}

/// A global: its type and its constant initializer.
pub struct GlobalItem;

impl Item for GlobalItem {
    type Out = Global;

    open spec fn within(s: Seq<u8>, x: Global, end: usize) -> bool {
        true
    }

    proof fn lemma_within_mono(s: Seq<u8>, x: Global, e1: usize, e2: usize) {
    }

    open spec fn spec_item(s: Seq<u8>, pos: usize, end: usize) -> Result<(Global, usize), DecodeError> {
        match GlobalTypeItem::spec_item(s, pos, end) {
            Ok((ty, p)) => match ConstExprItem::spec_item(s, p, end) {
                Ok((init, q)) => Ok((Global { ty, init }, q)),
                Err(e) => Err(e),
            },
            Err(e) => Err(e),
        }
    }

    fn item(s: &[u8], pos: usize, end: usize) -> (r: Result<(Global, usize), DecodeError>) {
        let (ty, p) = GlobalTypeItem::item(s, pos, end)?;
        let (init, q) = ConstExprItem::item(s, p, end)?;
        Ok((Global { ty, init }, q))
    }
}

/// An element segment: table index, offset, vector of function indices.
pub struct ElemItem;

impl Item for ElemItem {
    type Out = Elem;

    /// The function indices decode where the segment says they are.
    open spec fn within(s: Seq<u8>, x: Elem, end: usize) -> bool {
        x.funcs_start <= end && spec_vec::<U32Item>(s, x.funcs_start, end, x.funcs_count as nat) is Ok
    }

    proof fn lemma_within_mono(s: Seq<u8>, x: Elem, e1: usize, e2: usize) {
        lemma_vec_u32_mono(s, x.funcs_start, e1, e2, x.funcs_count as nat);
    }

    open spec fn spec_item(s: Seq<u8>, pos: usize, end: usize) -> Result<(Elem, usize), DecodeError> {
        match spec_u32(s, pos, end) {
            Ok((table, p)) => match ConstExprItem::spec_item(s, p, end) {
                Ok((offset, q)) => match spec_u32(s, q, end) {
                    Ok((n, q2)) => match spec_vec::<U32Item>(s, q2, end, n as nat) {
                        Ok((_, q3)) => Ok((Elem { table, offset, funcs_start: q2, funcs_count: n }, q3)),
                        Err(e) => Err(e),
                    },
                    Err(e) => Err(e),
                },
                Err(e) => Err(e),
            },
            Err(e) => Err(e),
        }
    }

    fn item(s: &[u8], pos: usize, end: usize) -> (r: Result<(Elem, usize), DecodeError>) {
        let (table, p) = read_u32(s, pos, end)?;
        let (offset, q) = ConstExprItem::item(s, p, end)?;
        let (n, q2) = read_u32(s, q, end)?;
        match read_vec::<U32Item>(s, q2, end, n) {
            Ok((_, q3)) => Ok((Elem { table, offset, funcs_start: q2, funcs_count: n }, q3)),
            Err(e) => Err(e),
        }
    }
}

/// A data segment: memory index, offset, vector of bytes.
pub struct DataItem;

impl Item for DataItem {
    type Out = Data;

    open spec fn within(s: Seq<u8>, x: Data, end: usize) -> bool {
        x.bytes_start + x.bytes_len <= end
    }

    proof fn lemma_within_mono(s: Seq<u8>, x: Data, e1: usize, e2: usize) {
    }

    open spec fn spec_item(s: Seq<u8>, pos: usize, end: usize) -> Result<(Data, usize), DecodeError> {
        match spec_u32(s, pos, end) {
            Ok((memory, p)) => match ConstExprItem::spec_item(s, p, end) {
                Ok((offset, q)) => match spec_u32(s, q, end) {
                    Ok((n, q2)) => if n > end - q2 {
                        Err(DecodeError::UnexpectedEnd)
                    } else {
                        Ok((Data { memory, offset, bytes_start: q2, bytes_len: n as usize }, (q2 + n) as usize))
                    },
                    Err(e) => Err(e),
                },
                Err(e) => Err(e),
            },
            Err(e) => Err(e),
        }
    }

    fn item(s: &[u8], pos: usize, end: usize) -> (r: Result<(Data, usize), DecodeError>) {
        let (memory, p) = read_u32(s, pos, end)?;
        let (offset, q) = ConstExprItem::item(s, p, end)?;
        let (n, q2) = read_u32(s, q, end)?;
        if n as usize > end - q2 {
            return Err(DecodeError::UnexpectedEnd);
        }
        Ok((Data { memory, offset, bytes_start: q2, bytes_len: n as usize }, q2 + n as usize))
    }
}

/// A local declaration: a count and a value type.
pub struct LocalsItem;

impl Item for LocalsItem {
    type Out = (u32, ValType);

    open spec fn within(s: Seq<u8>, x: (u32, ValType), end: usize) -> bool {
        true
    }

    proof fn lemma_within_mono(s: Seq<u8>, x: (u32, ValType), e1: usize, e2: usize) {
    }

    open spec fn spec_item(s: Seq<u8>, pos: usize, end: usize) -> Result<((u32, ValType), usize), DecodeError> {
        match spec_u32(s, pos, end) {
            Ok((n, p)) => match ValTypeItem::spec_item(s, p, end) {
                Ok((t, q)) => Ok(((n, t), q)),
                Err(e) => Err(e),
            },
            Err(e) => Err(e),
        }
    }

    fn item(s: &[u8], pos: usize, end: usize) -> (r: Result<((u32, ValType), usize), DecodeError>) {
        let (n, p) = read_u32(s, pos, end)?;
        let (t, q) = ValTypeItem::item(s, p, end)?;
        Ok(((n, t), q))
    }
}

/// The number of locals that a list of declarations declares.
pub open spec fn locals_total(d: Seq<(u32, ValType)>) -> int
    decreases d.len(),
{
    if d.len() == 0 {
        0
    } else {
        locals_total(d.drop_last()) + d.last().0
    }
}

proof fn lemma_locals_total_prefix(d: Seq<(u32, ValType)>, i: int)
    requires
        0 <= i <= d.len(),
    ensures
        locals_total(d.take(i)) <= locals_total(d),
    decreases d.len() - i,
{
    if i < d.len() {
        lemma_locals_total_prefix(d, i + 1);
        assert(d.take(i + 1).drop_last() =~= d.take(i));
    } else {
        assert(d.take(i) =~= d);
    }
}

/// Adds up the local declarations, or `None` once the total exceeds `u32::MAX`.
fn total_locals(d: &Vec<(u32, ValType)>) -> (r: Option<u64>)
    ensures
        match r {
            Some(t) => t as int == locals_total(d@) && t <= u32::MAX,
            None => locals_total(d@) > u32::MAX,
        },
{
    let mut acc: u64 = 0;
    let mut i: usize = 0;
    while i < d.len()
        invariant
            i <= d@.len(),
            acc as int == locals_total(d@.take(i as int)),
            acc <= u32::MAX,
        decreases d@.len() - i,
    {
        proof {
            assert(d@.take(i + 1).drop_last() =~= d@.take(i as int));
        }
        acc = acc + d[i].0 as u64;
        i = i + 1;
        if acc > 0xffff_ffff {
            proof {
                lemma_locals_total_prefix(d@, i as int);
            }
            return None;
        }
    }
    proof {
        assert(d@.take(i as int) =~= d@);
    }
    Some(acc)
}

/// A function body: its byte size, then local declarations (at most
/// `u32::MAX` locals in all) and an expression that ends exactly at the
/// end of the body.
pub struct CodeItem;

pub open spec fn spec_code_body(s: Seq<u8>, p: usize, body_end: usize) -> Result<Code, DecodeError> {
    match spec_u32(s, p, body_end) {
        Ok((n, q)) => match spec_vec::<LocalsItem>(s, q, body_end, n as nat) {
            Ok((decls, q2)) => if locals_total(decls) > u32::MAX {
                Err(DecodeError::TooManyLocals)
            } else {
                match spec_expr(s, q2, body_end, seq![frame_plain()]) {
                    Ok(q3) => if q3 != body_end {
                        Err(DecodeError::FunctionBodySizeMismatch)
                    } else {
                        Ok(Code { locals: locals_total(decls) as u64, locals_start: p, body_start: q2, body_end })
                    },
                    Err(e) => Err(e),
                }
            },
            Err(e) => Err(e),
        },
        Err(e) => Err(e),
    }
}

impl Item for CodeItem {
    type Out = Code;

    open spec fn within(s: Seq<u8>, x: Code, end: usize) -> bool {
        x.body_start <= x.body_end <= end
    }

    proof fn lemma_within_mono(s: Seq<u8>, x: Code, e1: usize, e2: usize) {
    }

    open spec fn spec_item(s: Seq<u8>, pos: usize, end: usize) -> Result<(Code, usize), DecodeError> {
        match spec_u32(s, pos, end) {
            Ok((size, p)) => if size > end - p {
                Err(DecodeError::UnexpectedEnd)
            } else {
                match spec_code_body(s, p, (p + size) as usize) {
                    Ok(c) => Ok((c, (p + size) as usize)),
                    Err(e) => Err(e),
                }
            },
            Err(e) => Err(e),
        }
    }

    fn item(s: &[u8], pos: usize, end: usize) -> (r: Result<(Code, usize), DecodeError>) {
        let (size, p) = read_u32(s, pos, end)?;
        if size as usize > end - p {
            return Err(DecodeError::UnexpectedEnd);
        }
        let body_end = p + size as usize;
        let (n, q) = read_u32(s, p, body_end)?;
        let (decls, q2) = match read_vec::<LocalsItem>(s, q, body_end, n) {
            Ok(x) => x,
            Err(e) => {
                return Err(e);
            },
        };
        let total = match total_locals(&decls) {
            Some(t) => t,
            None => {
                return Err(DecodeError::TooManyLocals);
            },
        };
        let q3 = read_expr(s, q2, body_end)?;
        if q3 != body_end {
            return Err(DecodeError::FunctionBodySizeMismatch);
        }
        Ok((Code { locals: total, locals_start: p, body_start: q2, body_end }, body_end))
    }
}

} // verus!

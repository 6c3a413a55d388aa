use vstd::prelude::*;
use crate::error::DecodeError;
use crate::leb128::{read_u32, spec_u32, lemma_u32_advances};
use crate::reader::{Item, spec_vec, read_vec, U32Item, LimitsItem, TableTypeItem};
use crate::utf8::{spec_name, read_name};
use crate::items::{FuncTypeItem, ImportItem, ExportItem, GlobalItem, ElemItem, DataItem, CodeItem};
use crate::types::{ModuleSpec, ModuleInfo, Custom, empty_module};

verus! {

/// Every byte range that the decoded module holds lies within the first
/// `len` bytes.
pub open spec fn ranges_within(s: Seq<u8>, m: ModuleSpec, len: usize) -> bool {
    &&& types_within(s, m, len)
    &&& imports_within(s, m, len)
    &&& forall|i: int| 0 <= i < m.exports.len() ==> ExportItem::within(s, #[trigger] m.exports[i], len)
    &&& forall|i: int| 0 <= i < m.elems.len() ==> ElemItem::within(s, #[trigger] m.elems[i], len)
    &&& forall|i: int| 0 <= i < m.codes.len() ==> CodeItem::within(s, #[trigger] m.codes[i], len)
    &&& forall|i: int| 0 <= i < m.datas.len() ==> DataItem::within(s, #[trigger] m.datas[i], len)
    &&& forall|i: int| 0 <= i < m.customs.len() ==> custom_within(#[trigger] m.customs[i], len)
}

/// The parameter and result ranges of the function types lie before `len`.
pub open spec fn types_within(s: Seq<u8>, m: ModuleSpec, len: usize) -> bool {
    forall|i: int| 0 <= i < m.types.len() ==> FuncTypeItem::within(s, #[trigger] m.types[i], len)
}

/// The name ranges of the imports lie before `len`.
pub open spec fn imports_within(s: Seq<u8>, m: ModuleSpec, len: usize) -> bool {
    forall|i: int| 0 <= i < m.imports.len() ==> ImportItem::within(s, #[trigger] m.imports[i], len)
}

/// A custom section's name comes before its payload, which ends before `len`.
pub open spec fn custom_within(c: Custom, len: usize) -> bool {
    c.name_start + c.name_len <= c.payload_start <= c.payload_end <= len
}

/// A section body that is a vector of items and nothing else: a `u32`
/// count, that many items, and the end of the section right after them.
pub open spec fn spec_counted<I: Item>(s: Seq<u8>, pos: usize, end: usize) -> Result<Seq<I::Out>, DecodeError> {
    match spec_u32(s, pos, end) {
        Ok((n, p)) => match spec_vec::<I>(s, p, end, n as nat) {
            Ok((xs, q)) => if q == end {
                Ok(xs)
            } else {
                Err(DecodeError::SectionSizeMismatch)
            },
            Err(e) => Err(e),
        },
        Err(e) => Err(e),
    }
}

/// Items whose ranges lie before `e1` have them before any later `e2`.
proof fn lemma_seq_within<I: Item>(s: Seq<u8>, xs: Seq<I::Out>, e1: usize, e2: usize)
    requires
        forall|k: int| 0 <= k < xs.len() ==> I::within(s, #[trigger] xs[k], e1),
        e1 <= e2,
    ensures
        forall|k: int| 0 <= k < xs.len() ==> I::within(s, #[trigger] xs[k], e2),
{
    assert forall|k: int| 0 <= k < xs.len() implies I::within(s, #[trigger] xs[k], e2) by {
        I::lemma_within_mono(s, xs[k], e1, e2);
    }
}

fn read_counted<I: Item>(s: &[u8], pos: usize, end: usize) -> (r: Result<Vec<I::Out>, DecodeError>)
    requires
        end <= s@.len(),
    ensures
        match r {
            Ok(v) => spec_counted::<I>(s@, pos, end) == Ok::<Seq<I::Out>, DecodeError>(v@),
            Err(e) => spec_counted::<I>(s@, pos, end) == Err::<Seq<I::Out>, DecodeError>(e),
        },
        r matches Ok(v) ==> forall|k: int| 0 <= k < v@.len() ==> I::within(s@, #[trigger] v@[k], end),
{
    let (n, p) = read_u32(s, pos, end)?;
    let (xs, q) = match read_vec::<I>(s, p, end, n) {
        Ok(x) => x,
        Err(e) => {
            return Err(e);
        },
    };
    if q == end {
        Ok(xs)
    } else {
        Err(DecodeError::SectionSizeMismatch)
    }
}

/// The module after the section with id `id`, whose contents are the bytes
/// `pos .. end`, is added to `m`.
#[verifier::opaque]
pub open spec fn spec_section(id: u8, s: Seq<u8>, pos: usize, end: usize, m: ModuleSpec) -> Result<ModuleSpec, DecodeError> {
    if id == 0 {
        match spec_name(s, pos, end) {
            Ok(((ns, nl), p)) => Ok(ModuleSpec {
                customs: m.customs.push(Custom { name_start: ns, name_len: nl, payload_start: p, payload_end: end }),
                ..m
            }),
            Err(e) => Err(e),
        }
    } else if id == 1 {
        match spec_counted::<FuncTypeItem>(s, pos, end) {
            Ok(xs) => Ok(ModuleSpec { types: xs, ..m }),
            Err(e) => Err(e),
        }
    } else if id == 2 {
        match spec_counted::<ImportItem>(s, pos, end) {
            Ok(xs) => Ok(ModuleSpec { imports: xs, ..m }),
            Err(e) => Err(e),
        }
    } else if id == 3 {
        match spec_counted::<U32Item>(s, pos, end) {
            Ok(xs) => Ok(ModuleSpec { funcs: xs, ..m }),
            Err(e) => Err(e),
        }
    } else if id == 4 {
        match spec_counted::<TableTypeItem>(s, pos, end) {
            Ok(xs) => Ok(ModuleSpec { tables: xs, ..m }),
            Err(e) => Err(e),
        }
    } else if id == 5 {
        match spec_counted::<LimitsItem>(s, pos, end) {
            Ok(xs) => Ok(ModuleSpec { memories: xs, ..m }),
            Err(e) => Err(e),
        }
    } else if id == 6 {
        match spec_counted::<GlobalItem>(s, pos, end) {
            Ok(xs) => Ok(ModuleSpec { globals: xs, ..m }),
            Err(e) => Err(e),
        }
    } else if id == 7 {
        match spec_counted::<ExportItem>(s, pos, end) {
            Ok(xs) => Ok(ModuleSpec { exports: xs, ..m }),
            Err(e) => Err(e),
        }
    } else if id == 8 {
        match spec_u32(s, pos, end) {
            Ok((f, p)) => if p == end {
                Ok(ModuleSpec { start: Some(f), ..m })
            } else {
                Err(DecodeError::SectionSizeMismatch)
            },
            Err(e) => Err(e),
        }
    } else if id == 9 {
        match spec_counted::<ElemItem>(s, pos, end) {
            Ok(xs) => Ok(ModuleSpec { elems: xs, ..m }),
            Err(e) => Err(e),
        }
    } else if id == 10 {
        match spec_counted::<CodeItem>(s, pos, end) {
            Ok(xs) => Ok(ModuleSpec { codes: xs, ..m }),
            Err(e) => Err(e),
        }
    } else {
        match spec_counted::<DataItem>(s, pos, end) {
            Ok(xs) => Ok(ModuleSpec { datas: xs, ..m }),
            Err(e) => Err(e),
        }
    }
}

/// What a module needs once all of its sections are read: as many
/// function bodies as declared functions.
pub open spec fn spec_finish(m: ModuleSpec) -> Result<ModuleSpec, DecodeError> {
    if m.funcs.len() != m.codes.len() {
        Err(DecodeError::FunctionCodeCountMismatch)
    } else {
        Ok(m)
    }
}

/// The sections from `pos` to `end`, added to `m`; `last` is the id of the
/// last non-custom section read so far (0 if none).
pub open spec fn spec_sections(s: Seq<u8>, pos: usize, end: usize, last: u8, m: ModuleSpec) -> Result<ModuleSpec, DecodeError>
    decreases end - pos,
{
    if pos >= end {
        spec_finish(m)
    } else {
        let id = s[pos as int];
        if id > 11 {
            Err(DecodeError::MalformedSectionId)
        } else {
            match spec_u32(s, (pos + 1) as usize, end) {
                Ok((size, p)) => if size > end - p {
                    Err(DecodeError::UnexpectedEnd)
                } else if id != 0 && id <= last {
                    Err(DecodeError::SectionOutOfOrder)
                } else {
                    match spec_section(id, s, p, (p + size) as usize, m) {
                        Ok(m2) => {
                            proof {
                                lemma_u32_advances(s, (pos + 1) as usize, end);
                            }
                            spec_sections(s, (p + size) as usize, end, if id == 0 { last } else { id }, m2)
                        },
                        Err(e) => Err(e),
                    }
                },
                Err(e) => Err(e),
            }
        }
    }
}

/// The WebAssembly binary format, version 1: the magic `\0asm`, the version
/// `1` as four little-endian bytes, then the sections.
pub open spec fn spec_decode(s: Seq<u8>) -> Result<ModuleSpec, DecodeError> {
    if s.len() < 4 || s[0] != 0x00 || s[1] != 0x61 || s[2] != 0x73 || s[3] != 0x6d {
        Err(DecodeError::MagicHeaderNotDetected)
    } else if s.len() < 8 || s[4] != 0x01 || s[5] != 0x00 || s[6] != 0x00 || s[7] != 0x00 {
        Err(DecodeError::UnknownBinaryVersion)
    } else {
        spec_sections(s, 8, s.len() as usize, 0, empty_module())
    }
}

/// Reads the section with id `id` whose contents are `pos .. end` into `m`.
fn read_section(id: u8, s: &[u8], pos: usize, end: usize, m: &mut ModuleInfo) -> (r: Result<(), DecodeError>)
    requires
        end <= s@.len(),
        pos <= end,
        id <= 11,
        ranges_within(s@, old(m)@, s@.len() as usize),
    ensures
        match r {
            Ok(()) => spec_section(id, s@, pos, end, old(m)@) == Ok::<ModuleSpec, DecodeError>(final(m)@),
            Err(e) => spec_section(id, s@, pos, end, old(m)@) == Err::<ModuleSpec, DecodeError>(e),
        },
        r is Ok ==> ranges_within(s@, final(m)@, s@.len() as usize),
{
    reveal(spec_section);
    let slen = s.len();
    if id == 0 {
        let ((ns, nl), p) = read_name(s, pos, end)?;
        let ghost before = m.customs@;
        m.customs.push(Custom { name_start: ns, name_len: nl, payload_start: p, payload_end: end });
        proof {
            assert(ns + nl == p);
            assert forall|i: int| 0 <= i < m.customs@.len() implies custom_within(#[trigger] m.customs@[i], slen) by {
                if i < before.len() {
                    assert(m.customs@[i] == before[i]);
                }
            }
        }
    } else if id == 1 {
        m.types = read_counted::<FuncTypeItem>(s, pos, end)?;
        proof {
            lemma_seq_within::<FuncTypeItem>(s@, m.types@, end, slen);
        }
    } else if id == 2 {
        m.imports = read_counted::<ImportItem>(s, pos, end)?;
        proof {
            lemma_seq_within::<ImportItem>(s@, m.imports@, end, slen);
        }
    } else if id == 3 {
        m.funcs = read_counted::<U32Item>(s, pos, end)?;
    } else if id == 4 {
        m.tables = read_counted::<TableTypeItem>(s, pos, end)?;
    } else if id == 5 {
        m.memories = read_counted::<LimitsItem>(s, pos, end)?;
    } else if id == 6 {
        m.globals = read_counted::<GlobalItem>(s, pos, end)?;
    } else if id == 7 {
        m.exports = read_counted::<ExportItem>(s, pos, end)?;
        proof {
            lemma_seq_within::<ExportItem>(s@, m.exports@, end, slen);
        }
    } else if id == 8 {
        let (f, p) = read_u32(s, pos, end)?;
        if p != end {
            return Err(DecodeError::SectionSizeMismatch);
        }
        m.start = Some(f);
    } else if id == 9 {
        m.elems = read_counted::<ElemItem>(s, pos, end)?;
        proof {
            lemma_seq_within::<ElemItem>(s@, m.elems@, end, slen);
        }
    } else if id == 10 {
        m.codes = read_counted::<CodeItem>(s, pos, end)?;
        proof {
            lemma_seq_within::<CodeItem>(s@, m.codes@, end, slen);
        }
    } else {
        m.datas = read_counted::<DataItem>(s, pos, end)?;
        proof {
            lemma_seq_within::<DataItem>(s@, m.datas@, end, slen);
        }
    }
    Ok(())
}

/// Reads the section at `pos` into `m`; returns the position after it and
/// the id of the last non-custom section read.
fn read_one_section(s: &[u8], pos: usize, end: usize, last: u8, m: &mut ModuleInfo) -> (r: Result<(usize, u8), DecodeError>)
    requires
        end == s@.len(),
        pos < end,
        ranges_within(s@, old(m)@, end),
    ensures
        match r {
            Ok((q, l)) => pos < q <= end && spec_sections(s@, pos, end, last, old(m)@) == spec_sections(s@, q, end, l, final(m)@)
                && ranges_within(s@, final(m)@, end),
            Err(e) => spec_sections(s@, pos, end, last, old(m)@) == Err::<ModuleSpec, DecodeError>(e),
        },
{
    let id = s[pos];
    if id > 11 {
        return Err(DecodeError::MalformedSectionId);
    }
    let (size, p) = read_u32(s, pos + 1, end)?;
    if size as usize > end - p {
        return Err(DecodeError::UnexpectedEnd);
    }
    if id != 0 && id <= last {
        return Err(DecodeError::SectionOutOfOrder);
    }
    let section_end = p + size as usize;
    read_section(id, s, p, section_end, m)?;
    Ok((section_end, if id != 0 { id } else { last }))
}

fn empty_info() -> (m: ModuleInfo)
    ensures
        m@ == empty_module(),
{
    ModuleInfo {
        types: Vec::new(),
        imports: Vec::new(),
        funcs: Vec::new(),
        tables: Vec::new(),
        memories: Vec::new(),
        globals: Vec::new(),
        exports: Vec::new(),
        start: None,
        elems: Vec::new(),
        codes: Vec::new(),
        datas: Vec::new(),
        customs: Vec::new(),
    }
}

/// Decodes a WebAssembly binary module.
pub fn decode(s: &[u8]) -> (r: Result<ModuleInfo, DecodeError>)
    ensures
        match r {
            Ok(m) => spec_decode(s@) == Ok::<ModuleSpec, DecodeError>(m@),
            Err(e) => spec_decode(s@) == Err::<ModuleSpec, DecodeError>(e),
        },
        r matches Ok(m) ==> ranges_within(s@, m@, s@.len() as usize),
{
    let end = s.len();
    if end < 4 || s[0] != 0x00 || s[1] != 0x61 || s[2] != 0x73 || s[3] != 0x6d {
        return Err(DecodeError::MagicHeaderNotDetected);
    }
    if end < 8 || s[4] != 0x01 || s[5] != 0x00 || s[6] != 0x00 || s[7] != 0x00 {
        return Err(DecodeError::UnknownBinaryVersion);
    }
    assert(spec_decode(s@) == spec_sections(s@, 8, s@.len() as usize, 0, empty_module()));
    let mut m = empty_info();
    let mut pos: usize = 8;
    let mut last: u8 = 0;
    while pos < end
        invariant
            end == s@.len(),
            8 <= pos <= end,
            spec_sections(s@, pos, end, last, m@) == spec_decode(s@),
            ranges_within(s@, m@, end),
        decreases end - pos,
    {
        match read_one_section(s, pos, end, last, &mut m) {
            Ok((q, l)) => {
                pos = q;
                last = l;
            },
            Err(e) => {
                return Err(e);
            },
        }
    }
    if m.funcs.len() != m.codes.len() {
        return Err(DecodeError::FunctionCodeCountMismatch);
    }
    Ok(m)
}

} // verus!

verus! {

/// A binary that does not start with the magic `\0asm` is rejected for it.
pub proof fn law_bad_magic(s: Seq<u8>)
    requires
        s.len() < 4 || s[0] != 0x00 || s[1] != 0x61 || s[2] != 0x73 || s[3] != 0x6d,
    ensures
        spec_decode(s) == Err::<ModuleSpec, DecodeError>(DecodeError::MagicHeaderNotDetected),
{
}

/// A binary with the magic but without version 1 after it is rejected for
/// its version.
pub proof fn law_bad_version(s: Seq<u8>)
    requires
        s.len() >= 4 && s[0] == 0x00 && s[1] == 0x61 && s[2] == 0x73 && s[3] == 0x6d,
        s.len() < 8 || s[4] != 0x01 || s[5] != 0x00 || s[6] != 0x00 || s[7] != 0x00,
    ensures
        spec_decode(s) == Err::<ModuleSpec, DecodeError>(DecodeError::UnknownBinaryVersion),
{
}

/// The header alone is the module with no sections.
pub proof fn law_header_only(s: Seq<u8>)
    requires
        s == seq![0x00u8, 0x61, 0x73, 0x6d, 0x01, 0x00, 0x00, 0x00],
    ensures
        spec_decode(s) == Ok::<ModuleSpec, DecodeError>(empty_module()),
{
}

proof fn lemma_sections_counts(s: Seq<u8>, pos: usize, end: usize, last: u8, m: ModuleSpec)
    ensures
        spec_sections(s, pos, end, last, m) matches Ok(m2) ==> m2.funcs.len() == m2.codes.len(),
    decreases end - pos,
{
    if pos < end {
        let id = s[pos as int];
        if id <= 11 {
            lemma_u32_advances(s, (pos + 1) as usize, end);
            if let Ok((size, p)) = spec_u32(s, (pos + 1) as usize, end) {
                if size <= end - p && !(id != 0 && id <= last) {
                    if let Ok(m2) = spec_section(id, s, p, (p + size) as usize, m) {
                        lemma_sections_counts(s, (p + size) as usize, end, if id == 0 { last } else { id }, m2);
                    }
                }
            }
        }
    }
}

/// A decoded module has a body for every declared function.
pub proof fn law_bodies_match_functions(s: Seq<u8>)
    ensures
        spec_decode(s) matches Ok(m) ==> m.funcs.len() == m.codes.len(),
{
    if s.len() >= 8 {
        lemma_sections_counts(s, 8, s.len() as usize, 0, empty_module());
    }
}

} // verus!

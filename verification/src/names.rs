use vstd::prelude::*;
use vstd::string::StringSliceAdditionalSpecFns;
use vstd::utf8::{valid_utf8, decode_utf8, encode_utf8_decode_utf8};
use crate::types::{Custom, ModuleInfo};
use crate::leb128::{spec_u32, read_u32, lemma_u32_advances};
use crate::reader::{spec_byte, read_byte};
use crate::decode::{ranges_within, custom_within};
use crate::module::{copy_range, bytes_equal};

verus! {

/// `std::str::from_utf8`: the bytes as a string slice when they are valid
/// UTF-8, and nothing when they are not. The slice's bytes are the given
/// bytes.
#[verifier::external_body]
fn str_from_utf8<'a>(v: &'a [u8]) -> (r: Option<&'a str>)
    ensures
        r is Some <==> valid_utf8(v@),
        r matches Some(t) ==> t.spec_bytes() == v@,
{
    match std::str::from_utf8(v) {
        Ok(t) => Some(t),
        Err(_) => None,
    }
}

/// The bytes of the name `name` of the custom section of names.
pub open spec fn name_section_name() -> Seq<u8> {
    seq![110u8, 97, 109, 101]
}

/// The module name that the subsections of a name section from `pos` to
/// `end` leave, starting from `name` (as the range of its bytes). Each
/// subsection is an id below 128, a `u32` size and that many bytes; the
/// module name subsection (id 0) holds a `u32` length and exactly that many
/// bytes of UTF-8, and replaces the name. Reading stops at the first
/// subsection that cannot be read.
pub open spec fn spec_name_subsections(s: Seq<u8>, pos: usize, end: usize, name: Option<(usize, usize)>) -> Option<(usize, usize)>
    decreases end - pos,
{
    if pos >= end {
        name
    } else {
        match spec_byte(s, pos, end) {
            Ok((id, p)) => if id >= 128 {
                name
            } else {
                match spec_u32(s, p, end) {
                    Ok((size, q)) => if size > end - q {
                        name
                    } else {
                        proof {
                            lemma_u32_advances(s, p, end);
                        }
                        let sub_end = (q + size) as usize;
                        if id != 0 {
                            spec_name_subsections(s, sub_end, end, name)
                        } else {
                            match spec_u32(s, q, sub_end) {
                                Ok((len, r)) => if len != sub_end - r || !valid_utf8(s.subrange(r as int, sub_end as int)) {
                                    name
                                } else {
                                    spec_name_subsections(s, sub_end, end, Some((r, len as usize)))
                                },
                                Err(_) => name,
                            }
                        }
                    },
                    Err(_) => name,
                }
            },
            Err(_) => name,
        }
    }
}

/// The module name that the custom sections named `name` give, read in order.
pub open spec fn spec_module_name_range(s: Seq<u8>, customs: Seq<Custom>) -> Option<(usize, usize)>
    decreases customs.len(),
{
    if customs.len() == 0 {
        None
    } else {
        let prev = spec_module_name_range(s, customs.drop_last());
        let c = customs.last();
        if s.subrange(c.name_start as int, c.name_start + c.name_len) == name_section_name() {
            spec_name_subsections(s, c.payload_start, c.payload_end, prev)
        } else {
            prev
        }
    }
}

/// The module name that a binary's name sections give, as characters.
pub open spec fn spec_module_name(s: Seq<u8>, customs: Seq<Custom>) -> Option<Seq<char>> {
    match spec_module_name_range(s, customs) {
        Some((r, len)) => Some(decode_utf8(s.subrange(r as int, r + len))),
        None => None,
    }
}

/// Whether a name range lies within `len` bytes and holds UTF-8.
pub open spec fn name_range_ok(s: Seq<u8>, name: Option<(usize, usize)>, len: int) -> bool {
    match name {
        Some((r, n)) => r + n <= len && valid_utf8(s.subrange(r as int, r + n)),
        None => true,
    }
}

/// Reads the subsections of a name section.
fn read_name_subsections(s: &[u8], pos0: usize, end: usize, name0: Option<(usize, usize)>) -> (r: Option<(usize, usize)>)
    requires
        end <= s@.len(),
        name_range_ok(s@, name0, s@.len() as int),
    ensures
        r == spec_name_subsections(s@, pos0, end, name0),
        name_range_ok(s@, r, s@.len() as int),
{
    let mut pos = pos0;
    let mut name = name0;
    while pos < end
        invariant
            end <= s@.len(),
            name_range_ok(s@, name, s@.len() as int),
            spec_name_subsections(s@, pos, end, name) == spec_name_subsections(s@, pos0, end, name0),
        decreases end - pos,
    {
        let (id, p) = match read_byte(s, pos, end) {
            Ok(x) => x,
            Err(_) => {
                return name;
            },
        };
        if id >= 128 {
            return name;
        }
        let (size, q) = match read_u32(s, p, end) {
            Ok(x) => x,
            Err(_) => {
                return name;
            },
        };
        if size as usize > end - q {
            return name;
        }
        let sub_end = q + size as usize;
        if id == 0 {
            let (len, r) = match read_u32(s, q, sub_end) {
                Ok(x) => x,
                Err(_) => {
                    return name;
                },
            };
            if len as usize != sub_end - r {
                return name;
            }
            let bytes = copy_range(s, r, len as usize);
            proof {
                assert(bytes@ == s@.subrange(r as int, sub_end as int));
            }
            if str_from_utf8(bytes.as_slice()).is_none() {
                return name;
            }
            name = Some((r, len as usize));
        }
        pos = sub_end;
    }
    name
}

/// Reads the module name range that a binary's name sections give.
fn read_module_name_range(s: &[u8], info: &ModuleInfo) -> (r: Option<(usize, usize)>)
    requires
        ranges_within(s@, info@, s@.len() as usize),
        s@.len() <= usize::MAX,
    ensures
        r == spec_module_name_range(s@, info@.customs),
        name_range_ok(s@, r, s@.len() as int),
{
    let wanted: Vec<u8> = vec![110u8, 97, 109, 101];
    proof {
        assert(wanted@ =~= name_section_name());
    }
    let mut name: Option<(usize, usize)> = None;
    let mut i: usize = 0;
    while i < info.customs.len()
        invariant
            ranges_within(s@, info@, s@.len() as usize),
            s@.len() <= usize::MAX,
            wanted@ == name_section_name(),
            i <= info@.customs.len(),
            name == spec_module_name_range(s@, info@.customs.take(i as int)),
            name_range_ok(s@, name, s@.len() as int),
        decreases info@.customs.len() - i,
    {
        let c = info.customs[i];
        assert(custom_within(info@.customs[i as int], s@.len() as usize));
        proof {
            assert(info@.customs.take(i + 1).drop_last() =~= info@.customs.take(i as int));
            assert(info@.customs.take(i + 1).last() == c);
        }
        if bytes_equal(s, c.name_start, c.name_len, wanted.as_slice()) {
            name = read_name_subsections(s, c.payload_start, c.payload_end, name);
        }
        i = i + 1;
    }
    proof {
        assert(info@.customs.take(i as int) =~= info@.customs);
    }
    name
}

/// The module name that a binary's name sections give, if any.
pub fn read_module_name(s: &[u8], info: &ModuleInfo) -> (r: Option<String>)
    requires
        ranges_within(s@, info@, s@.len() as usize),
        s@.len() <= usize::MAX,
    ensures
        match r {
            Some(t) => spec_module_name(s@, info@.customs) == Some(t@),
            None => spec_module_name(s@, info@.customs) is None,
        },
{
    match read_module_name_range(s, info) {
        Some((start, len)) => {
            let bytes = copy_range(s, start, len);
            match str_from_utf8(bytes.as_slice()) {
                Some(t) => {
                    let owned = t.to_owned();
                    proof {
                        encode_utf8_decode_utf8(t@);
                    }
                    Some(owned)
                },
                None => None,
            }
        },
        None => None,
    }
}

} // verus!

use vstd::prelude::*;
use crate::error::DecodeError;
use crate::leb128::{read_u32, spec_u32};

verus! {

/// Whether `b` is a UTF-8 continuation byte in `lo ..= hi`.
pub open spec fn in_range(b: u8, lo: u8, hi: u8) -> bool {
    lo <= b && b <= hi
}

/// The length of the well-formed UTF-8 encoding of one scalar value that
/// starts at `pos` and ends no later than `end`, if there is one
/// (RFC 3629, table 3-7 of the Unicode standard).
pub open spec fn utf8_char_len(s: Seq<u8>, pos: int, end: int) -> Option<int> {
    let b0 = s[pos];
    if b0 <= 0x7f {
        Some(1)
    } else if in_range(b0, 0xc2, 0xdf) {
        if pos + 2 <= end && in_range(s[pos + 1], 0x80, 0xbf) {
            Some(2)
        } else {
            None
        }
    } else if in_range(b0, 0xe0, 0xef) {
        let (lo, hi) = if b0 == 0xe0 {
            (0xa0u8, 0xbfu8)
        } else if b0 == 0xed {
            (0x80u8, 0x9fu8)
        } else {
            (0x80u8, 0xbfu8)
        };
        if pos + 3 <= end && in_range(s[pos + 1], lo, hi) && in_range(s[pos + 2], 0x80, 0xbf) {
            Some(3)
        } else {
            None
        }
    } else if in_range(b0, 0xf0, 0xf4) {
        let (lo, hi) = if b0 == 0xf0 {
            (0x90u8, 0xbfu8)
        } else if b0 == 0xf4 {
            (0x80u8, 0x8fu8)
        } else {
            (0x80u8, 0xbfu8)
        };
        if pos + 4 <= end && in_range(s[pos + 1], lo, hi) && in_range(s[pos + 2], 0x80, 0xbf)
            && in_range(s[pos + 3], 0x80, 0xbf) {
            Some(4)
        } else {
            None
        }
    } else {
        None
    }
}

/// The bytes `pos .. end` are a sequence of well-formed UTF-8 encodings.
pub open spec fn utf8_valid(s: Seq<u8>, pos: int, end: int) -> bool
    decreases end - pos,
{
    if pos >= end {
        true
    } else {
        match utf8_char_len(s, pos, end) {
            Some(k) => utf8_valid(s, pos + k, end),
            None => false,
        }
    }
}

fn char_len(s: &[u8], pos: usize, end: usize) -> (r: Option<usize>)
    requires
        pos < end <= s@.len(),
    ensures
        match r {
            Some(k) => utf8_char_len(s@, pos as int, end as int) == Some(k as int),
            None => utf8_char_len(s@, pos as int, end as int) is None,
        },
{
    let b0 = s[pos];
    if b0 <= 0x7f {
        Some(1)
    } else if 0xc2 <= b0 && b0 <= 0xdf {
        if end - pos >= 2 && 0x80 <= s[pos + 1] && s[pos + 1] <= 0xbf {
            Some(2)
        } else {
            None
        }
    } else if 0xe0 <= b0 && b0 <= 0xef {
        let (lo, hi) = if b0 == 0xe0 {
            (0xa0u8, 0xbfu8)
        } else if b0 == 0xed {
            (0x80u8, 0x9fu8)
        } else {
            (0x80u8, 0xbfu8)
        };
        if end - pos >= 3 && lo <= s[pos + 1] && s[pos + 1] <= hi && 0x80 <= s[pos + 2] && s[pos + 2] <= 0xbf {
            Some(3)
        } else {
            None
        }
    } else if 0xf0 <= b0 && b0 <= 0xf4 {
        let (lo, hi) = if b0 == 0xf0 {
            (0x90u8, 0xbfu8)
        } else if b0 == 0xf4 {
            (0x80u8, 0x8fu8)
        } else {
            (0x80u8, 0xbfu8)
        };
        if end - pos >= 4 && lo <= s[pos + 1] && s[pos + 1] <= hi && 0x80 <= s[pos + 2] && s[pos + 2] <= 0xbf
            && 0x80 <= s[pos + 3] && s[pos + 3] <= 0xbf {
            Some(4)
        } else {
            None
        }
    } else {
        None
    }
}

/// Checks that the bytes `pos .. end` are well-formed UTF-8.
pub fn check_utf8(s: &[u8], pos: usize, end: usize) -> (r: bool)
    requires
        pos <= end <= s@.len(),
    ensures
        r == utf8_valid(s@, pos as int, end as int),
{
    let mut p = pos;
    while p < end
        invariant
            pos <= p <= end <= s@.len(),
            utf8_valid(s@, p as int, end as int) == utf8_valid(s@, pos as int, end as int),
        decreases end - p,
    {
        match char_len(s, p, end) {
            Some(k) => {
                p = p + k;
            },
            None => {
                return false;
            },
        }
    }
    true
}

/// A name: a `u32` length and that many bytes of UTF-8. Yields the byte
/// range `(start, len)` of the name.
pub open spec fn spec_name(s: Seq<u8>, pos: usize, end: usize) -> Result<((usize, usize), usize), DecodeError> {
    match spec_u32(s, pos, end) {
        Ok((n, p)) => if n > end - p {
            Err(DecodeError::UnexpectedEnd)
        } else if !utf8_valid(s, p as int, p + n) {
            Err(DecodeError::MalformedUtf8)
        } else {
            Ok(((p, n as usize), (p + n) as usize))
        },
        Err(e) => Err(e),
    }
}

pub fn read_name(s: &[u8], pos: usize, end: usize) -> (r: Result<((usize, usize), usize), DecodeError>)
    requires
        end <= s@.len(),
    ensures
        r == spec_name(s@, pos, end),
        r matches Ok((_, q)) ==> pos < q <= end,
{
    let (n, p) = read_u32(s, pos, end)?;
    if n as usize > end - p {
        return Err(DecodeError::UnexpectedEnd);
    }
    let q = p + n as usize;
    if !check_utf8(s, p, q) {
        return Err(DecodeError::MalformedUtf8);
    }
    Ok(((p, n as usize), q))
}

} // verus!

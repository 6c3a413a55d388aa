use vstd::prelude::*;
use crate::error::DecodeError;

verus! {

/// Decoding of an unsigned LEB128 integer of at most `maxlen` bytes that
/// starts at `pos`, from its `i`-th byte on: `acc` is the value of the
/// bytes before it and `mult` is `128` to the power `i`. The last allowed
/// byte must be below `lastlimit` (no bits above the type's width).
pub open spec fn leb_unsigned(
    s: Seq<u8>,
    pos: usize,
    end: usize,
    i: nat,
    maxlen: nat,
    lastlimit: int,
    acc: int,
    mult: int,
) -> Result<(int, usize), DecodeError>
    decreases maxlen - i,
{
    if i >= maxlen {
        Err(DecodeError::IntegerRepresentationTooLong)
    } else if pos + i >= end {
        Err(DecodeError::UnexpectedEnd)
    } else {
        let b = s[pos + i] as int;
        if i + 1 == maxlen {
            if b >= 128 {
                Err(DecodeError::IntegerRepresentationTooLong)
            } else if b >= lastlimit {
                Err(DecodeError::IntegerTooLarge)
            } else {
                Ok((acc + b * mult, (pos + i + 1) as usize))
            }
        } else if b >= 128 {
            leb_unsigned(s, pos, end, i + 1, maxlen, lastlimit, acc + (b - 128) * mult, mult * 128)
        } else {
            Ok((acc + b * mult, (pos + i + 1) as usize))
        }
    }
}

/// The value of the final 7-bit group of a signed LEB128 integer: bit 6 is the sign.
pub open spec fn signed_group(b: int) -> int {
    if b >= 64 {
        b - 128
    } else {
        b
    }
}

/// Decoding of a signed LEB128 integer of at most `maxlen` bytes. The last
/// allowed byte must be below `lo` or at least `hi`: its bits above the
/// type's width all equal the sign bit.
pub open spec fn leb_signed(
    s: Seq<u8>,
    pos: usize,
    end: usize,
    i: nat,
    maxlen: nat,
    lo: int,
    hi: int,
    acc: int,
    mult: int,
) -> Result<(int, usize), DecodeError>
    decreases maxlen - i,
{
    if i >= maxlen {
        Err(DecodeError::IntegerRepresentationTooLong)
    } else if pos + i >= end {
        Err(DecodeError::UnexpectedEnd)
    } else {
        let b = s[pos + i] as int;
        if i + 1 == maxlen {
            if b >= 128 {
                Err(DecodeError::IntegerRepresentationTooLong)
            } else if lo <= b && b < hi {
                Err(DecodeError::IntegerTooLarge)
            } else {
                Ok((acc + signed_group(b) * mult, (pos + i + 1) as usize))
            }
        } else if b >= 128 {
            leb_signed(s, pos, end, i + 1, maxlen, lo, hi, acc + (b - 128) * mult, mult * 128)
        } else {
            Ok((acc + signed_group(b) * mult, (pos + i + 1) as usize))
        }
    }
}

/// A `u32` in unsigned LEB128 (at most 5 bytes) at `pos`, read no further than `end`.
pub open spec fn spec_u32(s: Seq<u8>, pos: usize, end: usize) -> Result<(u32, usize), DecodeError> {
    match leb_unsigned(s, pos, end, 0, 5, 16, 0, 1) {
        Ok((v, q)) => Ok((v as u32, q)),
        Err(e) => Err(e),
    }
}

/// An `i32` in signed LEB128 (at most 5 bytes) at `pos`.
pub open spec fn spec_s32(s: Seq<u8>, pos: usize, end: usize) -> Result<(i32, usize), DecodeError> {
    match leb_signed(s, pos, end, 0, 5, 8, 120, 0, 1) {
        Ok((v, q)) => Ok((v as i32, q)),
        Err(e) => Err(e),
    }
}

/// An `i64` in signed LEB128 (at most 10 bytes) at `pos`.
pub open spec fn spec_s64(s: Seq<u8>, pos: usize, end: usize) -> Result<(i64, usize), DecodeError> {
    match leb_signed(s, pos, end, 0, 10, 1, 127, 0, 1) {
        Ok((v, q)) => Ok((v as i64, q)),
        Err(e) => Err(e),
    }
}

/// Reads a `u32` in unsigned LEB128.
pub fn read_u32(s: &[u8], pos: usize, end: usize) -> (r: Result<(u32, usize), DecodeError>)
    requires
        end <= s@.len(),
    ensures
        r == spec_u32(s@, pos, end),
        r matches Ok((_, q)) ==> pos < q <= end,
{
    let mut i: usize = 0;
    let mut acc: u64 = 0;
    let mut mult: u64 = 1;
    loop
        invariant
            end <= s@.len(),
            i < 5,
            acc < mult,
            i == 0 ==> mult == 1,
            i == 1 ==> mult == 128,
            i == 2 ==> mult == 16384,
            i == 3 ==> mult == 2097152,
            i == 4 ==> mult == 268435456,
            leb_unsigned(s@, pos, end, i as nat, 5, 16, acc as int, mult as int)
                == leb_unsigned(s@, pos, end, 0, 5, 16, 0, 1),
        decreases 5 - i,
    {
        if pos >= end || end - pos <= i {
            return Err(DecodeError::UnexpectedEnd);
        }
        let b = s[pos + i];
        if i + 1 == 5 {
            if b >= 128 {
                return Err(DecodeError::IntegerRepresentationTooLong);
            } else if b >= 16 {
                return Err(DecodeError::IntegerTooLarge);
            } else {
                let v = acc + (b as u64) * mult;
                return Ok((v as u32, pos + i + 1));
            }
        } else if b >= 128 {
            proof {
                assert((b - 128) * mult <= 127 * mult) by (nonlinear_arith)
                    requires b - 128 <= 127, 0 < mult;
            }
            acc = acc + ((b - 128) as u64) * mult;
            mult = mult * 128;
            i = i + 1;
        } else {
            let v = acc + (b as u64) * mult;
            return Ok((v as u32, pos + i + 1));
        }
    }
}

/// Reads an `i32` in signed LEB128.
pub fn read_s32(s: &[u8], pos: usize, end: usize) -> (r: Result<(i32, usize), DecodeError>)
    requires
        end <= s@.len(),
    ensures
        r == spec_s32(s@, pos, end),
        r matches Ok((_, q)) ==> pos < q <= end,
{
    let mut i: usize = 0;
    let mut acc: i64 = 0;
    let mut mult: i64 = 1;
    loop
        invariant
            end <= s@.len(),
            i < 5,
            0 <= acc < mult,
            i == 0 ==> mult == 1,
            i == 1 ==> mult == 128,
            i == 2 ==> mult == 16384,
            i == 3 ==> mult == 2097152,
            i == 4 ==> mult == 268435456,
            leb_signed(s@, pos, end, i as nat, 5, 8, 120, acc as int, mult as int)
                == leb_signed(s@, pos, end, 0, 5, 8, 120, 0, 1),
        decreases 5 - i,
    {
        if pos >= end || end - pos <= i {
            return Err(DecodeError::UnexpectedEnd);
        }
        let b = s[pos + i];
        let g: i64 = if b >= 64 && b < 128 { b as i64 - 128 } else { b as i64 };
        if i + 1 == 5 {
            if b >= 128 {
                return Err(DecodeError::IntegerRepresentationTooLong);
            } else if 8 <= b && b < 120 {
                return Err(DecodeError::IntegerTooLarge);
            } else {
                let v = acc + g * mult;
                return Ok((v as i32, pos + i + 1));
            }
        } else if b >= 128 {
            proof {
                assert((b - 128) * mult <= 127 * mult) by (nonlinear_arith)
                    requires b - 128 <= 127, 0 < mult;
            }
            acc = acc + ((b - 128) as i64) * mult;
            mult = mult * 128;
            i = i + 1;
        } else {
            let v = acc + g * mult;
            return Ok((v as i32, pos + i + 1));
        }
    }
}

/// Reads an `i64` in signed LEB128.
pub fn read_s64(s: &[u8], pos: usize, end: usize) -> (r: Result<(i64, usize), DecodeError>)
    requires
        end <= s@.len(),
    ensures
        r == spec_s64(s@, pos, end),
        r matches Ok((_, q)) ==> pos < q <= end,
{
    let mut i: usize = 0;
    let mut acc: i128 = 0;
    let mut mult: i128 = 1;
    loop
        invariant
            end <= s@.len(),
            i < 10,
            0 <= acc < mult,
            i == 0 ==> mult == 1,
            i == 1 ==> mult == 0x80,
            i == 2 ==> mult == 0x4000,
            i == 3 ==> mult == 0x20_0000,
            i == 4 ==> mult == 0x1000_0000,
            i == 5 ==> mult == 0x8_0000_0000,
            i == 6 ==> mult == 0x400_0000_0000,
            i == 7 ==> mult == 0x2_0000_0000_0000,
            i == 8 ==> mult == 0x100_0000_0000_0000,
            i == 9 ==> mult == 0x8000_0000_0000_0000,
            leb_signed(s@, pos, end, i as nat, 10, 1, 127, acc as int, mult as int)
                == leb_signed(s@, pos, end, 0, 10, 1, 127, 0, 1),
        decreases 10 - i,
    {
        if pos >= end || end - pos <= i {
            return Err(DecodeError::UnexpectedEnd);
        }
        let b = s[pos + i];
        let g: i128 = if b >= 64 && b < 128 { b as i128 - 128 } else { b as i128 };
        proof {
            assert(-64 * mult <= g * mult <= 255 * mult) by (nonlinear_arith)
                requires -64 <= g <= 255, 0 < mult;
        }
        if i + 1 == 10 {
            if b >= 128 {
                return Err(DecodeError::IntegerRepresentationTooLong);
            } else if 1 <= b && b < 127 {
                return Err(DecodeError::IntegerTooLarge);
            } else {
                let v = acc + g * mult;
                return Ok((v as i64, pos + i + 1));
            }
        } else if b >= 128 {
            proof {
                assert((b - 128) * mult <= 127 * mult) by (nonlinear_arith)
                    requires b - 128 <= 127, 0 < mult;
            }
            acc = acc + ((b - 128) as i128) * mult;
            mult = mult * 128;
            i = i + 1;
        } else {
            let v = acc + g * mult;
            return Ok((v as i64, pos + i + 1));
        }
    }
}

} // verus!

verus! {

/// A successful unsigned decoding ends after its first byte and within `end`.
pub proof fn lemma_leb_unsigned_advances(
    s: Seq<u8>,
    pos: usize,
    end: usize,
    i: nat,
    maxlen: nat,
    lastlimit: int,
    acc: int,
    mult: int,
)
    ensures
        leb_unsigned(s, pos, end, i, maxlen, lastlimit, acc, mult) matches Ok((_, q)) ==> pos + i < q <= end,
    decreases maxlen - i,
{
    if i < maxlen && pos + i < end {
        let b = s[pos + i] as int;
        if i + 1 != maxlen && b >= 128 {
            lemma_leb_unsigned_advances(s, pos, end, i + 1, maxlen, lastlimit, acc + (b - 128) * mult, mult * 128);
        }
    }
}

/// A successful `u32` decoding ends after `pos` and within `end`.
pub proof fn lemma_u32_advances(s: Seq<u8>, pos: usize, end: usize)
    ensures
        spec_u32(s, pos, end) matches Ok((_, q)) ==> pos < q <= end,
{
    lemma_leb_unsigned_advances(s, pos, end, 0, 5, 16, 0, 1);
}

} // verus!

verus! {

/// A successful unsigned decoding reads nothing at or after its end
/// position, so a later bound gives the same result.
pub proof fn lemma_leb_unsigned_mono(
    s: Seq<u8>,
    pos: usize,
    e1: usize,
    e2: usize,
    i: nat,
    maxlen: nat,
    lastlimit: int,
    acc: int,
    mult: int,
)
    requires
        e1 <= e2,
        leb_unsigned(s, pos, e1, i, maxlen, lastlimit, acc, mult) is Ok,
    ensures
        leb_unsigned(s, pos, e2, i, maxlen, lastlimit, acc, mult) == leb_unsigned(s, pos, e1, i, maxlen, lastlimit, acc, mult),
    decreases maxlen - i,
{
    if i < maxlen && pos + i < e1 {
        let b = s[pos + i] as int;
        if i + 1 != maxlen && b >= 128 {
            lemma_leb_unsigned_mono(s, pos, e1, e2, i + 1, maxlen, lastlimit, acc + (b - 128) * mult, mult * 128);
        }
    }
}

/// A `u32` that decodes within a bound decodes the same within a later one.
pub proof fn lemma_u32_mono(s: Seq<u8>, pos: usize, e1: usize, e2: usize)
    requires
        e1 <= e2,
        spec_u32(s, pos, e1) is Ok,
    ensures
        spec_u32(s, pos, e2) == spec_u32(s, pos, e1),
{
    lemma_leb_unsigned_mono(s, pos, e1, e2, 0, 5, 16, 0, 1);
}

} // verus!

verus! {

proof fn lemma_u32_range(s: Seq<u8>, pos: usize, end: usize, i: nat, acc: int, mult: int)
    requires
        i < 5,
        0 <= acc < mult,
        i == 0 ==> mult == 1,
        i == 1 ==> mult == 128,
        i == 2 ==> mult == 16384,
        i == 3 ==> mult == 2097152,
        i == 4 ==> mult == 268435456,
    ensures
        leb_unsigned(s, pos, end, i, 5, 16, acc, mult) matches Ok((x, _)) ==> 0 <= x < 0x1_0000_0000,
    decreases 5 - i,
{
    if pos + i < end {
        let b = s[pos + i] as int;
        if i + 1 != 5 && b >= 128 {
            lemma_u32_range(s, pos, end, i + 1, acc + (b - 128) * mult, mult * 128);
        }
    }
}

/// A decoded `u32` is the exact value of its 7-bit groups: nothing is lost
/// in narrowing it to 32 bits.
pub proof fn law_u32_exact(s: Seq<u8>, pos: usize, end: usize)
    ensures
        spec_u32(s, pos, end) matches Ok((v, q)) ==> leb_unsigned(s, pos, end, 0, 5, 16, 0, 1) == Ok::<(int, usize), DecodeError>((v as int, q)),
{
    lemma_u32_range(s, pos, end, 0, 0, 1);
}

proof fn lemma_s32_range(s: Seq<u8>, pos: usize, end: usize, i: nat, acc: int, mult: int)
    requires
        i < 5,
        0 <= acc < mult,
        i == 0 ==> mult == 1,
        i == 1 ==> mult == 128,
        i == 2 ==> mult == 16384,
        i == 3 ==> mult == 2097152,
        i == 4 ==> mult == 268435456,
    ensures
        leb_signed(s, pos, end, i, 5, 8, 120, acc, mult) matches Ok((x, _)) ==> -0x8000_0000 <= x < 0x8000_0000,
    decreases 5 - i,
{
    if pos + i < end {
        let b = s[pos + i] as int;
        if i + 1 != 5 && b >= 128 {
            lemma_s32_range(s, pos, end, i + 1, acc + (b - 128) * mult, mult * 128);
        }
    }
}

/// A decoded `i32` is the exact value of its sign-extended 7-bit groups.
pub proof fn law_s32_exact(s: Seq<u8>, pos: usize, end: usize)
    ensures
        spec_s32(s, pos, end) matches Ok((v, q)) ==> leb_signed(s, pos, end, 0, 5, 8, 120, 0, 1) == Ok::<(int, usize), DecodeError>((v as int, q)),
{
    lemma_s32_range(s, pos, end, 0, 0, 1);
}

proof fn lemma_s64_range(s: Seq<u8>, pos: usize, end: usize, i: nat, acc: int, mult: int)
    requires
        i < 10,
        0 <= acc < mult,
        i == 0 ==> mult == 1,
        i == 1 ==> mult == 0x80,
        i == 2 ==> mult == 0x4000,
        i == 3 ==> mult == 0x20_0000,
        i == 4 ==> mult == 0x1000_0000,
        i == 5 ==> mult == 0x8_0000_0000,
        i == 6 ==> mult == 0x400_0000_0000,
        i == 7 ==> mult == 0x2_0000_0000_0000,
        i == 8 ==> mult == 0x100_0000_0000_0000,
        i == 9 ==> mult == 0x8000_0000_0000_0000,
    ensures
        leb_signed(s, pos, end, i, 10, 1, 127, acc, mult) matches Ok((x, _)) ==> -0x8000_0000_0000_0000 <= x < 0x8000_0000_0000_0000,
    decreases 10 - i,
{
    if pos + i < end {
        let b = s[pos + i] as int;
        if i + 1 != 10 && b >= 128 {
            assert(0 <= (b - 128) * mult <= 127 * mult) by (nonlinear_arith)
                requires 0 <= b - 128 <= 127, mult > 0;
            lemma_s64_range(s, pos, end, i + 1, acc + (b - 128) * mult, mult * 128);
        }
    }
}

/// A decoded `i64` is the exact value of its sign-extended 7-bit groups.
pub proof fn law_s64_exact(s: Seq<u8>, pos: usize, end: usize)
    ensures
        spec_s64(s, pos, end) matches Ok((v, q)) ==> leb_signed(s, pos, end, 0, 10, 1, 127, 0, 1) == Ok::<(int, usize), DecodeError>((v as int, q)),
{
    lemma_s64_range(s, pos, end, 0, 0, 1);
}

/// A `u32` whose first five bytes all continue is too long.
pub proof fn law_u32_too_long(s: Seq<u8>, pos: usize, end: usize)
    requires
        pos + 5 <= end,
        forall|k: int| 0 <= k < 5 ==> #[trigger] s[pos + k] >= 128,
    ensures
        spec_u32(s, pos, end) == Err::<(u32, usize), DecodeError>(DecodeError::IntegerRepresentationTooLong),
{
    assert(s[pos + 0] >= 128 && s[pos + 1] >= 128 && s[pos + 2] >= 128 && s[pos + 3] >= 128 && s[pos + 4] >= 128);
    reveal_with_fuel(leb_unsigned, 6);
}

/// A `u32` whose fifth byte is its last but sets a bit above bit 31 is too large.
pub proof fn law_u32_too_large(s: Seq<u8>, pos: usize, end: usize)
    requires
        pos + 5 <= end,
        forall|k: int| 0 <= k < 4 ==> #[trigger] s[pos + k] >= 128,
        16 <= s[pos + 4] < 128,
    ensures
        spec_u32(s, pos, end) == Err::<(u32, usize), DecodeError>(DecodeError::IntegerTooLarge),
{
    assert(s[pos + 0] >= 128 && s[pos + 1] >= 128 && s[pos + 2] >= 128 && s[pos + 3] >= 128);
    reveal_with_fuel(leb_unsigned, 6);
}

} // verus!

verus! {

/// An `i32` whose first five bytes all continue is too long.
pub proof fn law_s32_too_long(s: Seq<u8>, pos: usize, end: usize)
    requires
        pos + 5 <= end,
        forall|k: int| 0 <= k < 5 ==> #[trigger] s[pos + k] >= 128,
    ensures
        spec_s32(s, pos, end) == Err::<(i32, usize), DecodeError>(DecodeError::IntegerRepresentationTooLong),
{
    assert(s[pos + 0] >= 128 && s[pos + 1] >= 128 && s[pos + 2] >= 128 && s[pos + 3] >= 128 && s[pos + 4] >= 128);
    reveal_with_fuel(leb_signed, 6);
}

/// An `i32` whose fifth byte is its last but whose bits above bit 31 are
/// not all copies of the sign bit is too large.
pub proof fn law_s32_too_large(s: Seq<u8>, pos: usize, end: usize)
    requires
        pos + 5 <= end,
        forall|k: int| 0 <= k < 4 ==> #[trigger] s[pos + k] >= 128,
        8 <= s[pos + 4] < 120,
    ensures
        spec_s32(s, pos, end) == Err::<(i32, usize), DecodeError>(DecodeError::IntegerTooLarge),
{
    assert(s[pos + 0] >= 128 && s[pos + 1] >= 128 && s[pos + 2] >= 128 && s[pos + 3] >= 128);
    reveal_with_fuel(leb_signed, 6);
}

/// An `i64` whose first ten bytes all continue is too long.
pub proof fn law_s64_too_long(s: Seq<u8>, pos: usize, end: usize)
    requires
        pos + 10 <= end,
        forall|k: int| 0 <= k < 10 ==> #[trigger] s[pos + k] >= 128,
    ensures
        spec_s64(s, pos, end) == Err::<(i64, usize), DecodeError>(DecodeError::IntegerRepresentationTooLong),
{
    assert(s[pos + 0] >= 128 && s[pos + 1] >= 128 && s[pos + 2] >= 128 && s[pos + 3] >= 128 && s[pos + 4] >= 128);
    assert(s[pos + 5] >= 128 && s[pos + 6] >= 128 && s[pos + 7] >= 128 && s[pos + 8] >= 128 && s[pos + 9] >= 128);
    reveal_with_fuel(leb_signed, 11);
}

/// An `i64` whose tenth byte is its last but whose bits above bit 63 are
/// not all copies of the sign bit is too large.
pub proof fn law_s64_too_large(s: Seq<u8>, pos: usize, end: usize)
    requires
        pos + 10 <= end,
        forall|k: int| 0 <= k < 9 ==> #[trigger] s[pos + k] >= 128,
        1 <= s[pos + 9] < 127,
    ensures
        spec_s64(s, pos, end) == Err::<(i64, usize), DecodeError>(DecodeError::IntegerTooLarge),
{
    assert(s[pos + 0] >= 128 && s[pos + 1] >= 128 && s[pos + 2] >= 128 && s[pos + 3] >= 128 && s[pos + 4] >= 128);
    assert(s[pos + 5] >= 128 && s[pos + 6] >= 128 && s[pos + 7] >= 128 && s[pos + 8] >= 128);
    reveal_with_fuel(leb_signed, 11);
}

} // verus!

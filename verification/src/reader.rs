use vstd::prelude::*;
use crate::error::DecodeError;
use crate::leb128::{read_u32, read_s32, read_s64, spec_u32, spec_s32, spec_s64, lemma_u32_mono};
use crate::types::{ValType, Limits, TableType, GlobalType, ConstExpr};

verus! {

/// An item of the binary format that can be decoded on its own at a
/// position, reading no further than `end`.
pub trait Item: Sized {
    type Out;

    spec fn spec_item(s: Seq<u8>, pos: usize, end: usize) -> Result<(Self::Out, usize), DecodeError>;

    /// The byte ranges that a decoded item holds lie before `end`.
    spec fn within(s: Seq<u8>, x: Self::Out, end: usize) -> bool;

    /// The ranges that lie before `e1` lie before any later `e2`.
    proof fn lemma_within_mono(s: Seq<u8>, x: Self::Out, e1: usize, e2: usize)
        requires
            Self::within(s, x, e1),
            e1 <= e2,
        ensures
            Self::within(s, x, e2);

    fn item(s: &[u8], pos: usize, end: usize) -> (r: Result<(Self::Out, usize), DecodeError>)
        requires
            end <= s@.len(),
        ensures
            r == Self::spec_item(s@, pos, end),
            r matches Ok((_, q)) ==> pos < q <= end,
            r matches Ok((x, _)) ==> Self::within(s@, x, end);
}

/// `n` items one after the other, starting at `pos`.
pub open spec fn spec_vec<I: Item>(s: Seq<u8>, pos: usize, end: usize, n: nat) -> Result<(Seq<I::Out>, usize), DecodeError>
    decreases n,
{
    if n == 0 {
        Ok((Seq::empty(), pos))
    } else {
        match spec_vec::<I>(s, pos, end, (n - 1) as nat) {
            Ok((xs, p)) => match I::spec_item(s, p, end) {
                Ok((x, q)) => Ok((xs.push(x), q)),
                Err(e) => Err(e),
            },
            Err(e) => Err(e),
        }
    }
}

/// Once a prefix of the items fails, the whole sequence fails the same way.
pub proof fn lemma_vec_err<I: Item>(s: Seq<u8>, pos: usize, end: usize, i: nat, n: nat)
    requires
        i <= n,
        spec_vec::<I>(s, pos, end, i) is Err,
    ensures
        spec_vec::<I>(s, pos, end, n) == spec_vec::<I>(s, pos, end, i),
    decreases n - i,
{
    if i < n {
        lemma_vec_err::<I>(s, pos, end, i, (n - 1) as nat);
    }
}

/// The result of `read_vec` agrees with `spec_vec`.
pub open spec fn vec_matches<T>(r: Result<(Vec<T>, usize), DecodeError>, spec: Result<(Seq<T>, usize), DecodeError>) -> bool {
    match r {
        Ok((v, q)) => spec == Ok::<(Seq<T>, usize), DecodeError>((v@, q)),
        Err(e) => spec == Err::<(Seq<T>, usize), DecodeError>(e),
    }
}

/// Reads `n` items one after the other.
pub fn read_vec<I: Item>(s: &[u8], pos: usize, end: usize, n: u32) -> (r: Result<(Vec<I::Out>, usize), DecodeError>)
    requires
        end <= s@.len(),
        pos <= end,
    ensures
        vec_matches(r, spec_vec::<I>(s@, pos, end, n as nat)),
        r matches Ok((v, q)) ==> pos <= q <= end && v@.len() == n,
        r matches Ok((v, _)) ==> forall|k: int| 0 <= k < v@.len() ==> I::within(s@, #[trigger] v@[k], end),
{
    let mut items: Vec<I::Out> = Vec::new();
    let mut p = pos;
    let mut i: u32 = 0;
    while i < n
        invariant
            end <= s@.len(),
            pos <= p <= end,
            i <= n,
            items@.len() == i,
            forall|k: int| 0 <= k < items@.len() ==> I::within(s@, #[trigger] items@[k], end),
            spec_vec::<I>(s@, pos, end, i as nat) == Ok::<(Seq<I::Out>, usize), DecodeError>((items@, p)),
        decreases n - i,
    {
        match I::item(s, p, end) {
            Ok((x, q)) => {
                items.push(x);
                p = q;
                i = i + 1;
            },
            Err(e) => {
                proof {
                    lemma_vec_err::<I>(s@, pos, end, (i + 1) as nat, n as nat);
                }
                return Err(e);
            },
        }
    }
    Ok((items, p))
}

/// One byte.
pub open spec fn spec_byte(s: Seq<u8>, pos: usize, end: usize) -> Result<(u8, usize), DecodeError> {
    if pos < end {
        Ok((s[pos as int], (pos + 1) as usize))
    } else {
        Err(DecodeError::UnexpectedEnd)
    }
}

pub fn read_byte(s: &[u8], pos: usize, end: usize) -> (r: Result<(u8, usize), DecodeError>)
    requires
        end <= s@.len(),
    ensures
        r == spec_byte(s@, pos, end),
        r matches Ok((_, q)) ==> pos < q <= end,
{
    if pos < end {
        Ok((s[pos], pos + 1))
    } else {
        Err(DecodeError::UnexpectedEnd)
    }
}

/// The value type that a byte encodes, if any.
pub open spec fn valtype_of(b: u8) -> Option<ValType> {
    if b == 0x7f {
        Some(ValType::I32)
    } else if b == 0x7e {
        Some(ValType::I64)
    } else if b == 0x7d {
        Some(ValType::F32)
    } else if b == 0x7c {
        Some(ValType::F64)
    } else {
        None
    }
}

pub fn valtype_from_byte(b: u8) -> (r: Option<ValType>)
    ensures
        r == valtype_of(b),
{
    if b == 0x7f {
        Some(ValType::I32)
    } else if b == 0x7e {
        Some(ValType::I64)
    } else if b == 0x7d {
        Some(ValType::F32)
    } else if b == 0x7c {
        Some(ValType::F64)
    } else {
        None
    }
}

/// A value type.
pub struct ValTypeItem;

impl Item for ValTypeItem {
    type Out = ValType;

    open spec fn within(s: Seq<u8>, x: ValType, end: usize) -> bool {
        true
    }

    proof fn lemma_within_mono(s: Seq<u8>, x: ValType, e1: usize, e2: usize) {
    }

    open spec fn spec_item(s: Seq<u8>, pos: usize, end: usize) -> Result<(ValType, usize), DecodeError> {
        match spec_byte(s, pos, end) {
            Ok((b, p)) => match valtype_of(b) {
                Some(t) => Ok((t, p)),
                None => Err(DecodeError::MalformedValueType),
            },
            Err(e) => Err(e),
        }
    }

    fn item(s: &[u8], pos: usize, end: usize) -> (r: Result<(ValType, usize), DecodeError>) {
        let (b, p) = read_byte(s, pos, end)?;
        match valtype_from_byte(b) {
            Some(t) => Ok((t, p)),
            None => Err(DecodeError::MalformedValueType),
        }
    }
}

/// A `u32` in LEB128, as an item of a vector.
pub struct U32Item;

impl Item for U32Item {
    type Out = u32;

    open spec fn within(s: Seq<u8>, x: u32, end: usize) -> bool {
        true
    }

    proof fn lemma_within_mono(s: Seq<u8>, x: u32, e1: usize, e2: usize) {
    }

    open spec fn spec_item(s: Seq<u8>, pos: usize, end: usize) -> Result<(u32, usize), DecodeError> {
        spec_u32(s, pos, end)
    }

    fn item(s: &[u8], pos: usize, end: usize) -> (r: Result<(u32, usize), DecodeError>) {
        read_u32(s, pos, end)
    }
}

/// `n` indices that decode within a bound decode the same within a later one.
pub proof fn lemma_vec_u32_mono(s: Seq<u8>, pos: usize, e1: usize, e2: usize, n: nat)
    requires
        e1 <= e2,
        spec_vec::<U32Item>(s, pos, e1, n) is Ok,
    ensures
        spec_vec::<U32Item>(s, pos, e2, n) == spec_vec::<U32Item>(s, pos, e1, n),
    decreases n,
{
    if n > 0 {
        if spec_vec::<U32Item>(s, pos, e1, (n - 1) as nat) is Err {
            assert(spec_vec::<U32Item>(s, pos, e1, n) is Err);
        }
        lemma_vec_u32_mono(s, pos, e1, e2, (n - 1) as nat);
        let (_, p) = spec_vec::<U32Item>(s, pos, e1, (n - 1) as nat)->Ok_0;
        lemma_u32_mono(s, p, e1, e2);
    }
}

/// Limits: flag 0 is a minimum alone, flag 1 a minimum and a maximum.
pub struct LimitsItem;

impl Item for LimitsItem {
    type Out = Limits;

    open spec fn within(s: Seq<u8>, x: Limits, end: usize) -> bool {
        true
    }

    proof fn lemma_within_mono(s: Seq<u8>, x: Limits, e1: usize, e2: usize) {
    }

    open spec fn spec_item(s: Seq<u8>, pos: usize, end: usize) -> Result<(Limits, usize), DecodeError> {
        match spec_byte(s, pos, end) {
            Ok((flag, p)) => if flag == 0 {
                match spec_u32(s, p, end) {
                    Ok((min, q)) => Ok((Limits { min, max: None }, q)),
                    Err(e) => Err(e),
                }
            } else if flag == 1 {
                match spec_u32(s, p, end) {
                    Ok((min, q)) => match spec_u32(s, q, end) {
                        Ok((max, q2)) => Ok((Limits { min, max: Some(max) }, q2)),
                        Err(e) => Err(e),
                    },
                    Err(e) => Err(e),
                }
            } else {
                Err(DecodeError::MalformedLimitsFlag)
            },
            Err(e) => Err(e),
        }
    }

    fn item(s: &[u8], pos: usize, end: usize) -> (r: Result<(Limits, usize), DecodeError>) {
        let (flag, p) = read_byte(s, pos, end)?;
        if flag == 0 {
            let (min, q) = read_u32(s, p, end)?;
            Ok((Limits { min, max: None }, q))
        } else if flag == 1 {
            let (min, q) = read_u32(s, p, end)?;
            let (max, q2) = read_u32(s, q, end)?;
            Ok((Limits { min, max: Some(max) }, q2))
        } else {
            Err(DecodeError::MalformedLimitsFlag)
        }
    }
}

/// A table type: the element type `funcref` (`0x70`) and limits.
pub struct TableTypeItem;

impl Item for TableTypeItem {
    type Out = TableType;

    open spec fn within(s: Seq<u8>, x: TableType, end: usize) -> bool {
        true
    }

    proof fn lemma_within_mono(s: Seq<u8>, x: TableType, e1: usize, e2: usize) {
    }

    open spec fn spec_item(s: Seq<u8>, pos: usize, end: usize) -> Result<(TableType, usize), DecodeError> {
        match spec_byte(s, pos, end) {
            Ok((et, p)) => if et != 0x70 {
                Err(DecodeError::MalformedElementType)
            } else {
                match LimitsItem::spec_item(s, p, end) {
                    Ok((limits, q)) => Ok((TableType { limits }, q)),
                    Err(e) => Err(e),
                }
            },
            Err(e) => Err(e),
        }
    }

    fn item(s: &[u8], pos: usize, end: usize) -> (r: Result<(TableType, usize), DecodeError>) {
        let (et, p) = read_byte(s, pos, end)?;
        if et != 0x70 {
            return Err(DecodeError::MalformedElementType);
        }
        let (limits, q) = LimitsItem::item(s, p, end)?;
        Ok((TableType { limits }, q))
    }
}

/// A global type: a value type and a mutability flag (0 or 1).
pub struct GlobalTypeItem;

impl Item for GlobalTypeItem {
    type Out = GlobalType;

    open spec fn within(s: Seq<u8>, x: GlobalType, end: usize) -> bool {
        true
    }

    proof fn lemma_within_mono(s: Seq<u8>, x: GlobalType, e1: usize, e2: usize) {
    }

    open spec fn spec_item(s: Seq<u8>, pos: usize, end: usize) -> Result<(GlobalType, usize), DecodeError> {
        match ValTypeItem::spec_item(s, pos, end) {
            Ok((content, p)) => match spec_byte(s, p, end) {
                Ok((m, q)) => if m == 0 {
                    Ok((GlobalType { content, mutable: false }, q))
                } else if m == 1 {
                    Ok((GlobalType { content, mutable: true }, q))
                } else {
                    Err(DecodeError::MalformedMutability)
                },
                Err(e) => Err(e),
            },
            Err(e) => Err(e),
        }
    }

    fn item(s: &[u8], pos: usize, end: usize) -> (r: Result<(GlobalType, usize), DecodeError>) {
        let (content, p) = ValTypeItem::item(s, pos, end)?;
        let (m, q) = read_byte(s, p, end)?;
        if m == 0 {
            Ok((GlobalType { content, mutable: false }, q))
        } else if m == 1 {
            Ok((GlobalType { content, mutable: true }, q))
        } else {
            Err(DecodeError::MalformedMutability)
        }
    }
}

/// The little-endian value of the `n` bytes at `pos`.
pub open spec fn le_value(s: Seq<u8>, pos: int, n: nat) -> int
    decreases n,
{
    if n == 0 {
        0
    } else {
        s[pos] as int + 256 * le_value(s, pos + 1, (n - 1) as nat)
    }
}

/// `n` raw bytes (4 or 8) read as a little-endian integer.
pub open spec fn spec_fixed(s: Seq<u8>, pos: usize, end: usize, n: nat) -> Result<(int, usize), DecodeError> {
    if pos + n <= end {
        Ok((le_value(s, pos as int, n), (pos + n) as usize))
    } else {
        Err(DecodeError::UnexpectedEnd)
    }
}

/// Reads `n` (at most 8) bytes as a little-endian integer.
pub fn read_fixed(s: &[u8], pos: usize, end: usize, n: usize) -> (r: Result<(u64, usize), DecodeError>)
    requires
        end <= s@.len(),
        n <= 8,
    ensures
        match r {
            Ok((v, q)) => spec_fixed(s@, pos, end, n as nat) == Ok::<(int, usize), DecodeError>((v as int, q)),
            Err(e) => spec_fixed(s@, pos, end, n as nat) == Err::<(int, usize), DecodeError>(e),
        },
        r matches Ok((_, q)) ==> q <= end,
{
    if pos > end || end - pos < n {
        return Err(DecodeError::UnexpectedEnd);
    }
    let mut v: u64 = 0;
    let mut k: usize = n;
    proof {
        assert(le_value(s@, pos + n, 0) == 0);
    }
    while k > 0
        invariant
            end <= s@.len(),
            pos + n <= end,
            n <= 8,
            k <= n,
            v as int == le_value(s@, (pos + k) as int, (n - k) as nat),
            v < pow256((n - k) as nat),
            pow256((n - k) as nat) <= 0x1_0000_0000_0000_0000,
        decreases k,
    {
        k = k - 1;
        let b = s[pos + k];
        proof {
            lemma_pow256_bound((n - k) as nat);
            assert(v * 256 + b < pow256((n - k) as nat)) by (nonlinear_arith)
                requires v < pow256((n - k - 1) as nat), b < 256, pow256((n - k) as nat) == 256 * pow256((n - k - 1) as nat);
        }
        v = (b as u64) + 256 * v;
    }
    Ok((v, pos + n))
}

/// `256` to the power `n`.
pub open spec fn pow256(n: nat) -> int
    decreases n,
{
    if n == 0 {
        1
    } else {
        256 * pow256((n - 1) as nat)
    }
}

pub proof fn lemma_pow256_bound(n: nat)
    requires
        n <= 8,
    ensures
        pow256(n) <= 0x1_0000_0000_0000_0000,
        n > 0 ==> pow256(n) == 256 * pow256((n - 1) as nat),
        pow256(n) > 0,
{
    reveal_with_fuel(pow256, 9);
}

/// A constant initializer: one of `i32.const`, `i64.const`, `f32.const`,
/// `f64.const` or `global.get`, followed by `end`.
pub struct ConstExprItem;

pub open spec fn spec_const_body(s: Seq<u8>, pos: usize, end: usize) -> Result<(ConstExpr, usize), DecodeError> {
    match spec_byte(s, pos, end) {
        Ok((op, p)) => if op == 0x41 {
            match spec_s32(s, p, end) {
                Ok((v, q)) => Ok((ConstExpr::I32(v), q)),
                Err(e) => Err(e),
            }
        } else if op == 0x42 {
            match spec_s64(s, p, end) {
                Ok((v, q)) => Ok((ConstExpr::I64(v), q)),
                Err(e) => Err(e),
            }
        } else if op == 0x43 {
            match spec_fixed(s, p, end, 4) {
                Ok((v, q)) => Ok((ConstExpr::F32(v as u32), q)),
                Err(e) => Err(e),
            }
        } else if op == 0x44 {
            match spec_fixed(s, p, end, 8) {
                Ok((v, q)) => Ok((ConstExpr::F64(v as u64), q)),
                Err(e) => Err(e),
            }
        } else if op == 0x23 {
            match spec_u32(s, p, end) {
                Ok((v, q)) => Ok((ConstExpr::GlobalGet(v), q)),
                Err(e) => Err(e),
            }
        } else {
            Err(DecodeError::ConstantExpressionRequired)
        },
        Err(e) => Err(e),
    }
}

impl Item for ConstExprItem {
    type Out = ConstExpr;

    open spec fn within(s: Seq<u8>, x: ConstExpr, end: usize) -> bool {
        true
    }

    proof fn lemma_within_mono(s: Seq<u8>, x: ConstExpr, e1: usize, e2: usize) {
    }

    open spec fn spec_item(s: Seq<u8>, pos: usize, end: usize) -> Result<(ConstExpr, usize), DecodeError> {
        match spec_const_body(s, pos, end) {
            Ok((c, p)) => match spec_byte(s, p, end) {
                Ok((b, q)) => if b == 0x0b {
                    Ok((c, q))
                } else {
                    Err(DecodeError::ConstantExpressionRequired)
                },
                Err(e) => Err(e),
            },
            Err(e) => Err(e),
        }
    }

    fn item(s: &[u8], pos: usize, end: usize) -> (r: Result<(ConstExpr, usize), DecodeError>) {
        let (c, p) = read_const_body(s, pos, end)?;
        let (b, q) = read_byte(s, p, end)?;
        if b == 0x0b {
            Ok((c, q))
        } else {
            Err(DecodeError::ConstantExpressionRequired)
        }
    }
}

fn read_const_body(s: &[u8], pos: usize, end: usize) -> (r: Result<(ConstExpr, usize), DecodeError>)
    requires
        end <= s@.len(),
    ensures
        r == spec_const_body(s@, pos, end),
        r matches Ok((_, q)) ==> pos < q <= end,
{
    let (op, p) = read_byte(s, pos, end)?;
    if op == 0x41 {
        let (v, q) = read_s32(s, p, end)?;
        Ok((ConstExpr::I32(v), q))
    } else if op == 0x42 {
        let (v, q) = read_s64(s, p, end)?;
        Ok((ConstExpr::I64(v), q))
    } else if op == 0x43 {
        let (v, q) = read_fixed(s, p, end, 4)?;
        Ok((ConstExpr::F32(v as u32), q))
    } else if op == 0x44 {
        let (v, q) = read_fixed(s, p, end, 8)?;
        Ok((ConstExpr::F64(v), q))
    } else if op == 0x23 {
        let (v, q) = read_u32(s, p, end)?;
        Ok((ConstExpr::GlobalGet(v), q))
    } else {
        Err(DecodeError::ConstantExpressionRequired)
    }
}

} // verus!

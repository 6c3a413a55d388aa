use vstd::prelude::*;
use crate::types::{ValType, GlobalType};
use crate::error::DecodeError;
use crate::leb128::{spec_u32, read_u32, spec_s32, read_s32, spec_s64, read_s64};
use crate::reader::{spec_byte, read_byte, valtype_of, valtype_from_byte, spec_vec, read_vec, U32Item, spec_fixed, read_fixed};
use crate::instr::{spec_zero_byte, read_zero_byte};

verus! {

/// An open block while a function body is checked. `kind` is 0 for the
/// function itself, 1 for a block, 2 for a loop, 3 for an `if` before its
/// `else` and 4 for an `if` after it; `out` is a block's result type (the
/// function's results are known apart); `height` is the number of operands
/// below the block; `unreachable` tells whether the rest of the block can
/// be reached.
#[derive(Debug, Clone, Copy, PartialEq, Eq, Structural)]
pub struct Frame {
    pub kind: u8,
    pub out: Option<ValType>,
    pub height: usize,
    pub unreachable: bool,
}

/// The result types of a block type, as a sequence.
pub open spec fn out_types(out: Option<ValType>) -> Seq<ValType> {
    match out {
        Some(t) => seq![t],
        None => Seq::empty(),
    }
}

/// The types a block leaves when it ends.
pub open spec fn end_types(results: Seq<ValType>, f: Frame) -> Seq<ValType> {
    if f.kind == 0 {
        results
    } else {
        out_types(f.out)
    }
}

/// The types a branch to a block carries: none for a loop, else the types
/// it ends with.
pub open spec fn label_types(results: Seq<ValType>, f: Frame) -> Seq<ValType> {
    if f.kind == 2 {
        Seq::empty()
    } else {
        end_types(results, f)
    }
}

/// The operand types as known operands.
pub open spec fn known(ts: Seq<ValType>) -> Seq<Option<ValType>> {
    ts.map_values(|t: ValType| Some(t))
}

/// Pops an operand of the innermost block: an unknown one when the block
/// cannot be reached and has none left; nothing when it can and has none.
pub open spec fn spec_pop(opds: Seq<Option<ValType>>, ctrls: Seq<Frame>) -> Option<(Option<ValType>, Seq<Option<ValType>>)> {
    let f = ctrls.last();
    if opds.len() <= f.height {
        if f.unreachable {
            Some((None, opds))
        } else {
            None
        }
    } else {
        Some((opds.last(), opds.drop_last()))
    }
}

/// Pops an operand that must be of type `t` (or unknown).
pub open spec fn spec_pop_expect(opds: Seq<Option<ValType>>, ctrls: Seq<Frame>, t: ValType) -> Option<Seq<Option<ValType>>> {
    match spec_pop(opds, ctrls) {
        Some((a, rest)) => if a matches Some(x) && x != t {
            None
        } else {
            Some(rest)
        },
        None => None,
    }
}

/// Pops operands of the types `ts`, the last one first.
pub open spec fn spec_pop_vals(opds: Seq<Option<ValType>>, ctrls: Seq<Frame>, ts: Seq<ValType>) -> Option<Seq<Option<ValType>>>
    decreases ts.len(),
{
    if ts.len() == 0 {
        Some(opds)
    } else {
        match spec_pop_expect(opds, ctrls, ts.last()) {
            Some(rest) => spec_pop_vals(rest, ctrls, ts.drop_last()),
            None => None,
        }
    }
}

/// Marks the rest of the innermost block unreachable and drops its operands.
pub open spec fn spec_unreachable(opds: Seq<Option<ValType>>, ctrls: Seq<Frame>) -> (Seq<Option<ValType>>, Seq<Frame>) {
    let f = ctrls.last();
    (
        if f.height < opds.len() { opds.take(f.height as int) } else { opds },
        ctrls.update(ctrls.len() - 1, Frame { unreachable: true, ..f }),
    )
}

/// Pops one operand.
pub fn pop(opds: &mut Vec<Option<ValType>>, ctrls: &Vec<Frame>) -> (r: Option<Option<ValType>>)
    requires
        ctrls@.len() > 0,
    ensures
        match spec_pop(old(opds)@, ctrls@) {
            Some((a, rest)) => r == Some(a) && final(opds)@ == rest,
            None => r is None,
        },
{
    let f = ctrls[ctrls.len() - 1];
    if opds.len() <= f.height {
        if f.unreachable {
            Some(None)
        } else {
            None
        }
    } else {
        let a = opds.pop();
        match a {
            Some(x) => Some(x),
            None => None,
        }
    }
}

/// Pops one operand of type `t`; `false` when there is none to pop or it
/// is of another type.
pub fn pop_expect(opds: &mut Vec<Option<ValType>>, ctrls: &Vec<Frame>, t: ValType) -> (r: bool)
    requires
        ctrls@.len() > 0,
    ensures
        match spec_pop_expect(old(opds)@, ctrls@, t) {
            Some(rest) => r && final(opds)@ == rest,
            None => !r,
        },
{
    match pop(opds, ctrls) {
        Some(a) => match a {
            Some(x) => x == t,
            None => true,
        },
        None => false,
    }
}

/// Pops operands of the types `ts`, the last one first.
pub fn pop_vals(opds: &mut Vec<Option<ValType>>, ctrls: &Vec<Frame>, ts: &Vec<ValType>) -> (r: bool)
    requires
        ctrls@.len() > 0,
    ensures
        match spec_pop_vals(old(opds)@, ctrls@, ts@) {
            Some(rest) => r && final(opds)@ == rest,
            None => !r,
        },
{
    let mut k: usize = ts.len();
    proof {
        assert(ts@.take(k as int) =~= ts@);
    }
    while k > 0
        invariant
            ctrls@.len() > 0,
            k <= ts@.len(),
            spec_pop_vals(old(opds)@, ctrls@, ts@) == spec_pop_vals(opds@, ctrls@, ts@.take(k as int)),
        decreases k,
    {
        let ghost before = opds@;
        proof {
            assert(ts@.take(k as int).drop_last() =~= ts@.take(k - 1));
            assert(ts@.take(k as int).last() == ts@[k - 1]);
        }
        if !pop_expect(opds, ctrls, ts[k - 1]) {
            return false;
        }
        k = k - 1;
    }
    true
}

/// Pushes operands of the types `ts`.
pub fn push_vals(opds: &mut Vec<Option<ValType>>, ts: &Vec<ValType>)
    ensures
        final(opds)@ == old(opds)@ + known(ts@),
{
    let mut k: usize = 0;
    while k < ts.len()
        invariant
            k <= ts@.len(),
            opds@ == old(opds)@ + known(ts@.take(k as int)),
        decreases ts@.len() - k,
    {
        opds.push(Some(ts[k]));
        k = k + 1;
        proof {
            assert(old(opds)@ + known(ts@.take(k as int)) =~= (old(opds)@ + known(ts@.take(k - 1))).push(Some(ts@[k - 1])));
        }
    }
    proof {
        assert(ts@.take(k as int) =~= ts@);
    }
}

/// Marks the rest of the innermost block unreachable.
pub fn set_unreachable(opds: &mut Vec<Option<ValType>>, ctrls: &mut Vec<Frame>)
    requires
        old(ctrls)@.len() > 0,
    ensures
        (final(opds)@, final(ctrls)@) == spec_unreachable(old(opds)@, old(ctrls)@),
{
    let last = ctrls.len() - 1;
    let f = ctrls[last];
    if f.height < opds.len() {
        opds.truncate(f.height);
        proof {
            assert(opds@ =~= old(opds)@.take(f.height as int));
        }
    }
    ctrls.set(last, Frame { unreachable: true, ..f });
}

} // verus!

verus! {

/// What a function body is checked against: the parameter and result
/// types of each type of the module, the type index of each function, the
/// types of the globals, whether there is a memory and a table, and the
/// body's parameters, local declarations and results.
pub struct BodyEnv {
    pub sigs: Seq<(Seq<ValType>, Seq<ValType>)>,
    pub funcs: Seq<u32>,
    pub globals: Seq<GlobalType>,
    pub has_memory: bool,
    pub has_table: bool,
    pub params: Seq<ValType>,
    pub decls: Seq<(u32, ValType)>,
    pub results: Seq<ValType>,
}

/// The type of the `k`-th declared local.
pub open spec fn decl_type(decls: Seq<(u32, ValType)>, k: int) -> Option<ValType>
    decreases decls.len(),
{
    if decls.len() == 0 || k < 0 {
        None
    } else if k < decls[0].0 {
        Some(decls[0].1)
    } else {
        decl_type(decls.drop_first(), k - decls[0].0)
    }
}

/// The type of local `x`: the parameters come first.
pub open spec fn local_type(env: BodyEnv, x: u32) -> Option<ValType> {
    if x < env.params.len() {
        Some(env.params[x as int])
    } else {
        decl_type(env.decls, x - env.params.len())
    }
}

/// Ends the innermost block: its results must be exactly what is left of
/// its operands, and an `if` without `else` may give none.
pub open spec fn spec_end(results: Seq<ValType>, opds: Seq<Option<ValType>>, ctrls: Seq<Frame>) -> Option<(Seq<Option<ValType>>, Seq<Frame>)> {
    let f = ctrls.last();
    if f.kind == 3 && f.out is Some {
        None
    } else {
        match spec_pop_vals(opds, ctrls, end_types(results, f)) {
            Some(rest) => if rest.len() != f.height {
                None
            } else {
                Some((rest + known(end_types(results, f)), ctrls.drop_last()))
            },
            None => None,
        }
    }
}

/// Starts the `else` of the innermost block, which must be an `if` whose
/// results are exactly what is left of its operands.
pub open spec fn spec_else(results: Seq<ValType>, opds: Seq<Option<ValType>>, ctrls: Seq<Frame>) -> Option<(Seq<Option<ValType>>, Seq<Frame>)> {
    let f = ctrls.last();
    if f.kind != 3 {
        None
    } else {
        match spec_pop_vals(opds, ctrls, end_types(results, f)) {
            Some(rest) => if rest.len() != f.height {
                None
            } else {
                Some((rest, ctrls.update(ctrls.len() - 1, Frame { kind: 4, out: f.out, height: f.height, unreachable: false })))
            },
            None => None,
        }
    }
}

/// The block that label `l` names, counting outwards from the innermost.
pub open spec fn label_frame(ctrls: Seq<Frame>, l: u32) -> Option<Frame> {
    if l < ctrls.len() {
        Some(ctrls[ctrls.len() - 1 - l])
    } else {
        None
    }
}

/// Ends the innermost block.
fn end_block(results: &Vec<ValType>, opds: &mut Vec<Option<ValType>>, ctrls: &mut Vec<Frame>) -> (r: bool)
    requires
        old(ctrls)@.len() > 0,
    ensures
        match spec_end(results@, old(opds)@, old(ctrls)@) {
            Some((o, c)) => r && final(opds)@ == o && final(ctrls)@ == c,
            None => !r,
        },
{
    let f = ctrls[ctrls.len() - 1];
    if f.kind == 3 && f.out.is_some() {
        return false;
    }
    let ends = end_types_of(results, f);
    if !pop_vals(opds, ctrls, &ends) {
        return false;
    }
    if opds.len() != f.height {
        return false;
    }
    push_vals(opds, &ends);
    ctrls.pop();
    true
}

/// Starts the `else` of the innermost block.
fn else_block(results: &Vec<ValType>, opds: &mut Vec<Option<ValType>>, ctrls: &mut Vec<Frame>) -> (r: bool)
    requires
        old(ctrls)@.len() > 0,
    ensures
        match spec_else(results@, old(opds)@, old(ctrls)@) {
            Some((o, c)) => r && final(opds)@ == o && final(ctrls)@ == c,
            None => !r,
        },
{
    let last = ctrls.len() - 1;
    let f = ctrls[last];
    if f.kind != 3 {
        return false;
    }
    let ends = end_types_of(results, f);
    if !pop_vals(opds, ctrls, &ends) {
        return false;
    }
    if opds.len() != f.height {
        return false;
    }
    ctrls.set(last, Frame { kind: 4, out: f.out, height: f.height, unreachable: false });
    true
}

/// The types a block leaves when it ends.
fn end_types_of(results: &Vec<ValType>, f: Frame) -> (r: Vec<ValType>)
    ensures
        r@ == end_types(results@, f),
{
    if f.kind == 0 {
        copy_types(results)
    } else {
        match f.out {
            Some(t) => {
                let v = vec![t];
                proof {
                    assert(v@ =~= out_types(f.out));
                }
                v
            },
            None => Vec::new(),
        }
    }
}

/// The types a branch to a block carries.
fn label_types_of(results: &Vec<ValType>, f: Frame) -> (r: Vec<ValType>)
    ensures
        r@ == label_types(results@, f),
{
    if f.kind == 2 {
        Vec::new()
    } else {
        end_types_of(results, f)
    }
}

pub(crate) fn copy_types(v: &Vec<ValType>) -> (r: Vec<ValType>)
    ensures
        r@ == v@,
{
    let mut r: Vec<ValType> = Vec::new();
    let mut i: usize = 0;
    while i < v.len()
        invariant
            i <= v@.len(),
            r@ == v@.take(i as int),
        decreases v@.len() - i,
    {
        r.push(v[i]);
        i = i + 1;
        proof {
            assert(r@ =~= v@.take(i as int));
        }
    }
    proof {
        assert(v@.take(i as int) =~= v@);
    }
    r
}

/// Whether two lists of types are the same.
fn same_types(a: &Vec<ValType>, b: &Vec<ValType>) -> (r: bool)
    ensures
        r == (a@ == b@),
{
    if a.len() != b.len() {
        return false;
    }
    let mut i: usize = 0;
    while i < a.len()
        invariant
            a@.len() == b@.len(),
            i <= a@.len(),
            forall|k: int| 0 <= k < i ==> a@[k] == b@[k],
        decreases a@.len() - i,
    {
        if a[i] != b[i] {
            return false;
        }
        i = i + 1;
    }
    proof {
        assert(a@ =~= b@);
    }
    true
}

} // verus!

verus! {

/// The value type of a memory access (loads `0x28 ..= 0x35`, stores
/// `0x36 ..= 0x3e`).
pub open spec fn mem_type(op: u8) -> ValType {
    if op == 0x28 || op == 0x36 || (0x2c <= op && op <= 0x2f) || op == 0x3a || op == 0x3b {
        ValType::I32
    } else if op == 0x2a || op == 0x38 {
        ValType::F32
    } else if op == 0x2b || op == 0x39 {
        ValType::F64
    } else {
        ValType::I64
    }
}

/// The base-2 logarithm of the natural alignment of a memory access: the
/// largest alignment its memory argument may ask for.
pub open spec fn mem_align(op: u8) -> u32 {
    if op == 0x29 || op == 0x2b || op == 0x37 || op == 0x39 {
        3
    } else if op == 0x28 || op == 0x2a || op == 0x34 || op == 0x35 || op == 0x36 || op == 0x38 || op == 0x3e {
        2
    } else if op == 0x2e || op == 0x2f || op == 0x32 || op == 0x33 || op == 0x3b || op == 0x3d {
        1
    } else {
        0
    }
}

/// The signature of a numeric instruction (`0x45 ..= 0xbf`): its first
/// operand, its second operand if it has one, and its result.
pub open spec fn numeric_sig(op: u8) -> Option<(ValType, Option<ValType>, ValType)> {
    if op == 0x45 {
        Some((ValType::I32, None, ValType::I32))
    } else if 0x46 <= op && op <= 0x4f {
        Some((ValType::I32, Some(ValType::I32), ValType::I32))
    } else if op == 0x50 {
        Some((ValType::I64, None, ValType::I32))
    } else if 0x51 <= op && op <= 0x5a {
        Some((ValType::I64, Some(ValType::I64), ValType::I32))
    } else if 0x5b <= op && op <= 0x60 {
        Some((ValType::F32, Some(ValType::F32), ValType::I32))
    } else if 0x61 <= op && op <= 0x66 {
        Some((ValType::F64, Some(ValType::F64), ValType::I32))
    } else if 0x67 <= op && op <= 0x69 {
        Some((ValType::I32, None, ValType::I32))
    } else if 0x6a <= op && op <= 0x78 {
        Some((ValType::I32, Some(ValType::I32), ValType::I32))
    } else if 0x79 <= op && op <= 0x7b {
        Some((ValType::I64, None, ValType::I64))
    } else if 0x7c <= op && op <= 0x8a {
        Some((ValType::I64, Some(ValType::I64), ValType::I64))
    } else if 0x8b <= op && op <= 0x91 {
        Some((ValType::F32, None, ValType::F32))
    } else if 0x92 <= op && op <= 0x98 {
        Some((ValType::F32, Some(ValType::F32), ValType::F32))
    } else if 0x99 <= op && op <= 0x9f {
        Some((ValType::F64, None, ValType::F64))
    } else if 0xa0 <= op && op <= 0xa6 {
        Some((ValType::F64, Some(ValType::F64), ValType::F64))
    } else if op == 0xa7 {
        Some((ValType::I64, None, ValType::I32))
    } else if op == 0xa8 || op == 0xa9 || op == 0xbc {
        Some((ValType::F32, None, ValType::I32))
    } else if op == 0xaa || op == 0xab {
        Some((ValType::F64, None, ValType::I32))
    } else if op == 0xac || op == 0xad {
        Some((ValType::I32, None, ValType::I64))
    } else if op == 0xae || op == 0xaf {
        Some((ValType::F32, None, ValType::I64))
    } else if op == 0xb0 || op == 0xb1 || op == 0xbd {
        Some((ValType::F64, None, ValType::I64))
    } else if op == 0xb2 || op == 0xb3 || op == 0xbe {
        Some((ValType::I32, None, ValType::F32))
    } else if op == 0xb4 || op == 0xb5 {
        Some((ValType::I64, None, ValType::F32))
    } else if op == 0xb6 {
        Some((ValType::F64, None, ValType::F32))
    } else if op == 0xb7 || op == 0xb8 {
        Some((ValType::I32, None, ValType::F64))
    } else if op == 0xb9 || op == 0xba || op == 0xbf {
        Some((ValType::I64, None, ValType::F64))
    } else if op == 0xbb {
        Some((ValType::F32, None, ValType::F64))
    } else {
        None
    }
}

/// Where an instruction leaves the check: the position after it and the
/// operands and open blocks after it; `None` when it is not valid there.
pub type StepResult = Option<(usize, Seq<Option<ValType>>, Seq<Frame>)>;

/// `block`, `loop` and `if` (which first pops an `i32` condition).
pub open spec fn spec_block_op(s: Seq<u8>, op: u8, p: usize, end: usize, opds: Seq<Option<ValType>>, ctrls: Seq<Frame>) -> StepResult {
    match spec_byte(s, p, end) {
        Ok((bt, q)) => if bt != 0x40 && valtype_of(bt) is None {
            None
        } else {
            let out = if bt == 0x40 { None } else { valtype_of(bt) };
            let kind: u8 = if op == 0x02 { 1 } else if op == 0x03 { 2 } else { 3 };
            let popped = if op == 0x04 { spec_pop_expect(opds, ctrls, ValType::I32) } else { Some(opds) };
            match popped {
                Some(o) => Some((q, o, ctrls.push(Frame { kind, out, height: o.len() as usize, unreachable: false }))),
                None => None,
            }
        },
        Err(_) => None,
    }
}

/// Whether every label of a `br_table` names a block whose label types are `ts`.
pub open spec fn labels_agree(results: Seq<ValType>, ctrls: Seq<Frame>, ls: Seq<u32>, ts: Seq<ValType>) -> bool {
    forall|i: int| 0 <= i < ls.len() ==> (label_frame(ctrls, #[trigger] ls[i]) matches Some(f) && label_types(results, f) == ts)
}

/// `br`, `br_if`, `br_table` and `return`.
pub open spec fn spec_branch_op(s: Seq<u8>, op: u8, p: usize, end: usize, env: BodyEnv, opds: Seq<Option<ValType>>, ctrls: Seq<Frame>) -> StepResult {
    if op == 0x0f {
        match spec_pop_vals(opds, ctrls, env.results) {
            Some(o) => Some((p, spec_unreachable(o, ctrls).0, spec_unreachable(o, ctrls).1)),
            None => None,
        }
    } else if op == 0x0c || op == 0x0d {
        match spec_u32(s, p, end) {
            Ok((l, q)) => match label_frame(ctrls, l) {
                Some(f) => {
                    let ts = label_types(env.results, f);
                    if op == 0x0c {
                        match spec_pop_vals(opds, ctrls, ts) {
                            Some(o) => Some((q, spec_unreachable(o, ctrls).0, spec_unreachable(o, ctrls).1)),
                            None => None,
                        }
                    } else {
                        match spec_pop_expect(opds, ctrls, ValType::I32) {
                            Some(o) => match spec_pop_vals(o, ctrls, ts) {
                                Some(o2) => Some((q, o2 + known(ts), ctrls)),
                                None => None,
                            },
                            None => None,
                        }
                    }
                },
                None => None,
            },
            Err(_) => None,
        }
    } else {
        match spec_u32(s, p, end) {
            Ok((n, q)) => match spec_vec::<U32Item>(s, q, end, n as nat) {
                Ok((ls, q2)) => match spec_u32(s, q2, end) {
                    Ok((ld, q3)) => match label_frame(ctrls, ld) {
                        Some(fd) => {
                            let ts = label_types(env.results, fd);
                            if !labels_agree(env.results, ctrls, ls, ts) {
                                None
                            } else {
                                match spec_pop_expect(opds, ctrls, ValType::I32) {
                                    Some(o) => match spec_pop_vals(o, ctrls, ts) {
                                        Some(o2) => Some((q3, spec_unreachable(o2, ctrls).0, spec_unreachable(o2, ctrls).1)),
                                        None => None,
                                    },
                                    None => None,
                                }
                            }
                        },
                        None => None,
                    },
                    Err(_) => None,
                },
                Err(_) => None,
            },
            Err(_) => None,
        }
    }
}

/// `call` and `call_indirect` (which needs a table and pops an `i32` index first).
pub open spec fn spec_call_op(s: Seq<u8>, op: u8, p: usize, end: usize, env: BodyEnv, opds: Seq<Option<ValType>>, ctrls: Seq<Frame>) -> StepResult {
    if op == 0x10 {
        match spec_u32(s, p, end) {
            Ok((f, q)) => if f >= env.funcs.len() || env.funcs[f as int] >= env.sigs.len() {
                None
            } else {
                let sig = env.sigs[env.funcs[f as int] as int];
                match spec_pop_vals(opds, ctrls, sig.0) {
                    Some(o) => Some((q, o + known(sig.1), ctrls)),
                    None => None,
                }
            },
            Err(_) => None,
        }
    } else {
        match spec_u32(s, p, end) {
            Ok((t, q)) => match spec_zero_byte(s, q, end) {
                Ok(q2) => if !env.has_table || t >= env.sigs.len() {
                    None
                } else {
                    let sig = env.sigs[t as int];
                    match spec_pop_expect(opds, ctrls, ValType::I32) {
                        Some(o) => match spec_pop_vals(o, ctrls, sig.0) {
                            Some(o2) => Some((q2, o2 + known(sig.1), ctrls)),
                            None => None,
                        },
                        None => None,
                    }
                },
                Err(_) => None,
            },
            Err(_) => None,
        }
    }
}

/// `drop`, `select`, and the local and global instructions.
pub open spec fn spec_var_op(s: Seq<u8>, op: u8, p: usize, end: usize, env: BodyEnv, opds: Seq<Option<ValType>>, ctrls: Seq<Frame>) -> StepResult {
    if op == 0x1a {
        match spec_pop(opds, ctrls) {
            Some((_, o)) => Some((p, o, ctrls)),
            None => None,
        }
    } else if op == 0x1b {
        match spec_pop_expect(opds, ctrls, ValType::I32) {
            Some(o1) => match spec_pop(o1, ctrls) {
                Some((a, o2)) => match spec_pop(o2, ctrls) {
                    Some((b, o3)) => if a is Some && b is Some && a != b {
                        None
                    } else {
                        Some((p, o3.push(if a is Some { a } else { b }), ctrls))
                    },
                    None => None,
                },
                None => None,
            },
            None => None,
        }
    } else {
        match spec_u32(s, p, end) {
            Ok((x, q)) => if op <= 0x22 {
                match local_type(env, x) {
                    Some(t) => if op == 0x20 {
                        Some((q, opds.push(Some(t)), ctrls))
                    } else {
                        match spec_pop_expect(opds, ctrls, t) {
                            Some(o) => Some((q, if op == 0x22 { o.push(Some(t)) } else { o }, ctrls)),
                            None => None,
                        }
                    },
                    None => None,
                }
            } else if x >= env.globals.len() {
                None
            } else {
                let g = env.globals[x as int];
                if op == 0x23 {
                    Some((q, opds.push(Some(g.content)), ctrls))
                } else if !g.mutable {
                    None
                } else {
                    match spec_pop_expect(opds, ctrls, g.content) {
                        Some(o) => Some((q, o, ctrls)),
                        None => None,
                    }
                }
            },
            Err(_) => None,
        }
    }
}

/// Loads, stores, `memory.size` and `memory.grow`; all need a memory.
pub open spec fn spec_mem_op(s: Seq<u8>, op: u8, p: usize, end: usize, env: BodyEnv, opds: Seq<Option<ValType>>, ctrls: Seq<Frame>) -> StepResult {
    if op == 0x3f || op == 0x40 {
        match spec_zero_byte(s, p, end) {
            Ok(q) => if !env.has_memory {
                None
            } else if op == 0x3f {
                Some((q, opds.push(Some(ValType::I32)), ctrls))
            } else {
                match spec_pop_expect(opds, ctrls, ValType::I32) {
                    Some(o) => Some((q, o.push(Some(ValType::I32)), ctrls)),
                    None => None,
                }
            },
            Err(_) => None,
        }
    } else {
        match spec_u32(s, p, end) {
            Ok((align, q)) => match spec_u32(s, q, end) {
                Ok((_, q2)) => if !env.has_memory || align > mem_align(op) {
                    None
                } else if op <= 0x35 {
                    match spec_pop_expect(opds, ctrls, ValType::I32) {
                        Some(o) => Some((q2, o.push(Some(mem_type(op))), ctrls)),
                        None => None,
                    }
                } else {
                    match spec_pop_expect(opds, ctrls, mem_type(op)) {
                        Some(o) => match spec_pop_expect(o, ctrls, ValType::I32) {
                            Some(o2) => Some((q2, o2, ctrls)),
                            None => None,
                        },
                        None => None,
                    }
                },
                Err(_) => None,
            },
            Err(_) => None,
        }
    }
}

/// Constants and numeric instructions.
pub open spec fn spec_num_op(s: Seq<u8>, op: u8, p: usize, end: usize, opds: Seq<Option<ValType>>, ctrls: Seq<Frame>) -> StepResult {
    if op == 0x41 {
        match spec_s32(s, p, end) {
            Ok((_, q)) => Some((q, opds.push(Some(ValType::I32)), ctrls)),
            Err(_) => None,
        }
    } else if op == 0x42 {
        match spec_s64(s, p, end) {
            Ok((_, q)) => Some((q, opds.push(Some(ValType::I64)), ctrls)),
            Err(_) => None,
        }
    } else if op == 0x43 {
        match spec_fixed(s, p, end, 4) {
            Ok((_, q)) => Some((q, opds.push(Some(ValType::F32)), ctrls)),
            Err(_) => None,
        }
    } else if op == 0x44 {
        match spec_fixed(s, p, end, 8) {
            Ok((_, q)) => Some((q, opds.push(Some(ValType::F64)), ctrls)),
            Err(_) => None,
        }
    } else {
        match numeric_sig(op) {
            Some((a, b, r)) => {
                let popped = match b {
                    Some(bt) => spec_pop_expect(opds, ctrls, bt),
                    None => Some(opds),
                };
                match popped {
                    Some(o) => match spec_pop_expect(o, ctrls, a) {
                        Some(o2) => Some((p, o2.push(Some(r)), ctrls)),
                        None => None,
                    },
                    None => None,
                }
            },
            None => None,
        }
    }
}

/// One instruction of a function body at `pos`.
pub open spec fn spec_step(s: Seq<u8>, pos: usize, end: usize, env: BodyEnv, opds: Seq<Option<ValType>>, ctrls: Seq<Frame>) -> StepResult {
    match spec_byte(s, pos, end) {
        Ok((op, p)) => if op == 0x00 {
            Some((p, spec_unreachable(opds, ctrls).0, spec_unreachable(opds, ctrls).1))
        } else if op == 0x01 {
            Some((p, opds, ctrls))
        } else if op == 0x02 || op == 0x03 || op == 0x04 {
            spec_block_op(s, op, p, end, opds, ctrls)
        } else if op == 0x05 {
            match spec_else(env.results, opds, ctrls) {
                Some((o, c)) => Some((p, o, c)),
                None => None,
            }
        } else if op == 0x0b {
            match spec_end(env.results, opds, ctrls) {
                Some((o, c)) => Some((p, o, c)),
                None => None,
            }
        } else if op == 0x0c || op == 0x0d || op == 0x0e || op == 0x0f {
            spec_branch_op(s, op, p, end, env, opds, ctrls)
        } else if op == 0x10 || op == 0x11 {
            spec_call_op(s, op, p, end, env, opds, ctrls)
        } else if op == 0x1a || op == 0x1b || (0x20 <= op && op <= 0x24) {
            spec_var_op(s, op, p, end, env, opds, ctrls)
        } else if 0x28 <= op && op <= 0x40 {
            spec_mem_op(s, op, p, end, env, opds, ctrls)
        } else if 0x41 <= op && op <= 0xbf {
            spec_num_op(s, op, p, end, opds, ctrls)
        } else {
            None
        },
        Err(_) => None,
    }
}

/// Checks the instructions from `pos` on until the function's final `end`,
/// which must be the last byte before `end`.
pub open spec fn spec_check_instrs(s: Seq<u8>, pos: usize, end: usize, env: BodyEnv, opds: Seq<Option<ValType>>, ctrls: Seq<Frame>) -> bool
    decreases end - pos,
{
    if ctrls.len() == 0 {
        pos == end
    } else {
        match spec_step(s, pos, end, env, opds, ctrls) {
            Some((q, o, c)) => pos < q <= end && spec_check_instrs(s, q, end, env, o, c),
            None => false,
        }
    }
}

/// The block of the function itself, with no operands below it.
pub open spec fn function_frame() -> Frame {
    Frame { kind: 0, out: None, height: 0, unreachable: false }
}

/// A function body whose instructions are the bytes `start .. end` is valid.
pub open spec fn spec_body_valid(s: Seq<u8>, start: usize, end: usize, env: BodyEnv) -> bool {
    spec_check_instrs(s, start, end, env, Seq::empty(), seq![function_frame()])
}

} // verus!

verus! {

/// The parameter and result types of a function type.
pub struct Sig {
    pub params: Vec<ValType>,
    pub results: Vec<ValType>,
}

/// What a function body is checked against (see `BodyEnv`).
pub struct Env {
    pub sigs: Vec<Sig>,
    pub funcs: Vec<u32>,
    pub globals: Vec<GlobalType>,
    pub has_memory: bool,
    pub has_table: bool,
    pub params: Vec<ValType>,
    pub decls: Vec<(u32, ValType)>,
    pub results: Vec<ValType>,
}

/// The parameter and result types of each of a list of signatures.
pub open spec fn sigs_view(sigs: Seq<Sig>) -> Seq<(Seq<ValType>, Seq<ValType>)> {
    sigs.map_values(|g: Sig| (g.params@, g.results@))
}

impl View for Env {
    type V = BodyEnv;

    open spec fn view(&self) -> BodyEnv {
        BodyEnv {
            sigs: sigs_view(self.sigs@),
            funcs: self.funcs@,
            globals: self.globals@,
            has_memory: self.has_memory,
            has_table: self.has_table,
            params: self.params@,
            decls: self.decls@,
            results: self.results@,
        }
    }
}

/// The type of local `x`.
fn local_type_of(env: &Env, x: u32) -> (r: Option<ValType>)
    ensures
        r == local_type(env@, x),
{
    if (x as usize) < env.params.len() {
        return Some(env.params[x as usize]);
    }
    let mut k: u64 = (x as u64) - (env.params.len() as u64);
    let mut i: usize = 0;
    proof {
        assert(env@.decls.skip(0) =~= env@.decls);
    }
    while i < env.decls.len()
        invariant
            i <= env@.decls.len(),
            x >= env@.params.len(),
            decl_type(env@.decls, x - env@.params.len()) == decl_type(env@.decls.skip(i as int), k as int),
        decreases env@.decls.len() - i,
    {
        let (n, t) = env.decls[i];
        proof {
            assert(env@.decls.skip(i as int)[0] == env@.decls[i as int]);
            assert(env@.decls.skip(i as int).drop_first() =~= env@.decls.skip(i + 1));
        }
        if k < n as u64 {
            return Some(t);
        }
        k = k - n as u64;
        i = i + 1;
    }
    proof {
        assert(env@.decls.skip(i as int).len() == 0);
    }
    None
}

/// Runs a step on the operands and open blocks; `None` when the step is invalid.
pub open spec fn step_matches(r: Option<usize>, spec: StepResult, opds: Seq<Option<ValType>>, ctrls: Seq<Frame>) -> bool {
    match spec {
        Some((q, o, c)) => r == Some(q) && opds == o && ctrls == c,
        None => r is None,
    }
}

fn block_op(s: &[u8], op: u8, p: usize, end: usize, opds: &mut Vec<Option<ValType>>, ctrls: &mut Vec<Frame>) -> (r: Option<usize>)
    requires
        end <= s@.len(),
        old(ctrls)@.len() > 0,
    ensures
        step_matches(r, spec_block_op(s@, op, p, end, old(opds)@, old(ctrls)@), final(opds)@, final(ctrls)@),
{
    let (bt, q) = match read_byte(s, p, end) {
        Ok(x) => x,
        Err(_) => {
            return None;
        },
    };
    let vt = valtype_from_byte(bt);
    if bt != 0x40 && vt.is_none() {
        return None;
    }
    let out = if bt == 0x40 { None } else { vt };
    let kind: u8 = if op == 0x02 { 1 } else if op == 0x03 { 2 } else { 3 };
    if op == 0x04 {
        if !pop_expect(opds, ctrls, ValType::I32) {
            return None;
        }
    }
    let height = opds.len();
    ctrls.push(Frame { kind, out, height, unreachable: false });
    Some(q)
}

#[verifier::loop_isolation(false)]
fn branch_op(s: &[u8], op: u8, p: usize, end: usize, env: &Env, opds: &mut Vec<Option<ValType>>, ctrls: &mut Vec<Frame>) -> (r: Option<usize>)
    requires
        end <= s@.len(),
        old(ctrls)@.len() > 0,
    ensures
        step_matches(r, spec_branch_op(s@, op, p, end, env@, old(opds)@, old(ctrls)@), final(opds)@, final(ctrls)@),
{
    if op == 0x0f {
        if !pop_vals(opds, ctrls, &env.results) {
            return None;
        }
        set_unreachable(opds, ctrls);
        return Some(p);
    }
    if op == 0x0c || op == 0x0d {
        let (l, q) = match read_u32(s, p, end) {
            Ok(x) => x,
            Err(_) => {
                return None;
            },
        };
        if (l as usize) >= ctrls.len() {
            return None;
        }
        let f = ctrls[ctrls.len() - 1 - l as usize];
        let ts = label_types_of(&env.results, f);
        if op == 0x0c {
            if !pop_vals(opds, ctrls, &ts) {
                return None;
            }
            set_unreachable(opds, ctrls);
        } else {
            if !pop_expect(opds, ctrls, ValType::I32) {
                return None;
            }
            if !pop_vals(opds, ctrls, &ts) {
                return None;
            }
            push_vals(opds, &ts);
        }
        return Some(q);
    }
    let (n, q) = match read_u32(s, p, end) {
        Ok(x) => x,
        Err(_) => {
            return None;
        },
    };
    if q > end {
        return None;
    }
    let (ls, q2) = match read_vec::<U32Item>(s, q, end, n) {
        Ok(x) => x,
        Err(_) => {
            return None;
        },
    };
    let (ld, q3) = match read_u32(s, q2, end) {
        Ok(x) => x,
        Err(_) => {
            return None;
        },
    };
    if (ld as usize) >= ctrls.len() {
        return None;
    }
    let fd = ctrls[ctrls.len() - 1 - ld as usize];
    let ts = label_types_of(&env.results, fd);
    let mut i: usize = 0;
    while i < ls.len()
        invariant
            i <= ls@.len(),
            ctrls@ == old(ctrls)@,
            opds@ == old(opds)@,
            ts@ == label_types(env@.results, fd),
            forall|k: int| 0 <= k < i ==> (label_frame(ctrls@, #[trigger] ls@[k]) matches Some(f)
                && label_types(env@.results, f) == ts@),
        decreases ls@.len() - i,
    {
        let l = ls[i];
        if (l as usize) >= ctrls.len() {
            assert(label_frame(ctrls@, ls@[i as int]) is None);
            return None;
        }
        let f = ctrls[ctrls.len() - 1 - l as usize];
        let fts = label_types_of(&env.results, f);
        if !same_types(&fts, &ts) {
            assert(label_frame(ctrls@, ls@[i as int]) == Some(f));
            assert(!labels_agree(env@.results, ctrls@, ls@, ts@));
            return None;
        }
        i = i + 1;
    }
    if !pop_expect(opds, ctrls, ValType::I32) {
        return None;
    }
    if !pop_vals(opds, ctrls, &ts) {
        return None;
    }
    set_unreachable(opds, ctrls);
    Some(q3)
}

} // verus!

verus! {

fn call_op(s: &[u8], op: u8, p: usize, end: usize, env: &Env, opds: &mut Vec<Option<ValType>>, ctrls: &mut Vec<Frame>) -> (r: Option<usize>)
    requires
        end <= s@.len(),
        old(ctrls)@.len() > 0,
    ensures
        step_matches(r, spec_call_op(s@, op, p, end, env@, old(opds)@, old(ctrls)@), final(opds)@, final(ctrls)@),
{
    if op == 0x10 {
        let (f, q) = match read_u32(s, p, end) {
            Ok(x) => x,
            Err(_) => {
                return None;
            },
        };
        if (f as usize) >= env.funcs.len() || (env.funcs[f as usize] as usize) >= env.sigs.len() {
            return None;
        }
        let sig = &env.sigs[env.funcs[f as usize] as usize];
        if !pop_vals(opds, ctrls, &sig.params) {
            return None;
        }
        push_vals(opds, &sig.results);
        Some(q)
    } else {
        let (t, q) = match read_u32(s, p, end) {
            Ok(x) => x,
            Err(_) => {
                return None;
            },
        };
        let q2 = match read_zero_byte(s, q, end) {
            Ok(x) => x,
            Err(_) => {
                return None;
            },
        };
        if !env.has_table || (t as usize) >= env.sigs.len() {
            return None;
        }
        let sig = &env.sigs[t as usize];
        if !pop_expect(opds, ctrls, ValType::I32) {
            return None;
        }
        if !pop_vals(opds, ctrls, &sig.params) {
            return None;
        }
        push_vals(opds, &sig.results);
        Some(q2)
    }
}

fn var_op(s: &[u8], op: u8, p: usize, end: usize, env: &Env, opds: &mut Vec<Option<ValType>>, ctrls: &mut Vec<Frame>) -> (r: Option<usize>)
    requires
        end <= s@.len(),
        old(ctrls)@.len() > 0,
    ensures
        step_matches(r, spec_var_op(s@, op, p, end, env@, old(opds)@, old(ctrls)@), final(opds)@, final(ctrls)@),
{
    if op == 0x1a {
        return match pop(opds, ctrls) {
            Some(_) => Some(p),
            None => None,
        };
    }
    if op == 0x1b {
        if !pop_expect(opds, ctrls, ValType::I32) {
            return None;
        }
        let a = match pop(opds, ctrls) {
            Some(a) => a,
            None => {
                return None;
            },
        };
        let b = match pop(opds, ctrls) {
            Some(b) => b,
            None => {
                return None;
            },
        };
        if a.is_some() && b.is_some() && a != b {
            return None;
        }
        opds.push(if a.is_some() { a } else { b });
        return Some(p);
    }
    let (x, q) = match read_u32(s, p, end) {
        Ok(v) => v,
        Err(_) => {
            return None;
        },
    };
    if op <= 0x22 {
        let t = match local_type_of(env, x) {
            Some(t) => t,
            None => {
                return None;
            },
        };
        if op == 0x20 {
            opds.push(Some(t));
            return Some(q);
        }
        if !pop_expect(opds, ctrls, t) {
            return None;
        }
        if op == 0x22 {
            opds.push(Some(t));
        }
        return Some(q);
    }
    if (x as usize) >= env.globals.len() {
        return None;
    }
    let g = env.globals[x as usize];
    if op == 0x23 {
        opds.push(Some(g.content));
        return Some(q);
    }
    if !g.mutable {
        return None;
    }
    if !pop_expect(opds, ctrls, g.content) {
        return None;
    }
    Some(q)
}

fn mem_type_of(op: u8) -> (r: ValType)
    ensures
        r == mem_type(op),
{
    if op == 0x28 || op == 0x36 || (0x2c <= op && op <= 0x2f) || op == 0x3a || op == 0x3b {
        ValType::I32
    } else if op == 0x2a || op == 0x38 {
        ValType::F32
    } else if op == 0x2b || op == 0x39 {
        ValType::F64
    } else {
        ValType::I64
    }
}

fn mem_align_of(op: u8) -> (r: u32)
    ensures
        r == mem_align(op),
{
    if op == 0x29 || op == 0x2b || op == 0x37 || op == 0x39 {
        3
    } else if op == 0x28 || op == 0x2a || op == 0x34 || op == 0x35 || op == 0x36 || op == 0x38 || op == 0x3e {
        2
    } else if op == 0x2e || op == 0x2f || op == 0x32 || op == 0x33 || op == 0x3b || op == 0x3d {
        1
    } else {
        0
    }
}

fn mem_op(s: &[u8], op: u8, p: usize, end: usize, env: &Env, opds: &mut Vec<Option<ValType>>, ctrls: &mut Vec<Frame>) -> (r: Option<usize>)
    requires
        end <= s@.len(),
        old(ctrls)@.len() > 0,
    ensures
        step_matches(r, spec_mem_op(s@, op, p, end, env@, old(opds)@, old(ctrls)@), final(opds)@, final(ctrls)@),
{
    if op == 0x3f || op == 0x40 {
        let q = match read_zero_byte(s, p, end) {
            Ok(x) => x,
            Err(_) => {
                return None;
            },
        };
        if !env.has_memory {
            return None;
        }
        if op == 0x40 {
            if !pop_expect(opds, ctrls, ValType::I32) {
                return None;
            }
        }
        opds.push(Some(ValType::I32));
        return Some(q);
    }
    let (align, q) = match read_u32(s, p, end) {
        Ok(x) => x,
        Err(_) => {
            return None;
        },
    };
    let (_, q2) = match read_u32(s, q, end) {
        Ok(x) => x,
        Err(_) => {
            return None;
        },
    };
    if !env.has_memory || align > mem_align_of(op) {
        return None;
    }
    let t = mem_type_of(op);
    if op <= 0x35 {
        if !pop_expect(opds, ctrls, ValType::I32) {
            return None;
        }
        opds.push(Some(t));
    } else {
        if !pop_expect(opds, ctrls, t) {
            return None;
        }
        if !pop_expect(opds, ctrls, ValType::I32) {
            return None;
        }
    }
    Some(q2)
}

fn numeric_sig_of(op: u8) -> (r: Option<(ValType, Option<ValType>, ValType)>)
    ensures
        r == numeric_sig(op),
{
    if op == 0x45 {
        Some((ValType::I32, None, ValType::I32))
    } else if 0x46 <= op && op <= 0x4f {
        Some((ValType::I32, Some(ValType::I32), ValType::I32))
    } else if op == 0x50 {
        Some((ValType::I64, None, ValType::I32))
    } else if 0x51 <= op && op <= 0x5a {
        Some((ValType::I64, Some(ValType::I64), ValType::I32))
    } else if 0x5b <= op && op <= 0x60 {
        Some((ValType::F32, Some(ValType::F32), ValType::I32))
    } else if 0x61 <= op && op <= 0x66 {
        Some((ValType::F64, Some(ValType::F64), ValType::I32))
    } else if 0x67 <= op && op <= 0x69 {
        Some((ValType::I32, None, ValType::I32))
    } else if 0x6a <= op && op <= 0x78 {
        Some((ValType::I32, Some(ValType::I32), ValType::I32))
    } else if 0x79 <= op && op <= 0x7b {
        Some((ValType::I64, None, ValType::I64))
    } else if 0x7c <= op && op <= 0x8a {
        Some((ValType::I64, Some(ValType::I64), ValType::I64))
    } else if 0x8b <= op && op <= 0x91 {
        Some((ValType::F32, None, ValType::F32))
    } else if 0x92 <= op && op <= 0x98 {
        Some((ValType::F32, Some(ValType::F32), ValType::F32))
    } else if 0x99 <= op && op <= 0x9f {
        Some((ValType::F64, None, ValType::F64))
    } else if 0xa0 <= op && op <= 0xa6 {
        Some((ValType::F64, Some(ValType::F64), ValType::F64))
    } else if op == 0xa7 {
        Some((ValType::I64, None, ValType::I32))
    } else if op == 0xa8 || op == 0xa9 || op == 0xbc {
        Some((ValType::F32, None, ValType::I32))
    } else if op == 0xaa || op == 0xab {
        Some((ValType::F64, None, ValType::I32))
    } else if op == 0xac || op == 0xad {
        Some((ValType::I32, None, ValType::I64))
    } else if op == 0xae || op == 0xaf {
        Some((ValType::F32, None, ValType::I64))
    } else if op == 0xb0 || op == 0xb1 || op == 0xbd {
        Some((ValType::F64, None, ValType::I64))
    } else if op == 0xb2 || op == 0xb3 || op == 0xbe {
        Some((ValType::I32, None, ValType::F32))
    } else if op == 0xb4 || op == 0xb5 {
        Some((ValType::I64, None, ValType::F32))
    } else if op == 0xb6 {
        Some((ValType::F64, None, ValType::F32))
    } else if op == 0xb7 || op == 0xb8 {
        Some((ValType::I32, None, ValType::F64))
    } else if op == 0xb9 || op == 0xba || op == 0xbf {
        Some((ValType::I64, None, ValType::F64))
    } else if op == 0xbb {
        Some((ValType::F32, None, ValType::F64))
    } else {
        None
    }
}

fn num_op(s: &[u8], op: u8, p: usize, end: usize, opds: &mut Vec<Option<ValType>>, ctrls: &mut Vec<Frame>) -> (r: Option<usize>)
    requires
        end <= s@.len(),
        old(ctrls)@.len() > 0,
    ensures
        step_matches(r, spec_num_op(s@, op, p, end, old(opds)@, old(ctrls)@), final(opds)@, final(ctrls)@),
{
    if op == 0x41 {
        return match read_s32(s, p, end) {
            Ok((_, q)) => {
                opds.push(Some(ValType::I32));
                Some(q)
            },
            Err(_) => None,
        };
    }
    if op == 0x42 {
        return match read_s64(s, p, end) {
            Ok((_, q)) => {
                opds.push(Some(ValType::I64));
                Some(q)
            },
            Err(_) => None,
        };
    }
    if op == 0x43 || op == 0x44 {
        return match read_fixed(s, p, end, if op == 0x43 { 4 } else { 8 }) {
            Ok((_, q)) => {
                opds.push(Some(if op == 0x43 { ValType::F32 } else { ValType::F64 }));
                Some(q)
            },
            Err(_) => None,
        };
    }
    match numeric_sig_of(op) {
        Some((a, b, r)) => {
            if let Some(bt) = b {
                if !pop_expect(opds, ctrls, bt) {
                    return None;
                }
            }
            if !pop_expect(opds, ctrls, a) {
                return None;
            }
            opds.push(Some(r));
            Some(p)
        },
        None => None,
    }
}

} // verus!

verus! {

fn step(s: &[u8], pos: usize, end: usize, env: &Env, opds: &mut Vec<Option<ValType>>, ctrls: &mut Vec<Frame>) -> (r: Option<usize>)
    requires
        end <= s@.len(),
        old(ctrls)@.len() > 0,
    ensures
        step_matches(r, spec_step(s@, pos, end, env@, old(opds)@, old(ctrls)@), final(opds)@, final(ctrls)@),
{
    let (op, p) = match read_byte(s, pos, end) {
        Ok(x) => x,
        Err(_) => {
            return None;
        },
    };
    if op == 0x00 {
        set_unreachable(opds, ctrls);
        Some(p)
    } else if op == 0x01 {
        Some(p)
    } else if op == 0x02 || op == 0x03 || op == 0x04 {
        block_op(s, op, p, end, opds, ctrls)
    } else if op == 0x05 {
        if else_block(&env.results, opds, ctrls) {
            Some(p)
        } else {
            None
        }
    } else if op == 0x0b {
        if end_block(&env.results, opds, ctrls) {
            Some(p)
        } else {
            None
        }
    } else if op == 0x0c || op == 0x0d || op == 0x0e || op == 0x0f {
        branch_op(s, op, p, end, env, opds, ctrls)
    } else if op == 0x10 || op == 0x11 {
        call_op(s, op, p, end, env, opds, ctrls)
    } else if op == 0x1a || op == 0x1b || (0x20 <= op && op <= 0x24) {
        var_op(s, op, p, end, env, opds, ctrls)
    } else if 0x28 <= op && op <= 0x40 {
        mem_op(s, op, p, end, env, opds, ctrls)
    } else if 0x41 <= op && op <= 0xbf {
        num_op(s, op, p, end, opds, ctrls)
    } else {
        None
    }
}

/// Checks a function body whose instructions are the bytes `start .. end`.
pub fn check_body(s: &[u8], start: usize, end: usize, env: &Env) -> (r: bool)
    requires
        end <= s@.len(),
        start <= end,
    ensures
        r == spec_body_valid(s@, start, end, env@),
{
    let mut opds: Vec<Option<ValType>> = Vec::new();
    let mut ctrls: Vec<Frame> = Vec::new();
    ctrls.push(Frame { kind: 0, out: None, height: 0, unreachable: false });
    proof {
        assert(ctrls@ =~= seq![function_frame()]);
        assert(opds@ =~= Seq::<Option<ValType>>::empty());
    }
    let mut pos = start;
    while ctrls.len() > 0
        invariant
            end <= s@.len(),
            pos <= end,
            spec_check_instrs(s@, pos, end, env@, opds@, ctrls@) == spec_body_valid(s@, start, end, env@),
        decreases end - pos,
    {
        match step(s, pos, end, env, &mut opds, &mut ctrls) {
            Some(q) => {
                if !(pos < q && q <= end) {
                    return false;
                }
                pos = q;
            },
            None => {
                return false;
            },
        }
    }
    pos == end
}

} // verus!

verus! {

/// A body that is only its final `end` is valid exactly when the function
/// returns nothing.
pub proof fn law_empty_body(s: Seq<u8>, start: usize, env: BodyEnv)
    requires
        start + 1 <= s.len(),
        s[start as int] == 0x0b,
        start + 1 <= usize::MAX,
    ensures
        spec_body_valid(s, start, (start + 1) as usize, env) <==> env.results.len() == 0,
{
    let end = (start + 1) as usize;
    let opds = Seq::<Option<ValType>>::empty();
    let ctrls = seq![function_frame()];
    assert(spec_byte(s, start, end) == Ok::<(u8, usize), DecodeError>((0x0bu8, end)));
    if env.results.len() == 0 {
        assert(spec_pop_vals(opds, ctrls, env.results) == Some(opds));
        assert(ctrls.drop_last() =~= Seq::<Frame>::empty());
        assert(spec_check_instrs(s, end, end, env, opds + known(env.results), ctrls.drop_last()));
    } else {
        assert(spec_pop(opds, ctrls) is None);
        assert(spec_pop_expect(opds, ctrls, env.results.last()) is None);
        assert(spec_pop_vals(opds, ctrls, env.results) is None);
    }
}

} // verus!

verus! {

/// The numeric instructions as the WebAssembly instruction table gives
/// them: the tests and comparisons (`0x45 ..= 0x66`) give an `i32`, the
/// other operators of a type give that type, and each takes one operand
/// (tests, unary operators, conversions) or two of its type.
pub proof fn law_numeric_table(op: u8)
    ensures
        0x45 <= op <= 0xbf ==> numeric_sig(op) is Some,
        0x45 <= op <= 0x66 ==> numeric_sig(op)->Some_0.2 == ValType::I32,
        (op == 0x45 || op == 0x50) ==> numeric_sig(op)->Some_0.1 is None,
        0x46 <= op <= 0x4f ==> numeric_sig(op) == Some((ValType::I32, Some(ValType::I32), ValType::I32)),
        0x51 <= op <= 0x5a ==> numeric_sig(op) == Some((ValType::I64, Some(ValType::I64), ValType::I32)),
        0x5b <= op <= 0x60 ==> numeric_sig(op) == Some((ValType::F32, Some(ValType::F32), ValType::I32)),
        0x61 <= op <= 0x66 ==> numeric_sig(op) == Some((ValType::F64, Some(ValType::F64), ValType::I32)),
        op == 0x45 ==> numeric_sig(op)->Some_0.0 == ValType::I32,
        op == 0x50 ==> numeric_sig(op)->Some_0.0 == ValType::I64,
        0x6a <= op <= 0x78 ==> numeric_sig(op) == Some((ValType::I32, Some(ValType::I32), ValType::I32)),
        0x7c <= op <= 0x8a ==> numeric_sig(op) == Some((ValType::I64, Some(ValType::I64), ValType::I64)),
        0x92 <= op <= 0x98 ==> numeric_sig(op) == Some((ValType::F32, Some(ValType::F32), ValType::F32)),
        0xa0 <= op <= 0xa6 ==> numeric_sig(op) == Some((ValType::F64, Some(ValType::F64), ValType::F64)),
        0x67 <= op <= 0x69 ==> numeric_sig(op) == Some((ValType::I32, None::<ValType>, ValType::I32)),
        0x79 <= op <= 0x7b ==> numeric_sig(op) == Some((ValType::I64, None::<ValType>, ValType::I64)),
        0x8b <= op <= 0x91 ==> numeric_sig(op) == Some((ValType::F32, None::<ValType>, ValType::F32)),
        0x99 <= op <= 0x9f ==> numeric_sig(op) == Some((ValType::F64, None::<ValType>, ValType::F64)),
        0xa7 <= op <= 0xbf ==> numeric_sig(op)->Some_0.1 is None,
{
}

/// The operand type of a binary comparison (`0x46 ..= 0x66`, tests apart).
pub open spec fn comparison_operand(op: u8) -> ValType {
    if op <= 0x4f {
        ValType::I32
    } else if op <= 0x5a {
        ValType::I64
    } else if op <= 0x60 {
        ValType::F32
    } else {
        ValType::F64
    }
}

/// A binary comparison over two operands of its type, above the innermost
/// block's operands, replaces them with one `i32` and moves on one byte.
pub proof fn law_comparison_step(
    s: Seq<u8>,
    pos: usize,
    end: usize,
    env: BodyEnv,
    rest: Seq<Option<ValType>>,
    ctrls: Seq<Frame>,
)
    requires
        pos < end <= s.len(),
        0x46 <= s[pos as int] <= 0x66,
        s[pos as int] != 0x50,
        ctrls.len() > 0,
        rest.len() >= ctrls.last().height,
    ensures
        ({
            let t = comparison_operand(s[pos as int]);
            spec_step(s, pos, end, env, rest.push(Some(t)).push(Some(t)), ctrls)
                == Some(((pos + 1) as usize, rest.push(Some(ValType::I32)), ctrls))
        }),
{
    let op = s[pos as int];
    let t = comparison_operand(op);
    let o = rest.push(Some(t)).push(Some(t));
    assert(o.drop_last() =~= rest.push(Some(t)));
    assert(rest.push(Some(t)).drop_last() =~= rest);
}

} // verus!

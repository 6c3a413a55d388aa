use vstd::prelude::*;
use crate::error::DecodeError;
use crate::leb128::{read_u32, read_s32, read_s64, spec_u32, spec_s32, spec_s64};
use crate::reader::{spec_byte, read_byte, valtype_of, valtype_from_byte, spec_vec, read_vec, U32Item, spec_fixed, read_fixed};

verus! {

/// Frame kinds of the block structure: a block, loop or function body; an
/// `if` that has not seen `else`; an `if` after its `else`.
pub open spec fn frame_plain() -> u8 { 0 }
pub open spec fn frame_if() -> u8 { 1 }
pub open spec fn frame_else() -> u8 { 2 }

/// Opcodes that take no immediate.
pub open spec fn no_immediate(op: u8) -> bool {
    op == 0x00 || op == 0x01 || op == 0x0f || op == 0x1a || op == 0x1b || (0x45 <= op && op <= 0xbf)
}

/// Opcodes whose immediate is one `u32` index.
pub open spec fn index_immediate(op: u8) -> bool {
    op == 0x0c || op == 0x0d || op == 0x10 || (0x20 <= op && op <= 0x24)
}

/// A single reserved zero byte.
pub open spec fn spec_zero_byte(s: Seq<u8>, pos: usize, end: usize) -> Result<usize, DecodeError> {
    match spec_byte(s, pos, end) {
        Ok((b, q)) => if b == 0 {
            Ok(q)
        } else {
            Err(DecodeError::ZeroFlagExpected)
        },
        Err(e) => Err(e),
    }
}

/// The immediates of a block, loop or if, and the frame it opens.
pub open spec fn spec_block_start(s: Seq<u8>, p: usize, end: usize, frames: Seq<u8>, kind: u8) -> Result<(usize, Seq<u8>), DecodeError> {
    match spec_byte(s, p, end) {
        Ok((bt, q)) => if bt == 0x40 || valtype_of(bt) is Some {
            Ok((q, frames.push(kind)))
        } else {
            Err(DecodeError::MalformedBlockType)
        },
        Err(e) => Err(e),
    }
}

/// The immediates of `br_table`: a vector of label indices and a default label.
pub open spec fn spec_br_table(s: Seq<u8>, p: usize, end: usize) -> Result<usize, DecodeError> {
    match spec_u32(s, p, end) {
        Ok((n, q)) => match spec_vec::<U32Item>(s, q, end, n as nat) {
            Ok((_, q2)) => match spec_u32(s, q2, end) {
                Ok((_, q3)) => Ok(q3),
                Err(e) => Err(e),
            },
            Err(e) => Err(e),
        },
        Err(e) => Err(e),
    }
}

/// The immediates of an instruction with opcode `op` that does not change
/// the block structure; `p` is the position after the opcode.
pub open spec fn spec_plain_immediates(s: Seq<u8>, op: u8, p: usize, end: usize) -> Result<usize, DecodeError> {
    if no_immediate(op) {
        Ok(p)
    } else if index_immediate(op) {
        match spec_u32(s, p, end) {
            Ok((_, q)) => Ok(q),
            Err(e) => Err(e),
        }
    } else if op == 0x0e {
        spec_br_table(s, p, end)
    } else if op == 0x11 {
        match spec_u32(s, p, end) {
            Ok((_, q)) => spec_zero_byte(s, q, end),
            Err(e) => Err(e),
        }
    } else if op == 0x3f || op == 0x40 {
        spec_zero_byte(s, p, end)
    } else if 0x28 <= op && op <= 0x3e {
        match spec_u32(s, p, end) {
            Ok((_, q)) => match spec_u32(s, q, end) {
                Ok((_, q2)) => Ok(q2),
                Err(e) => Err(e),
            },
            Err(e) => Err(e),
        }
    } else if op == 0x41 {
        match spec_s32(s, p, end) {
            Ok((_, q)) => Ok(q),
            Err(e) => Err(e),
        }
    } else if op == 0x42 {
        match spec_s64(s, p, end) {
            Ok((_, q)) => Ok(q),
            Err(e) => Err(e),
        }
    } else if op == 0x43 {
        match spec_fixed(s, p, end, 4) {
            Ok((_, q)) => Ok(q),
            Err(e) => Err(e),
        }
    } else if op == 0x44 {
        match spec_fixed(s, p, end, 8) {
            Ok((_, q)) => Ok(q),
            Err(e) => Err(e),
        }
    } else {
        Err(DecodeError::IllegalOpcode)
    }
}

/// One instruction at `pos` inside the open blocks `frames`: the position
/// after it and the open blocks after it.
pub open spec fn spec_instr(s: Seq<u8>, pos: usize, end: usize, frames: Seq<u8>) -> Result<(usize, Seq<u8>), DecodeError> {
    match spec_byte(s, pos, end) {
        Ok((op, p)) => if op == 0x02 || op == 0x03 {
            spec_block_start(s, p, end, frames, frame_plain())
        } else if op == 0x04 {
            spec_block_start(s, p, end, frames, frame_if())
        } else if op == 0x05 {
            if frames.len() > 0 && frames.last() == frame_if() {
                Ok((p, frames.update(frames.len() - 1, frame_else())))
            } else {
                Err(DecodeError::UnexpectedElse)
            }
        } else if op == 0x0b {
            Ok((p, frames.drop_last()))
        } else {
            match spec_plain_immediates(s, op, p, end) {
                Ok(q) => Ok((q, frames)),
                Err(e) => Err(e),
            }
        },
        Err(e) => Err(e),
    }
}

/// Instructions from `pos` until the `end` that closes the outermost of
/// `frames`: the position after that `end`.
pub open spec fn spec_expr(s: Seq<u8>, pos: usize, end: usize, frames: Seq<u8>) -> Result<usize, DecodeError>
    decreases end - pos,
{
    if frames.len() == 0 {
        Ok(pos)
    } else {
        match spec_instr(s, pos, end, frames) {
            Ok((q, fr)) => if pos < q && q <= end {
                spec_expr(s, q, end, fr)
            } else {
                Err(DecodeError::UnexpectedEnd)
            },
            Err(e) => Err(e),
        }
    }
}

pub(crate) fn read_zero_byte(s: &[u8], pos: usize, end: usize) -> (r: Result<usize, DecodeError>)
    requires
        end <= s@.len(),
    ensures
        r == spec_zero_byte(s@, pos, end),
        r matches Ok(q) ==> pos < q <= end,
{
    let (b, q) = read_byte(s, pos, end)?;
    if b == 0 {
        Ok(q)
    } else {
        Err(DecodeError::ZeroFlagExpected)
    }
}

fn read_br_table(s: &[u8], p: usize, end: usize) -> (r: Result<usize, DecodeError>)
    requires
        end <= s@.len(),
    ensures
        r == spec_br_table(s@, p, end),
        r matches Ok(q) ==> p < q <= end,
{
    let (n, q) = read_u32(s, p, end)?;
    let (_, q2) = match read_vec::<U32Item>(s, q, end, n) {
        Ok(x) => x,
        Err(e) => {
            return Err(e);
        },
    };
    let (_, q3) = read_u32(s, q2, end)?;
    Ok(q3)
}

fn read_plain_immediates(s: &[u8], op: u8, p: usize, end: usize) -> (r: Result<usize, DecodeError>)
    requires
        end <= s@.len(),
        p <= end,
    ensures
        r == spec_plain_immediates(s@, op, p, end),
        r matches Ok(q) ==> p <= q <= end,
{
    if op == 0x00 || op == 0x01 || op == 0x0f || op == 0x1a || op == 0x1b || (0x45 <= op && op <= 0xbf) {
        Ok(p)
    } else if op == 0x0c || op == 0x0d || op == 0x10 || (0x20 <= op && op <= 0x24) {
        let (_, q) = read_u32(s, p, end)?;
        Ok(q)
    } else if op == 0x0e {
        read_br_table(s, p, end)
    } else if op == 0x11 {
        let (_, q) = read_u32(s, p, end)?;
        read_zero_byte(s, q, end)
    } else if op == 0x3f || op == 0x40 {
        read_zero_byte(s, p, end)
    } else if 0x28 <= op && op <= 0x3e {
        let (_, q) = read_u32(s, p, end)?;
        let (_, q2) = read_u32(s, q, end)?;
        Ok(q2)
    } else if op == 0x41 {
        let (_, q) = read_s32(s, p, end)?;
        Ok(q)
    } else if op == 0x42 {
        let (_, q) = read_s64(s, p, end)?;
        Ok(q)
    } else if op == 0x43 {
        let (_, q) = read_fixed(s, p, end, 4)?;
        Ok(q)
    } else if op == 0x44 {
        let (_, q) = read_fixed(s, p, end, 8)?;
        Ok(q)
    } else {
        Err(DecodeError::IllegalOpcode)
    }
}

/// Decodes one instruction, updating the open blocks.
fn read_instr(s: &[u8], pos: usize, end: usize, frames: &mut Vec<u8>) -> (r: Result<usize, DecodeError>)
    requires
        end <= s@.len(),
        old(frames)@.len() > 0,
    ensures
        match r {
            Ok(q) => spec_instr(s@, pos, end, old(frames)@) == Ok::<(usize, Seq<u8>), DecodeError>((q, final(frames)@)),
            Err(e) => spec_instr(s@, pos, end, old(frames)@) == Err::<(usize, Seq<u8>), DecodeError>(e),
        },
        r matches Ok(q) ==> pos < q <= end,
{
    let (op, p) = read_byte(s, pos, end)?;
    if op == 0x02 || op == 0x03 || op == 0x04 {
        let (bt, q) = read_byte(s, p, end)?;
        if bt == 0x40 || valtype_from_byte(bt).is_some() {
            frames.push(if op == 0x04 { 1 } else { 0 });
            Ok(q)
        } else {
            Err(DecodeError::MalformedBlockType)
        }
    } else if op == 0x05 {
        let last = frames.len() - 1;
        if frames[last] == 1 {
            frames.set(last, 2);
            Ok(p)
        } else {
            Err(DecodeError::UnexpectedElse)
        }
    } else if op == 0x0b {
        frames.pop();
        Ok(p)
    } else {
        read_plain_immediates(s, op, p, end)
    }
}

/// Decodes instructions from `pos` until the `end` that closes the block
/// opened just before `pos`; returns the position after it.
pub fn read_expr(s: &[u8], pos: usize, end: usize) -> (r: Result<usize, DecodeError>)
    requires
        end <= s@.len(),
        pos <= end,
    ensures
        r == spec_expr(s@, pos, end, seq![frame_plain()]),
        r matches Ok(q) ==> pos < q <= end,
{
    let mut frames: Vec<u8> = Vec::new();
    frames.push(0);
    let mut p = pos;
    proof {
        assert(frames@ =~= seq![frame_plain()]);
    }
    while frames.len() > 0
        invariant
            end <= s@.len(),
            pos <= p <= end,
            frames@.len() > 0 || p > pos,
            spec_expr(s@, p, end, frames@) == spec_expr(s@, pos, end, seq![frame_plain()]),
        decreases end - p,
    {
        let q = read_instr(s, p, end, &mut frames)?;
        p = q;
    }
    Ok(p)
}

} // verus!

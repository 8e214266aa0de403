use vstd::prelude::*;
use crate::fault::Fault;

verus! {

/// Index of one of the sixteen general registers.
pub type RegId = u8;

/// The second operand of an instruction: a register or an immediate byte.
#[derive(Clone, Copy, Debug, PartialEq, Eq, Structural)]
pub enum Value {
    Reg(RegId),
    Const(u8),
}

/// A decoded instruction.
#[derive(Clone, Copy, Debug, PartialEq, Eq, Structural)]
pub enum Operation {
    // Legacy machine-code call and reserved codes: decoded, never executed.
    CallRCA(u16),
    Unimplemented(u16),

    // Control flow
    Jump(u16),
    Call(u16),
    Return,
    SkipIfEq(RegId, Value),
    SkipIfNotEq(RegId, Value),

    // Arithmetic
    Assign(RegId, Value),
    Add(RegId, Value),
    Sub(RegId, RegId),
    SubRev(RegId, RegId),
    Or(RegId, RegId),
    And(RegId, RegId),
    Xor(RegId, RegId),
    Shr(RegId, RegId),
    Shl(RegId, RegId),

    // Address register
    SetAddr(u16),
    AddAddr(RegId),
    JumpWithOffset(u16),

    // Multi-byte transfers
    StoreBcd(RegId),
    LoadBytes(RegId),
    StoreBytes(RegId),

    // Randomness and display
    GetRandom(RegId, u8),
    Draw(RegId, RegId, u8),
    LoadGlyph(RegId),
    ClearScreen,

    // Keyboard
    SkipIfKeyPressed(RegId),
    SkipIfKeyNotPressed(RegId),
    KeyWait(RegId),

    // Timers
    GetDelay(RegId),
    SetDelay(RegId),
    SetSound(RegId),
}

pub open spec fn value_wf(v: Value) -> bool {
    match v {
        Value::Reg(r) => r < 16,
        Value::Const(_) => true,
    }
}

impl Operation {
    /// Every register operand names one of the sixteen registers, every
    /// address operand fits in 12 bits and every sprite height in 4.
    pub open spec fn wf(self) -> bool {
        match self {
            Operation::CallRCA(a) => a < 0x1000,
            Operation::Unimplemented(_) => true,
            Operation::Jump(a) => a < 0x1000,
            Operation::Call(a) => a < 0x1000,
            Operation::Return => true,
            Operation::SkipIfEq(r, v) => r < 16 && value_wf(v),
            Operation::SkipIfNotEq(r, v) => r < 16 && value_wf(v),
            Operation::Assign(r, v) => r < 16 && value_wf(v),
            Operation::Add(r, v) => r < 16 && value_wf(v),
            Operation::Sub(a, b) => a < 16 && b < 16,
            Operation::SubRev(a, b) => a < 16 && b < 16,
            Operation::Or(a, b) => a < 16 && b < 16,
            Operation::And(a, b) => a < 16 && b < 16,
            Operation::Xor(a, b) => a < 16 && b < 16,
            Operation::Shr(a, b) => a < 16 && b < 16,
            Operation::Shl(a, b) => a < 16 && b < 16,
            Operation::SetAddr(a) => a < 0x1000,
            Operation::AddAddr(r) => r < 16,
            Operation::JumpWithOffset(a) => a < 0x1000,
            Operation::StoreBcd(r) => r < 16,
            Operation::LoadBytes(r) => r < 16,
            Operation::StoreBytes(r) => r < 16,
            Operation::GetRandom(r, _) => r < 16,
            Operation::Draw(x, y, n) => x < 16 && y < 16 && n < 16,
            Operation::LoadGlyph(r) => r < 16,
            Operation::ClearScreen => true,
            Operation::SkipIfKeyPressed(r) => r < 16,
            Operation::SkipIfKeyNotPressed(r) => r < 16,
            Operation::KeyWait(r) => r < 16,
            Operation::GetDelay(r) => r < 16,
            Operation::SetDelay(r) => r < 16,
            Operation::SetSound(r) => r < 16,
        }
    }
}

/// Bits 15-12 of an instruction word: the operation family.
pub open spec fn family(w: u16) -> u8 {
    (w / 0x1000) as u8
}

/// Bits 11-8: the first register operand.
pub open spec fn field_x(w: u16) -> u8 {
    ((w / 0x100) % 0x10) as u8
}

/// Bits 7-4: the second register operand.
pub open spec fn field_y(w: u16) -> u8 {
    ((w / 0x10) % 0x10) as u8
}

/// Bits 3-0.
pub open spec fn field_n(w: u16) -> u8 {
    (w % 0x10) as u8
}

/// Bits 7-0: an immediate byte.
pub open spec fn field_nn(w: u16) -> u8 {
    (w % 0x100) as u8
}

/// Bits 11-0: an address.
pub open spec fn field_nnn(w: u16) -> u16 {
    (w % 0x1000) as u16
}

/// The instruction that a word encodes, or the decode error it raises.
#[verifier::opaque]
pub open spec fn decode_spec(w: u16) -> Result<Operation, Fault> {
    let x = field_x(w);
    let y = field_y(w);
    let n = field_n(w);
    let nn = field_nn(w);
    let nnn = field_nnn(w);
    let invalid = Err(Fault::DecodeError(w));
    if family(w) == 0x0 {
        if nnn == 0x0E0 {
            Ok(Operation::ClearScreen)
        } else if nnn == 0x0EE {
            Ok(Operation::Return)
        } else {
            Ok(Operation::CallRCA(nnn))
        }
    } else if family(w) == 0x1 {
        Ok(Operation::Jump(nnn))
    } else if family(w) == 0x2 {
        Ok(Operation::Call(nnn))
    } else if family(w) == 0x3 {
        Ok(Operation::SkipIfEq(x, Value::Const(nn)))
    } else if family(w) == 0x4 {
        Ok(Operation::SkipIfNotEq(x, Value::Const(nn)))
    } else if family(w) == 0x5 {
        if n == 0 { Ok(Operation::SkipIfEq(x, Value::Reg(y))) } else { invalid }
    } else if family(w) == 0x6 {
        Ok(Operation::Assign(x, Value::Const(nn)))
    } else if family(w) == 0x7 {
        Ok(Operation::Add(x, Value::Const(nn)))
    } else if family(w) == 0x8 {
        if n == 0x0 {
            Ok(Operation::Assign(x, Value::Reg(y)))
        } else if n == 0x1 {
            Ok(Operation::Or(x, y))
        } else if n == 0x2 {
            Ok(Operation::And(x, y))
        } else if n == 0x3 {
            Ok(Operation::Xor(x, y))
        } else if n == 0x4 {
            Ok(Operation::Add(x, Value::Reg(y)))
        } else if n == 0x5 {
            Ok(Operation::Sub(x, y))
        } else if n == 0x6 {
            Ok(Operation::Shr(x, y))
        } else if n == 0x7 {
            Ok(Operation::SubRev(x, y))
        } else if n == 0xE {
            Ok(Operation::Shl(x, y))
        } else {
            invalid
        }
    } else if family(w) == 0x9 {
        if n == 0 { Ok(Operation::SkipIfNotEq(x, Value::Reg(y))) } else { invalid }
    } else if family(w) == 0xA {
        Ok(Operation::SetAddr(nnn))
    } else if family(w) == 0xB {
        Ok(Operation::JumpWithOffset(nnn))
    } else if family(w) == 0xC {
        Ok(Operation::GetRandom(x, nn))
    } else if family(w) == 0xD {
        Ok(Operation::Draw(x, y, n))
    } else if family(w) == 0xE {
        if nn == 0x9E {
            Ok(Operation::SkipIfKeyPressed(x))
        } else if nn == 0xA1 {
            Ok(Operation::SkipIfKeyNotPressed(x))
        } else {
            invalid
        }
    } else {
        if nn == 0x07 {
            Ok(Operation::GetDelay(x))
        } else if nn == 0x0A {
            Ok(Operation::KeyWait(x))
        } else if nn == 0x15 {
            Ok(Operation::SetDelay(x))
        } else if nn == 0x18 {
            Ok(Operation::SetSound(x))
        } else if nn == 0x1E {
            Ok(Operation::AddAddr(x))
        } else if nn == 0x29 {
            Ok(Operation::LoadGlyph(x))
        } else if nn == 0x33 {
            Ok(Operation::StoreBcd(x))
        } else if nn == 0x55 {
            Ok(Operation::StoreBytes(x))
        } else if nn == 0x65 {
            Ok(Operation::LoadBytes(x))
        } else if nn == 0x75 || nn == 0x85 {
            Ok(Operation::Unimplemented(w))
        } else {
            invalid
        }
    }
}

pub fn mask01(op: u16) -> (r: u8)
    ensures
        r == family(op),
        r < 16,
{
    let r = ((op & 0xF000) >> 12) as u8;
    assert(((op & 0xF000) >> 12) == op / 0x1000) by (bit_vector);
    r
}

pub fn mask11(op: u16) -> (r: u8)
    ensures
        r == field_x(op),
        r < 16,
{
    assert(((op & 0x0F00) >> 8) == (op / 0x100) % 0x10) by (bit_vector);
    ((op & 0x0F00) >> 8) as u8
}

pub fn mask13(op: u16) -> (r: u16)
    ensures
        r == field_nnn(op),
        r < 0x1000,
{
    assert((op & 0x0FFF) == op % 0x1000) by (bit_vector);
    op & 0x0FFF
}

pub fn mask21(op: u16) -> (r: u8)
    ensures
        r == field_y(op),
        r < 16,
{
    assert(((op & 0x00F0) >> 4) == (op / 0x10) % 0x10) by (bit_vector);
    ((op & 0x00F0) >> 4) as u8
}

pub fn mask22(op: u16) -> (r: u8)
    ensures
        r == field_nn(op),
{
    assert((op & 0x00FF) == op % 0x100) by (bit_vector);
    (op & 0x00FF) as u8
}

pub fn mask31(op: u16) -> (r: u8)
    ensures
        r == field_n(op),
        r < 16,
{
    assert((op & 0x000F) == op % 0x10) by (bit_vector);
    (op & 0x000F) as u8
}

/// Decodes one instruction word.
pub fn decode(op: u16) -> (r: Result<Operation, Fault>)
    ensures
        r == decode_spec(op),
        r is Ok ==> r->Ok_0.wf(),
{
    reveal(decode_spec);
    let x = mask11(op);
    let y = mask21(op);
    let n = mask31(op);
    let nn = mask22(op);
    let nnn = mask13(op);
    let invalid = Err(Fault::DecodeError(op));
    match mask01(op) {
        0x0 => {
            if nnn == 0x0E0 {
                Ok(Operation::ClearScreen)
            } else if nnn == 0x0EE {
                Ok(Operation::Return)
            } else {
                Ok(Operation::CallRCA(nnn))
            }
        },
        0x1 => Ok(Operation::Jump(nnn)),
        0x2 => Ok(Operation::Call(nnn)),
        0x3 => Ok(Operation::SkipIfEq(x, Value::Const(nn))),
        0x4 => Ok(Operation::SkipIfNotEq(x, Value::Const(nn))),
        0x5 => if n == 0 { Ok(Operation::SkipIfEq(x, Value::Reg(y))) } else { invalid },
        0x6 => Ok(Operation::Assign(x, Value::Const(nn))),
        0x7 => Ok(Operation::Add(x, Value::Const(nn))),
        0x8 => match n {
            0x0 => Ok(Operation::Assign(x, Value::Reg(y))),
            0x1 => Ok(Operation::Or(x, y)),
            0x2 => Ok(Operation::And(x, y)),
            0x3 => Ok(Operation::Xor(x, y)),
            0x4 => Ok(Operation::Add(x, Value::Reg(y))),
            0x5 => Ok(Operation::Sub(x, y)),
            0x6 => Ok(Operation::Shr(x, y)),
            0x7 => Ok(Operation::SubRev(x, y)),
            0xE => Ok(Operation::Shl(x, y)),
            _ => invalid,
        },
        0x9 => if n == 0 { Ok(Operation::SkipIfNotEq(x, Value::Reg(y))) } else { invalid },
        0xA => Ok(Operation::SetAddr(nnn)),
        0xB => Ok(Operation::JumpWithOffset(nnn)),
        0xC => Ok(Operation::GetRandom(x, nn)),
        0xD => Ok(Operation::Draw(x, y, n)),
        0xE => match nn {
            0x9E => Ok(Operation::SkipIfKeyPressed(x)),
            0xA1 => Ok(Operation::SkipIfKeyNotPressed(x)),
            _ => invalid,
        },
        _ => match nn {
            0x07 => Ok(Operation::GetDelay(x)),
            0x0A => Ok(Operation::KeyWait(x)),
            0x15 => Ok(Operation::SetDelay(x)),
            0x18 => Ok(Operation::SetSound(x)),
            0x1E => Ok(Operation::AddAddr(x)),
            0x29 => Ok(Operation::LoadGlyph(x)),
            0x33 => Ok(Operation::StoreBcd(x)),
            0x55 => Ok(Operation::StoreBytes(x)),
            0x65 => Ok(Operation::LoadBytes(x)),
            0x75 | 0x85 => Ok(Operation::Unimplemented(op)),
            _ => invalid,
        },
    }
}

} // verus!

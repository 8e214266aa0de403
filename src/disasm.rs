use vstd::prelude::*;
use vstd::string::*;
use crate::decoder::{family, field_n, field_nn, field_nnn, field_x, field_y, mask01, mask11, mask13, mask21, mask22, mask31};

verus! {

/// The text of digit `d` (0 to 15) in lower-case hexadecimal.
pub open spec fn digit_text(d: int) -> Seq<char> {
    if d == 0 { "0"@ }
    else if d == 1 { "1"@ }
    else if d == 2 { "2"@ }
    else if d == 3 { "3"@ }
    else if d == 4 { "4"@ }
    else if d == 5 { "5"@ }
    else if d == 6 { "6"@ }
    else if d == 7 { "7"@ }
    else if d == 8 { "8"@ }
    else if d == 9 { "9"@ }
    else if d == 10 { "a"@ }
    else if d == 11 { "b"@ }
    else if d == 12 { "c"@ }
    else if d == 13 { "d"@ }
    else if d == 14 { "e"@ }
    else { "f"@ }
}

/// `n` in lower-case hexadecimal, without leading zeros.
pub open spec fn hex_text(n: nat) -> Seq<char>
    decreases n,
{
    if n < 16 { digit_text(n as int) } else { hex_text(n / 16) + digit_text((n % 16) as int) }
}

/// `n` in decimal, without leading zeros.
pub open spec fn dec_text(n: nat) -> Seq<char>
    decreases n,
{
    if n < 10 { digit_text(n as int) } else { dec_text(n / 10) + digit_text((n % 10) as int) }
}

/// How many hexadecimal digits `hex_text(n)` has.
pub open spec fn hex_count(n: nat) -> nat
    decreases n,
{
    if n < 16 { 1 } else { 1 + hex_count(n / 16) }
}

/// `k` copies of `t`.
pub open spec fn repeat(t: Seq<char>, k: nat) -> Seq<char>
    decreases k,
{
    if k == 0 { Seq::empty() } else { repeat(t, (k - 1) as nat) + t }
}

/// `n` in hexadecimal, padded on the left with `pad` to `width` digits.
pub open spec fn hex_padded(n: nat, width: nat, pad: Seq<char>) -> Seq<char> {
    let count = if width > hex_count(n) { (width - hex_count(n)) as nat } else { 0 };
    repeat(pad, count) + hex_text(n)
}

/// `V` and a register number in hexadecimal.
pub open spec fn reg_text(r: u8) -> Seq<char> {
    "V"@ + hex_text(r as nat)
}

/// The text for a word with no instruction.
pub open spec fn invalid_text(op: u16) -> Seq<char> {
    "FAIL (OPCODE INVALID "@ + hex_padded(op as nat, 4, " "@) + ")"@
}

/// The text for a legacy or reserved word.
pub open spec fn missing_text(op: u16) -> Seq<char> {
    "FAIL (OPCODE MISSING "@ + hex_padded(op as nat, 4, " "@) + ")"@
}

/// The assembly text of one instruction word.
#[verifier::opaque]
pub open spec fn translate_spec(op: u16) -> Seq<char> {
    let x = field_x(op);
    let y = field_y(op);
    let n = field_n(op);
    let nn = field_nn(op);
    let addr = hex_padded(field_nnn(op) as nat, 3, "0"@);
    let f = family(op);
    if f == 0x0 {
        if op == 0x00E0 { "CLR"@ } else if op == 0x00EE { "RET"@ } else { missing_text(op) }
    } else if f == 0x1 {
        "JMP 0x"@ + addr
    } else if f == 0x2 {
        "CLL 0x"@ + addr
    } else if f == 0x3 {
        "IF "@ + reg_text(x) + ", "@ + dec_text(nn as nat)
    } else if f == 0x4 {
        "IF NOT "@ + reg_text(x) + ", "@ + dec_text(nn as nat)
    } else if f == 0x5 {
        "IF "@ + reg_text(x) + ", V"@ + dec_text(nn as nat)
    } else if f == 0x6 {
        "SET "@ + reg_text(x) + ", "@ + dec_text(nn as nat)
    } else if f == 0x7 {
        "ADD "@ + reg_text(x) + ", "@ + dec_text(nn as nat)
    } else if f == 0x8 {
        if n == 0x0 { "SET "@ + reg_text(x) + ", "@ + reg_text(y) }
        else if n == 0x1 { "OR  "@ + reg_text(x) + ", "@ + reg_text(y) }
        else if n == 0x2 { "AND "@ + reg_text(x) + ", "@ + reg_text(y) }
        else if n == 0x3 { "XOR "@ + reg_text(x) + ", "@ + reg_text(y) }
        else if n == 0x4 { "ADD "@ + reg_text(x) + ", "@ + reg_text(y) }
        else if n == 0x5 { "SUB "@ + reg_text(x) + ", "@ + reg_text(y) }
        else if n == 0x6 { "SHR "@ + reg_text(x) + ", "@ + reg_text(y) }
        else if n == 0x7 { "SU2 "@ + reg_text(x) + ", "@ + reg_text(y) }
        else if n == 0xE { "SHL "@ + reg_text(x) + ", "@ + reg_text(y) }
        else { invalid_text(op) }
    } else if f == 0x9 {
        "IF NOT "@ + reg_text(x) + ", "@ + reg_text(y)
    } else if f == 0xA {
        "ADR 0x"@ + addr
    } else if f == 0xB {
        "JMP 0x"@ + addr + ", V0"@
    } else if f == 0xC {
        "RND "@ + reg_text(x) + ", 0x"@ + hex_padded(nn as nat, 2, "0"@)
    } else if f == 0xD {
        "DRW "@ + reg_text(x) + ", "@ + reg_text(y) + ", "@ + dec_text(n as nat)
    } else if f == 0xE {
        if nn == 0x9E { "KEY "@ + dec_text(x as nat) }
        else if nn == 0xA1 { "KEY NOT "@ + dec_text(x as nat) }
        else { invalid_text(op) }
    } else {
        if nn == 0x07 { "GETDELAY "@ + reg_text(x) }
        else if nn == 0x0A { "KEYWAIT "@ + reg_text(x) }
        else if nn == 0x15 { "SETDELAY "@ + reg_text(x) }
        else if nn == 0x18 { "SETSOUND "@ + reg_text(x) }
        else if nn == 0x1E { "ADDR "@ + reg_text(x) }
        else if nn == 0x29 { "FONT "@ + reg_text(x) }
        else if nn == 0x33 { "BCD "@ + reg_text(x) }
        else if nn == 0x55 { "WRITE "@ + reg_text(x) }
        else if nn == 0x65 { "READ "@ + reg_text(x) }
        else if nn == 0x75 || nn == 0x85 { missing_text(op) }
        else { invalid_text(op) }
    }
}

/// The big-endian word made of bytes `2k` and `2k + 1` of `p`.
pub open spec fn word_at(p: Seq<u8>, k: int) -> u16 {
    (p[2 * k] * 256 + p[2 * k + 1]) as u16
}

fn digit_str(d: u16) -> (r: &'static str)
    requires
        d < 16,
    ensures
        r@ == digit_text(d as int),
{
    match d {
        0 => "0",
        1 => "1",
        2 => "2",
        3 => "3",
        4 => "4",
        5 => "5",
        6 => "6",
        7 => "7",
        8 => "8",
        9 => "9",
        10 => "a",
        11 => "b",
        12 => "c",
        13 => "d",
        14 => "e",
        _ => "f",
    }
}

fn push_hex(s: &mut String, n: u16)
    ensures
        final(s)@ == old(s)@ + hex_text(n as nat),
    decreases n,
{
    if n >= 16 {
        push_hex(s, n / 16);
    }
    s.append(digit_str(n % 16));
    proof {
        if n >= 16 {
            assert(old(s)@ + hex_text((n / 16) as nat) + digit_text((n % 16) as int)
                =~= old(s)@ + hex_text(n as nat));
        }
    }
}

fn push_dec(s: &mut String, n: u16)
    ensures
        final(s)@ == old(s)@ + dec_text(n as nat),
    decreases n,
{
    if n >= 10 {
        push_dec(s, n / 10);
    }
    s.append(digit_str(n % 10));
    proof {
        if n >= 10 {
            assert(old(s)@ + dec_text((n / 10) as nat) + digit_text((n % 10) as int)
                =~= old(s)@ + dec_text(n as nat));
        }
    }
}

fn hex_len(n: u16) -> (r: usize)
    ensures
        r == hex_count(n as nat),
        n < 0x100 ==> r <= 2,
        n < 0x1000 ==> r <= 3,
        r <= 4,
    decreases n,
{
    if n < 16 {
        1
    } else {
        1 + hex_len(n / 16)
    }
}

fn push_hex_padded(s: &mut String, n: u16, width: usize, pad: &str)
    ensures
        final(s)@ == old(s)@ + hex_padded(n as nat, width as nat, pad@),
{
    let len = hex_len(n);
    let count = if width > len { width - len } else { 0 };
    let mut i: usize = 0;
    while i < count
        invariant
            i <= count,
            s@ == old(s)@ + repeat(pad@, i as nat),
        decreases count - i,
    {
        s.append(pad);
        i += 1;
        assert(old(s)@ + repeat(pad@, (i - 1) as nat) + pad@ =~= old(s)@ + repeat(pad@, i as nat));
    }
    push_hex(s, n);
    assert(old(s)@ + repeat(pad@, count as nat) + hex_text(n as nat)
        =~= old(s)@ + hex_padded(n as nat, width as nat, pad@));
}

fn reg_string(prefix: &str, r: u8) -> (s: String)
    ensures
        s@ == prefix@ + reg_text(r),
{
    let mut s = String::from_str(prefix);
    s.append("V");
    push_hex(&mut s, r as u16);
    assert(prefix@ + "V"@ + hex_text(r as nat) =~= prefix@ + reg_text(r));
    s
}

fn two_regs(prefix: &str, r1: u8, r2: u8) -> (s: String)
    ensures
        s@ == prefix@ + reg_text(r1) + ", "@ + reg_text(r2),
{
    let mut s = reg_string(prefix, r1);
    s.append(", V");
    push_hex(&mut s, r2 as u16);
    assert(prefix@ + reg_text(r1) + ", V"@ + hex_text(r2 as nat) =~= prefix@ + reg_text(r1) + ", "@
        + reg_text(r2)) by {
        reveal_strlit(", V");
        reveal_strlit(", ");
        reveal_strlit("V");
    }
    s
}

fn reg_and_decimal(prefix: &str, r: u8, sep: &str, val: u8) -> (s: String)
    ensures
        s@ == prefix@ + reg_text(r) + sep@ + dec_text(val as nat),
{
    let mut s = reg_string(prefix, r);
    s.append(sep);
    push_dec(&mut s, val as u16);
    s
}

fn fail_text(prefix: &str, op: u16) -> (s: String)
    ensures
        s@ == prefix@ + hex_padded(op as nat, 4, " "@) + ")"@,
{
    let mut s = String::from_str(prefix);
    push_hex_padded(&mut s, op, 4, " ");
    s.append(")");
    s
}

fn addr_text(prefix: &str, op: u16) -> (s: String)
    ensures
        s@ == prefix@ + hex_padded(field_nnn(op) as nat, 3, "0"@),
{
    let mut s = String::from_str(prefix);
    push_hex_padded(&mut s, mask13(op), 3, "0");
    s
}

/// The assembly text of one instruction word.
pub fn translate(op: u16) -> (r: String)
    ensures
        r@ == translate_spec(op),
{
    reveal(translate_spec);
    let x = mask11(op);
    let y = mask21(op);
    let n = mask31(op);
    let nn = mask22(op);
    match mask01(op) {
        0x0 => {
            if op == 0x00E0 {
                String::from_str("CLR")
            } else if op == 0x00EE {
                String::from_str("RET")
            } else {
                fail_text("FAIL (OPCODE MISSING ", op)
            }
        },
        0x1 => addr_text("JMP 0x", op),
        0x2 => addr_text("CLL 0x", op),
        0x3 => reg_and_decimal("IF ", x, ", ", nn),
        0x4 => reg_and_decimal("IF NOT ", x, ", ", nn),
        0x5 => reg_and_decimal("IF ", x, ", V", nn),
        0x6 => reg_and_decimal("SET ", x, ", ", nn),
        0x7 => reg_and_decimal("ADD ", x, ", ", nn),
        0x8 => match n {
            0x0 => two_regs("SET ", x, y),
            0x1 => two_regs("OR  ", x, y),
            0x2 => two_regs("AND ", x, y),
            0x3 => two_regs("XOR ", x, y),
            0x4 => two_regs("ADD ", x, y),
            0x5 => two_regs("SUB ", x, y),
            0x6 => two_regs("SHR ", x, y),
            0x7 => two_regs("SU2 ", x, y),
            0xE => two_regs("SHL ", x, y),
            _ => fail_text("FAIL (OPCODE INVALID ", op),
        },
        0x9 => two_regs("IF NOT ", x, y),
        0xA => addr_text("ADR 0x", op),
        0xB => {
            let mut s = addr_text("JMP 0x", op);
            s.append(", V0");
            s
        },
        0xC => {
            let mut s = reg_string("RND ", x);
            s.append(", 0x");
            push_hex_padded(&mut s, nn as u16, 2, "0");
            s
        },
        0xD => {
            let mut s = two_regs("DRW ", x, y);
            s.append(", ");
            push_dec(&mut s, n as u16);
            s
        },
        0xE => match nn {
            0x9E => {
                let mut s = String::from_str("KEY ");
                push_dec(&mut s, x as u16);
                s
            },
            0xA1 => {
                let mut s = String::from_str("KEY NOT ");
                push_dec(&mut s, x as u16);
                s
            },
            _ => fail_text("FAIL (OPCODE INVALID ", op),
        },
        _ => match nn {
            0x07 => reg_string("GETDELAY ", x),
            0x0A => reg_string("KEYWAIT ", x),
            0x15 => reg_string("SETDELAY ", x),
            0x18 => reg_string("SETSOUND ", x),
            0x1E => reg_string("ADDR ", x),
            0x29 => reg_string("FONT ", x),
            0x33 => reg_string("BCD ", x),
            0x55 => reg_string("WRITE ", x),
            0x65 => reg_string("READ ", x),
            0x75 | 0x85 => fail_text("FAIL (OPCODE MISSING ", op),
            _ => fail_text("FAIL (OPCODE INVALID ", op),
        },
    }
}

/// The assembly text of each big-endian word of a program of whole words.
pub fn disassemble(prog: &[u8]) -> (r: Vec<String>)
    requires
        prog@.len() % 2 == 0,
    ensures
        r@.len() == prog@.len() / 2,
        forall|k: int| 0 <= k < r@.len() ==> #[trigger] r@[k]@ == translate_spec(word_at(prog@, k)),
{
    let mut out: Vec<String> = Vec::new();
    let mut k: usize = 0;
    while k < prog.len() / 2
        invariant
            prog@.len() % 2 == 0,
            k <= prog@.len() / 2,
            out@.len() == k,
            forall|j: int| 0 <= j < k ==> #[trigger] out@[j]@ == translate_spec(word_at(prog@, j)),
        decreases prog@.len() / 2 - k,
    {
        let word = (prog[2 * k] as u16) * 256 + prog[2 * k + 1] as u16;
        out.push(translate(word));
        k += 1;
    }
    out
}

} // verus!

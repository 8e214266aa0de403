use vstd::prelude::*;
use crate::decoder::{decode, decode_spec, Operation, Value};
use crate::fault::Fault;
use crate::input::{is_down_spec, InputView};
use crate::mem::{
    draw_spec, glyph_addr_spec, push_spec, read_spec, read_word_spec, write_spec, MemView, Memory,
    RAM_START,
};
use crate::registers::{
    add_const_spec, add_reg_spec, diff_spec, shl_spec, shr_spec, Registers, FLAG,
};

verus! {

/// Bytes per instruction.
pub const OPCODE_SIZE: u16 = 2;

/// What a `Cpu` holds, leaving out the random generator.
pub struct CpuView {
    pub v: Seq<u8>,
    pub i: u16,
    pub pc: u16,
    pub delay: u8,
    pub sound: u8,
}

/// `pc + k`, wrapping at 16 bits.
pub open spec fn pc_plus(pc: u16, k: int) -> u16 {
    ((pc + k + 0x10000) % 0x10000) as u16
}

/// The value an operand denotes.
pub open spec fn operand(c: CpuView, val: Value) -> u8 {
    match val {
        Value::Reg(r) => c.v[r as int],
        Value::Const(k) => k,
    }
}

/// `c` with the next instruction skipped when `cond` holds.
pub open spec fn skip_if(c: CpuView, cond: bool) -> CpuView {
    if cond { CpuView { pc: pc_plus(c.pc, 2), ..c } } else { c }
}

/// Writes the hundreds, tens and units digits of `val` at `a`, `a + 1`, `a + 2`.
pub open spec fn bcd_spec(m: MemView, a: int, val: u8) -> Result<MemView, Fault> {
    match write_spec(m, a, (val / 100) % 10) {
        Err(f) => Err(f),
        Ok(m1) => match write_spec(m1, a + 1, (val / 10) % 10) {
            Err(f) => Err(f),
            Ok(m2) => write_spec(m2, a + 2, val % 10),
        },
    }
}

/// Writes registers `0..n` to `base`, `base + 1`, ... in that order.
pub open spec fn store_regs_spec(m: MemView, base: int, v: Seq<u8>, n: int) -> Result<MemView, Fault>
    decreases n,
{
    if n <= 0 {
        Ok(m)
    } else {
        match store_regs_spec(m, base, v, n - 1) {
            Err(f) => Err(f),
            Ok(m1) => write_spec(m1, base + n - 1, v[n - 1]),
        }
    }
}

/// Reads registers `0..n` from `base`, `base + 1`, ... in that order.
pub open spec fn load_regs_spec(m: MemView, base: int, v: Seq<u8>, n: int) -> Result<Seq<u8>, Fault>
    decreases n,
{
    if n <= 0 {
        Ok(v)
    } else {
        match load_regs_spec(m, base, v, n - 1) {
            Err(f) => Err(f),
            Ok(v1) => match read_spec(m, base + n - 1) {
                Err(f) => Err(f),
                Ok(b) => Ok(v1.update(n - 1, b)),
            },
        }
    }
}

/// The effect of operation `op` on a machine whose program counter already
/// points past it; `rnd` is the byte the random-byte instruction draws.
#[verifier::opaque]
pub open spec fn exec_spec(c: CpuView, m: MemView, op: Operation, rnd: u8) -> Result<(CpuView, MemView), Fault> {
    let v = c.v;
    match op {
        Operation::CallRCA(_) => Ok((c, m)),
        Operation::Unimplemented(_) => Ok((c, m)),
        Operation::Jump(a) => Ok((CpuView { pc: a, ..c }, m)),
        Operation::Call(a) => match push_spec(m.stack, c.pc) {
            Err(f) => Err(f),
            Ok(s) => Ok((CpuView { pc: a, ..c }, MemView { stack: s, ..m })),
        },
        Operation::Return => if m.stack.len() == 0 {
            Err(Fault::StackUnderflow)
        } else {
            Ok((CpuView { pc: m.stack.last(), ..c }, MemView { stack: m.stack.drop_last(), ..m }))
        },
        Operation::SkipIfEq(r, val) => Ok((skip_if(c, v[r as int] == operand(c, val)), m)),
        Operation::SkipIfNotEq(r, val) => Ok((skip_if(c, v[r as int] != operand(c, val)), m)),
        Operation::Assign(r, val) => Ok((CpuView { v: v.update(r as int, operand(c, val)), ..c }, m)),
        Operation::Add(r, Value::Const(k)) => Ok((CpuView { v: add_const_spec(v, r as int, k), ..c }, m)),
        Operation::Add(r1, Value::Reg(r2)) => Ok((CpuView { v: add_reg_spec(v, r1 as int, r2 as int), ..c }, m)),
        Operation::Sub(r1, r2) => Ok((CpuView { v: diff_spec(v, r1 as int, r1 as int, r2 as int), ..c }, m)),
        Operation::SubRev(r1, r2) => Ok((CpuView { v: diff_spec(v, r1 as int, r2 as int, r1 as int), ..c }, m)),
        Operation::Or(r1, r2) => Ok((CpuView { v: v.update(r1 as int, v[r1 as int] | v[r2 as int]), ..c }, m)),
        Operation::And(r1, r2) => Ok((CpuView { v: v.update(r1 as int, v[r1 as int] & v[r2 as int]), ..c }, m)),
        Operation::Xor(r1, r2) => Ok((CpuView { v: v.update(r1 as int, v[r1 as int] ^ v[r2 as int]), ..c }, m)),
        Operation::Shr(r1, r2) => Ok((CpuView { v: shr_spec(v, r1 as int, r2 as int), ..c }, m)),
        Operation::Shl(r1, r2) => Ok((CpuView { v: shl_spec(v, r1 as int, r2 as int), ..c }, m)),
        Operation::SetAddr(a) => Ok((CpuView { i: a, ..c }, m)),
        Operation::AddAddr(r) => {
            let sum = c.i + v[r as int];
            Ok((
                CpuView {
                    v: v.update(FLAG as int, if sum > 0xFFF { 1u8 } else { 0u8 }),
                    i: (sum % 0x1000) as u16,
                    ..c
                },
                m,
            ))
        },
        Operation::JumpWithOffset(a) => Ok((CpuView { pc: (a + v[0]) as u16, ..c }, m)),
        Operation::StoreBcd(r) => match bcd_spec(m, c.i as int, v[r as int]) {
            Err(f) => Err(f),
            Ok(m1) => Ok((c, m1)),
        },
        Operation::StoreBytes(r) => match store_regs_spec(m, c.i as int, v, r + 1) {
            Err(f) => Err(f),
            Ok(m1) => Ok((c, m1)),
        },
        Operation::LoadBytes(r) => match load_regs_spec(m, c.i as int, v, r + 1) {
            Err(f) => Err(f),
            Ok(v1) => Ok((CpuView { v: v1, ..c }, m)),
        },
        Operation::GetRandom(r, mask) => Ok((CpuView { v: v.update(r as int, rnd & mask), ..c }, m)),
        Operation::Draw(x, y, n) => match draw_spec(m, v[x as int], v[y as int], n as int, c.i as int) {
            Err(f) => Err(f),
            Ok((m1, hit)) => Ok((CpuView { v: v.update(FLAG as int, if hit { 1u8 } else { 0u8 }), ..c }, m1)),
        },
        Operation::LoadGlyph(r) => match glyph_addr_spec(v[r as int]) {
            Err(f) => Err(f),
            Ok(a) => Ok((CpuView { i: a, ..c }, m)),
        },
        Operation::ClearScreen => Ok((c, MemView { video: crate::video::VideoView {
            screen: Seq::new(256, |_k: int| 0u8),
            dirty: true,
        }, ..m })),
        Operation::SkipIfKeyPressed(r) => Ok((skip_if(c, is_down_spec(m.input, v[r as int])), m)),
        Operation::SkipIfKeyNotPressed(r) => Ok((skip_if(c, !is_down_spec(m.input, v[r as int])), m)),
        Operation::KeyWait(r) => match m.input.latch {
            Some(k) => Ok((
                CpuView { v: v.update(r as int, k), ..c },
                MemView { input: InputView { keys: m.input.keys, latch: None }, ..m },
            )),
            None => Ok((CpuView { pc: pc_plus(c.pc, -2), ..c }, m)),
        },
        Operation::GetDelay(r) => Ok((CpuView { v: v.update(r as int, c.delay), ..c }, m)),
        Operation::SetDelay(r) => Ok((CpuView { delay: v[r as int], ..c }, m)),
        Operation::SetSound(r) => Ok((CpuView { sound: v[r as int], ..c }, m)),
    }
}

/// One instruction step: fetch the word at the program counter, advance the
/// counter by two, decode, execute. Gives the operation executed and the new
/// machine.
pub open spec fn step_spec(c: CpuView, m: MemView, rnd: u8) -> Result<(Operation, CpuView, MemView), Fault> {
    match read_word_spec(m, c.pc as int) {
        Err(f) => Err(f),
        Ok(w) => match decode_spec(w) {
            Err(f) => Err(f),
            Ok(op) => match exec_spec(CpuView { pc: pc_plus(c.pc, 2), ..c }, m, op, rnd) {
                Err(f) => Err(f),
                Ok((c1, m1)) => Ok((op, c1, m1)),
            },
        },
    }
}

/// Whether a step that returned `r` and left `c1`, `m1` behaved as `expected`.
pub open spec fn step_matches(
    expected: Result<(Operation, CpuView, MemView), Fault>,
    r: Result<Operation, Fault>,
    c1: CpuView,
    m1: MemView,
) -> bool {
    match expected {
        Ok((op, c, m)) => r == Ok::<Operation, Fault>(op) && c1 == c && m1 == m,
        Err(f) => r == Err::<Operation, Fault>(f),
    }
}

/// The timers after one tick: each counts down by one, stopping at zero.
pub open spec fn tick_spec(c: CpuView) -> CpuView {
    CpuView {
        delay: if c.delay > 0 { (c.delay - 1) as u8 } else { 0 },
        sound: if c.sound > 0 { (c.sound - 1) as u8 } else { 0 },
        ..c
    }
}

proof fn lemma_store_err_persists(m: MemView, base: int, v: Seq<u8>, k: int, n: int)
    requires
        0 <= k <= n,
        store_regs_spec(m, base, v, k) is Err,
    ensures
        store_regs_spec(m, base, v, n) == store_regs_spec(m, base, v, k),
    decreases n - k,
{
    if k < n {
        lemma_store_err_persists(m, base, v, k, n - 1);
    }
}

proof fn lemma_load_err_persists(m: MemView, base: int, v: Seq<u8>, k: int, n: int)
    requires
        0 <= k <= n,
        load_regs_spec(m, base, v, k) is Err,
    ensures
        load_regs_spec(m, base, v, n) == load_regs_spec(m, base, v, k),
    decreases n - k,
{
    if k < n {
        lemma_load_err_persists(m, base, v, k, n - 1);
    }
}

/// Registers and timers zero, program counter at the start of program memory.
pub open spec fn cpu_power_on() -> CpuView {
    CpuView { v: Seq::new(16, |_k: int| 0u8), i: 0, pc: RAM_START, delay: 0, sound: 0 }
}

/// The processor: registers, program counter and the two timers.
pub struct Cpu {
    pub delay: u8,
    pub sound: u8,
    pub regs: Registers,
    pub pc: u16,
}

impl View for Cpu {
    type V = CpuView;

    open spec fn view(&self) -> CpuView {
        CpuView { v: self.regs.V@, i: self.regs.I, pc: self.pc, delay: self.delay, sound: self.sound }
    }
}

impl Cpu {
    /// Registers and timers zero, program counter at the start of program
    /// memory, generator seeded with the default seed.
    pub fn new() -> (r: Cpu)
        ensures
            r@ == cpu_power_on(),
    {
        Cpu { delay: 0, sound: 0, regs: Registers::new(), pc: RAM_START }
    }

    /// As `new`, with the generator seeded with `seed`.
    pub fn with_seed(seed: u64) -> (r: Cpu)
        ensures
            r@ == cpu_power_on(),
    {
        Cpu { delay: 0, sound: 0, regs: Registers::with_seed(seed), pc: RAM_START }
    }

    /// One 60 Hz timer tick.
    pub fn tick(&mut self)
        ensures
            final(self)@ == tick_spec(old(self)@),
    {
        if self.delay > 0 {
            self.delay -= 1;
        }
        if self.sound > 0 {
            self.sound -= 1;
        }
    }

    fn skip_next(&mut self)
        ensures
            final(self)@ == (CpuView { pc: pc_plus(old(self)@.pc, 2), ..old(self)@ }),
    {
        self.pc = ((self.pc as u32 + OPCODE_SIZE as u32) % 0x10000) as u16;
    }

    fn store_bytes(&mut self, mem: &mut Memory, r: u8) -> (res: Result<(), Fault>)
        requires
            old(mem).wf(),
            r < 16,
        ensures
            final(mem).wf(),
            final(self)@ == old(self)@,
            match store_regs_spec(old(mem)@, old(self)@.i as int, old(self)@.v, r + 1) {
                Ok(m) => res is Ok && final(mem)@ == m,
                Err(f) => res == Err::<(), Fault>(f),
            },
    {
        let base = self.regs.I as u32;
        let mut k: u8 = 0;
        while k <= r
            invariant
                mem.wf(),
                k <= r + 1,
                r < 16,
                self@ == old(self)@,
                base == old(self)@.i,
                store_regs_spec(old(mem)@, base as int, old(self)@.v, k as int) == Ok::<MemView, Fault>(mem@),
            decreases r + 1 - k,
        {
            match mem.write_addr(base + k as u32, self.regs.V[k as usize]) {
                Ok(()) => {},
                Err(f) => {
                    proof {
                        lemma_store_err_persists(old(mem)@, base as int, old(self)@.v, k + 1, r + 1);
                    }
                    return Err(f);
                },
            }
            k += 1;
        }
        Ok(())
    }

    fn load_bytes(&mut self, mem: &Memory, r: u8) -> (res: Result<(), Fault>)
        requires
            mem.wf(),
            r < 16,
        ensures
            match load_regs_spec(mem@, old(self)@.i as int, old(self)@.v, r + 1) {
                Ok(v) => res is Ok && final(self)@ == (CpuView { v: v, ..old(self)@ }),
                Err(f) => res == Err::<(), Fault>(f),
            },
    {
        let base = self.regs.I as u32;
        let mut k: u8 = 0;
        while k <= r
            invariant
                k <= r + 1,
                r < 16,
                base == old(self)@.i,
                self@ == (CpuView { v: self@.v, ..old(self)@ }),
                load_regs_spec(mem@, base as int, old(self)@.v, k as int) == Ok::<Seq<u8>, Fault>(self@.v),
                mem.wf(),
            decreases r + 1 - k,
        {
            match mem.read_addr(base + k as u32) {
                Ok(b) => {
                    self.regs.V[k as usize] = b;
                },
                Err(f) => {
                    proof {
                        lemma_load_err_persists(mem@, base as int, old(self)@.v, k + 1, r + 1);
                    }
                    return Err(f);
                },
            }
            k += 1;
        }
        Ok(())
    }

    /// Executes `op`, the program counter already pointing past it, with
    /// `rnd` as the byte a random-byte instruction draws.
    pub fn execute(&mut self, mem: &mut Memory, op: Operation, rnd: u8) -> (r: Result<(), Fault>)
        requires
            old(mem).wf(),
            op.wf(),
        ensures
            final(mem).wf(),
            match exec_spec(old(self)@, old(mem)@, op, rnd) {
                Ok((c, m)) => r is Ok && final(self)@ == c && final(mem)@ == m,
                Err(f) => r == Err::<(), Fault>(f),
            },
    {
        reveal(exec_spec);
        match op {
            Operation::CallRCA(_) => {},
            Operation::Unimplemented(_) => {},
            Operation::Jump(a) => self.pc = a,
            Operation::Call(a) => {
                mem.stack_push(self.pc)?;
                self.pc = a;
            },
            Operation::Return => self.pc = mem.stack_pop()?,
            Operation::SkipIfEq(r, Value::Const(k)) => {
                if self.regs.cmp_val(r, k) {
                    self.skip_next();
                }
            },
            Operation::SkipIfEq(r1, Value::Reg(r2)) => {
                if self.regs.cmp_reg(r1, r2) {
                    self.skip_next();
                }
            },
            Operation::SkipIfNotEq(r, Value::Const(k)) => {
                if !self.regs.cmp_val(r, k) {
                    self.skip_next();
                }
            },
            Operation::SkipIfNotEq(r1, Value::Reg(r2)) => {
                if !self.regs.cmp_reg(r1, r2) {
                    self.skip_next();
                }
            },
            Operation::Assign(r, Value::Const(k)) => self.regs.V[r as usize] = k,
            Operation::Assign(r1, Value::Reg(r2)) => self.regs.V[r1 as usize] = self.regs.V[r2 as usize],
            Operation::Add(r, Value::Const(k)) => self.regs.addx(r, k),
            Operation::Add(r1, Value::Reg(r2)) => self.regs.addr(r1, r2),
            Operation::Sub(r1, r2) => self.regs.subr(r1, r2),
            Operation::SubRev(r1, r2) => self.regs.sub2r(r1, r2),
            Operation::Or(r1, r2) => self.regs.orr(r1, r2),
            Operation::And(r1, r2) => self.regs.andr(r1, r2),
            Operation::Xor(r1, r2) => self.regs.xorr(r1, r2),
            Operation::Shr(r1, r2) => self.regs.shr(r1, r2),
            Operation::Shl(r1, r2) => self.regs.shl(r1, r2),
            Operation::SetAddr(a) => self.regs.I = a,
            Operation::AddAddr(r) => {
                let sum: u32 = self.regs.I as u32 + self.regs.V[r as usize] as u32;
                self.regs.V[FLAG] = if sum > 0xFFF { 1 } else { 0 };
                self.regs.I = (sum % 0x1000) as u16;
            },
            Operation::JumpWithOffset(a) => self.pc = a + self.regs.V[0] as u16,
            Operation::StoreBcd(r) => {
                let val = self.regs.V[r as usize];
                let base = self.regs.I as u32;
                mem.write_addr(base, (val / 100) % 10)?;
                mem.write_addr(base + 1, (val / 10) % 10)?;
                mem.write_addr(base + 2, val % 10)?;
            },
            Operation::StoreBytes(r) => self.store_bytes(mem, r)?,
            Operation::LoadBytes(r) => self.load_bytes(mem, r)?,
            Operation::GetRandom(r, mask) => self.regs.V[r as usize] = rnd & mask,
            Operation::Draw(x, y, n) => {
                let hit = mem.draw(self.regs.V[x as usize], self.regs.V[y as usize], n, self.regs.I)?;
                self.regs.V[FLAG] = hit;
            },
            Operation::LoadGlyph(r) => self.regs.I = mem.load_glyph(self.regs.V[r as usize])?,
            Operation::ClearScreen => mem.clear_disp(),
            Operation::SkipIfKeyPressed(r) => {
                if mem.is_keydown(self.regs.V[r as usize]) {
                    self.skip_next();
                }
            },
            Operation::SkipIfKeyNotPressed(r) => {
                if !mem.is_keydown(self.regs.V[r as usize]) {
                    self.skip_next();
                }
            },
            Operation::KeyWait(r) => match mem.get_key() {
                Some(key) => self.regs.V[r as usize] = key,
                None => self.pc = ((self.pc as u32 + 0x10000 - OPCODE_SIZE as u32) % 0x10000) as u16,
            },
            Operation::GetDelay(r) => self.regs.V[r as usize] = self.delay,
            Operation::SetDelay(r) => self.delay = self.regs.V[r as usize],
            Operation::SetSound(r) => self.sound = self.regs.V[r as usize],
        }
        Ok(())
    }

    /// Executes one instruction: fetches the word at the program counter,
    /// advances the counter by two, decodes and executes it. Returns the
    /// operation executed; the legacy and reserved codes are returned without
    /// effect, for the host to report.
    pub fn exec(&mut self, mem: &mut Memory) -> (r: Result<Operation, Fault>)
        requires
            old(mem).wf(),
        ensures
            final(mem).wf(),
            exists|rnd: u8| step_matches(step_spec(old(self)@, old(mem)@, rnd), r, final(self)@, final(mem)@),
    {
        let word = match mem.read_word(self.pc) {
            Ok(w) => w,
            Err(f) => {
                assert(step_matches(step_spec(old(self)@, old(mem)@, 0), Err(f), self@, mem@));
                return Err(f);
            },
        };
        self.pc = ((self.pc as u32 + OPCODE_SIZE as u32) % 0x10000) as u16;
        let op = match decode(word) {
            Ok(op) => op,
            Err(f) => {
                assert(step_matches(step_spec(old(self)@, old(mem)@, 0), Err(f), self@, mem@));
                return Err(f);
            },
        };
        let rnd: u8 = match op {
            Operation::GetRandom(_, _) => self.regs.random_byte(),
            _ => 0,
        };
        match self.execute(mem, op, rnd) {
            Ok(()) => {
                assert(step_matches(step_spec(old(self)@, old(mem)@, rnd), Ok(op), self@, mem@));
                Ok(op)
            },
            Err(f) => {
                assert(step_matches(step_spec(old(self)@, old(mem)@, rnd), Err(f), self@, mem@));
                Err(f)
            },
        }
    }
}

} // verus!

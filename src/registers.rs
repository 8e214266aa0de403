#![allow(non_snake_case)]

use vstd::prelude::*;
use rand::rngs::StdRng;
use rand::{Rng, SeedableRng};

verus! {

#[verifier::external_type_specification]
#[verifier::external_body]
pub struct ExStdRng(StdRng);

/// Relies on rand's `SeedableRng::seed_from_u64` for `StdRng`, which expands
/// the seed with a fixed generator and cannot fail.
#[verifier::external_body]
fn seeded_rng(seed: u64) -> StdRng {
    StdRng::seed_from_u64(seed)
}

/// Relies on rand's `Rng::gen::<u8>` on `StdRng`: it advances the generator
/// and returns a byte, any byte.
#[verifier::external_body]
fn next_random_byte(rng: &mut StdRng) -> u8 {
    rng.gen::<u8>()
}

/// The seed of a register file made with `Registers::new`.
pub const DEFAULT_SEED: u64 = 0x0C8_1977;

/// Index of the register that receives carries, borrows, shifted-out bits and
/// draw collisions.
pub const FLAG: usize = 0xF;

/// `v` with the flag register set to `flag`, then register `r` set to `val`
/// (so a result aimed at the flag register itself wins over the flag).
pub open spec fn flag_then(v: Seq<u8>, flag: u8, r: int, val: u8) -> Seq<u8> {
    v.update(FLAG as int, flag).update(r, val)
}

/// `v[r] += k`, wrapping at 256, flag untouched.
pub open spec fn add_const_spec(v: Seq<u8>, r: int, k: u8) -> Seq<u8> {
    v.update(r, ((v[r] + k) % 256) as u8)
}

/// `v[r1] += v[r2]`, flag = carry out of bit 7.
pub open spec fn add_reg_spec(v: Seq<u8>, r1: int, r2: int) -> Seq<u8> {
    let sum = v[r1] + v[r2];
    flag_then(v, if sum > 255 { 1 } else { 0 }, r1, (sum % 256) as u8)
}

/// `v[dst] = v[a] - v[b]`, wrapping at 256; flag = 0 when the subtraction
/// borrows, else 1.
pub open spec fn diff_spec(v: Seq<u8>, dst: int, a: int, b: int) -> Seq<u8> {
    flag_then(v, if v[a] < v[b] { 0 } else { 1 }, dst, ((v[a] - v[b] + 256) % 256) as u8)
}

/// `v[r1] = v[r2] >> 1`, flag = the bit shifted out.
pub open spec fn shr_spec(v: Seq<u8>, r1: int, r2: int) -> Seq<u8> {
    flag_then(v, v[r2] % 2, r1, v[r2] / 2)
}

/// `v[r1] = v[r2] << 1` truncated to a byte, flag = the bit shifted out.
pub open spec fn shl_spec(v: Seq<u8>, r1: int, r2: int) -> Seq<u8> {
    flag_then(v, v[r2] / 128, r1, ((v[r2] * 2) % 256) as u8)
}

/// The sixteen data registers, the address register and the generator that
/// feeds the random-byte instruction.
pub struct Registers {
    pub V: [u8; 16],
    pub I: u16,
    pub rng: StdRng,
}

impl Registers {
    /// All registers zero; the generator seeded with `DEFAULT_SEED`.
    pub fn new() -> (r: Registers)
        ensures
            r.V@ == Seq::new(16, |_k: int| 0u8),
            r.I == 0,
    {
        Registers::with_seed(DEFAULT_SEED)
    }

    /// All registers zero; the generator seeded with `seed`.
    pub fn with_seed(seed: u64) -> (r: Registers)
        ensures
            r.V@ == Seq::new(16, |_k: int| 0u8),
            r.I == 0,
    {
        let r = Registers { V: [0u8; 16], I: 0, rng: seeded_rng(seed) };
        assert(r.V@ =~= Seq::new(16, |_k: int| 0u8));
        r
    }

    /// Draws the next byte from the generator.
    pub fn random_byte(&mut self) -> (b: u8)
        ensures
            final(self).V@ == old(self).V@,
            final(self).I == old(self).I,
    {
        next_random_byte(&mut self.rng)
    }

    /// Adds `x` to register `r`, wrapping, without touching the flag.
    pub fn addx(&mut self, r: u8, x: u8)
        requires
            r < 16,
        ensures
            final(self).V@ == add_const_spec(old(self).V@, r as int, x),
            final(self).I == old(self).I,
    {
        let sum: u16 = self.V[r as usize] as u16 + x as u16;
        self.V[r as usize] = (sum % 256) as u8;
    }

    /// Adds register `r2` into `r1`; the flag receives the carry.
    pub fn addr(&mut self, r1: u8, r2: u8)
        requires
            r1 < 16,
            r2 < 16,
        ensures
            final(self).V@ == add_reg_spec(old(self).V@, r1 as int, r2 as int),
            final(self).I == old(self).I,
    {
        let sum: u16 = self.V[r1 as usize] as u16 + self.V[r2 as usize] as u16;
        self.V[FLAG] = if sum > 0xFF { 1 } else { 0 };
        self.V[r1 as usize] = (sum % 256) as u8;
    }

    fn diff(&mut self, dst: u8, a: u8, b: u8)
        requires
            dst < 16,
            a < 16,
            b < 16,
        ensures
            final(self).V@ == diff_spec(old(self).V@, dst as int, a as int, b as int),
            final(self).I == old(self).I,
    {
        let va: u16 = self.V[a as usize] as u16;
        let vb: u16 = self.V[b as usize] as u16;
        self.V[FLAG] = if va < vb { 0 } else { 1 };
        self.V[dst as usize] = ((va + 256 - vb) % 256) as u8;
    }

    /// `r1 = r1 - r2`; the flag is 0 on a borrow, else 1.
    pub fn subr(&mut self, r1: u8, r2: u8)
        requires
            r1 < 16,
            r2 < 16,
        ensures
            final(self).V@ == diff_spec(old(self).V@, r1 as int, r1 as int, r2 as int),
            final(self).I == old(self).I,
    {
        self.diff(r1, r1, r2);
    }

    /// `r1 = r2 - r1`; the flag is 0 on a borrow, else 1.
    pub fn sub2r(&mut self, r1: u8, r2: u8)
        requires
            r1 < 16,
            r2 < 16,
        ensures
            final(self).V@ == diff_spec(old(self).V@, r1 as int, r2 as int, r1 as int),
            final(self).I == old(self).I,
    {
        self.diff(r1, r2, r1);
    }

    /// `r1 = r1 | r2`.
    pub fn orr(&mut self, r1: u8, r2: u8)
        requires
            r1 < 16,
            r2 < 16,
        ensures
            final(self).V@ == old(self).V@.update(r1 as int, old(self).V@[r1 as int] | old(self).V@[r2 as int]),
            final(self).I == old(self).I,
    {
        self.V[r1 as usize] = self.V[r1 as usize] | self.V[r2 as usize];
    }

    /// `r1 = r1 & r2`.
    pub fn andr(&mut self, r1: u8, r2: u8)
        requires
            r1 < 16,
            r2 < 16,
        ensures
            final(self).V@ == old(self).V@.update(r1 as int, old(self).V@[r1 as int] & old(self).V@[r2 as int]),
            final(self).I == old(self).I,
    {
        self.V[r1 as usize] = self.V[r1 as usize] & self.V[r2 as usize];
    }

    /// `r1 = r1 ^ r2`.
    pub fn xorr(&mut self, r1: u8, r2: u8)
        requires
            r1 < 16,
            r2 < 16,
        ensures
            final(self).V@ == old(self).V@.update(r1 as int, old(self).V@[r1 as int] ^ old(self).V@[r2 as int]),
            final(self).I == old(self).I,
    {
        self.V[r1 as usize] = self.V[r1 as usize] ^ self.V[r2 as usize];
    }

    /// `r1 = r2 << 1`; the flag receives the bit shifted out.
    pub fn shl(&mut self, r1: u8, r2: u8)
        requires
            r1 < 16,
            r2 < 16,
        ensures
            final(self).V@ == shl_spec(old(self).V@, r1 as int, r2 as int),
            final(self).I == old(self).I,
    {
        let v: u16 = self.V[r2 as usize] as u16;
        self.V[FLAG] = (v / 128) as u8;
        self.V[r1 as usize] = ((v * 2) % 256) as u8;
    }

    /// `r1 = r2 >> 1`; the flag receives the bit shifted out.
    pub fn shr(&mut self, r1: u8, r2: u8)
        requires
            r1 < 16,
            r2 < 16,
        ensures
            final(self).V@ == shr_spec(old(self).V@, r1 as int, r2 as int),
            final(self).I == old(self).I,
    {
        let v: u8 = self.V[r2 as usize];
        self.V[FLAG] = v % 2;
        self.V[r1 as usize] = v / 2;
    }

    /// Whether register `r1` holds `val`.
    pub fn cmp_val(&self, r1: u8, val: u8) -> (r: bool)
        requires
            r1 < 16,
        ensures
            r == (self.V@[r1 as int] == val),
    {
        self.V[r1 as usize] == val
    }

    /// Whether registers `r1` and `r2` hold the same value.
    pub fn cmp_reg(&self, r1: u8, r2: u8) -> (r: bool)
        requires
            r1 < 16,
            r2 < 16,
        ensures
            r == (self.V@[r1 as int] == self.V@[r2 as int]),
    {
        self.V[r1 as usize] == self.V[r2 as usize]
    }

    /// Sets register `r1` to a random byte masked with `x`.
    pub fn rnd_reg(&mut self, r1: u8, x: u8)
        requires
            r1 < 16,
        ensures
            exists|b: u8| final(self).V@ == old(self).V@.update(r1 as int, b & x),
            final(self).I == old(self).I,
    {
        let b = self.random_byte();
        self.V[r1 as usize] = b & x;
        assert(self.V@ == old(self).V@.update(r1 as int, b & x));
    }
}

} // verus!

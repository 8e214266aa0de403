use vstd::prelude::*;
use crate::fault::Fault;
use crate::input::{Input, InputView};
use crate::video::{blit_spec, glyph_area, glyph_byte, Video, VideoView, SCREEN_BYTES};

verus! {

/// First address of the glyph table.
pub const GLYPHS_START: u16 = 0x000;
/// First address of the reserved gap below program memory.
pub const LOW_RESERVED_START: u16 = 0x1A0;
/// First address of program memory, where programs are loaded and run.
pub const RAM_START: u16 = 0x200;
/// First address of the reserved gap below the framebuffer.
pub const RESERVED_START: u16 = 0xEA0;
/// First address of the memory-mapped framebuffer.
pub const DISPLAY_START: u16 = 0xF00;
/// Size of the address space.
pub const TOTAL_MEMORY: u16 = 0x1000;
/// Bytes of program memory.
pub const RAM_SIZE: usize = 0xCA0;
/// Return addresses the call stack holds at most.
pub const STACK_SIZE: usize = 16;

/// Legacy name of the first program address.
pub const MAIN: u16 = RAM_START;

/// Which store an address reaches.
#[derive(Clone, Copy, Debug, PartialEq, Eq, Structural)]
pub enum Location {
    /// Offset into the read-only glyph area.
    Glyph(u16),
    /// One of the two reserved gaps.
    Reserved,
    /// Offset into program memory.
    Ram(usize),
    /// Offset into the framebuffer.
    Display(usize),
    /// Beyond the address space.
    OutOfRange,
}

/// The memory map.
pub open spec fn locate(a: int) -> Location {
    if a >= TOTAL_MEMORY {
        Location::OutOfRange
    } else if a >= DISPLAY_START {
        Location::Display((a - DISPLAY_START) as usize)
    } else if a >= RESERVED_START {
        Location::Reserved
    } else if a >= RAM_START {
        Location::Ram((a - RAM_START) as usize)
    } else if a >= LOW_RESERVED_START {
        Location::Reserved
    } else {
        Location::Glyph(a as u16)
    }
}

/// The bounded call stack, as a sequence with the most recent address last.
pub open spec fn push_spec(s: Seq<u16>, val: u16) -> Result<Seq<u16>, Fault> {
    if s.len() < STACK_SIZE { Ok(s.push(val)) } else { Err(Fault::StackOverflow) }
}

/// Pushes `vals` in order onto `s`, stopping at the first overflow.
pub open spec fn push_all_spec(s: Seq<u16>, vals: Seq<u16>) -> Result<Seq<u16>, Fault>
    decreases vals.len(),
{
    if vals.len() == 0 {
        Ok(s)
    } else {
        match push_all_spec(s, vals.drop_last()) {
            Ok(s1) => push_spec(s1, vals.last()),
            Err(f) => Err(f),
        }
    }
}

/// The return-address stack of at most `STACK_SIZE` entries.
pub struct Stack {
    values: Vec<u16>,
}

impl View for Stack {
    type V = Seq<u16>;

    closed spec fn view(&self) -> Seq<u16> {
        self.values@
    }
}

impl Stack {
    /// The stack holds at most `STACK_SIZE` addresses.
    pub closed spec fn wf(&self) -> bool {
        self.values@.len() <= STACK_SIZE
    }

    /// An empty stack.
    pub fn new() -> (r: Stack)
        ensures
            r.wf(),
            r@ == Seq::<u16>::empty(),
    {
        Stack { values: Vec::new() }
    }

    /// Pushes a return address; fails when the stack is full.
    pub fn push(&mut self, val: u16) -> (r: Result<(), Fault>)
        requires
            old(self).wf(),
        ensures
            final(self).wf(),
            match push_spec(old(self)@, val) {
                Ok(s) => r is Ok && final(self)@ == s,
                Err(f) => r == Err::<(), Fault>(f),
            },
    {
        if self.values.len() < STACK_SIZE {
            self.values.push(val);
            Ok(())
        } else {
            Err(Fault::StackOverflow)
        }
    }

    /// Pops the most recent return address; fails when the stack is empty.
    pub fn pop(&mut self) -> (r: Result<u16, Fault>)
        requires
            old(self).wf(),
        ensures
            final(self).wf(),
            old(self)@.len() == 0 ==> r == Err::<u16, Fault>(Fault::StackUnderflow),
            old(self)@.len() > 0 ==> r == Ok::<u16, Fault>(old(self)@.last())
                && final(self)@ == old(self)@.drop_last(),
    {
        match self.values.pop() {
            Some(val) => Ok(val),
            None => Err(Fault::StackUnderflow),
        }
    }
}

/// What a `Memory` holds.
pub struct MemView {
    pub ram: Seq<u8>,
    pub stack: Seq<u16>,
    pub input: InputView,
    pub video: VideoView,
}

/// The byte at address `a`, or the fault that reading it raises.
pub open spec fn read_spec(m: MemView, a: int) -> Result<u8, Fault> {
    match locate(a) {
        Location::OutOfRange => Err(Fault::AddressOutOfRange(a as u32)),
        Location::Reserved => Err(Fault::ReservedRegionAccess(a as u16)),
        Location::Glyph(o) => Ok(glyph_area(o as int)),
        Location::Ram(o) => Ok(m.ram[o as int]),
        Location::Display(o) => Ok(m.video.screen[o as int]),
    }
}

/// Big-endian word at `a`, `a + 1`.
pub open spec fn read_word_spec(m: MemView, a: int) -> Result<u16, Fault> {
    match read_spec(m, a) {
        Err(f) => Err(f),
        Ok(hi) => match read_spec(m, a + 1) {
            Err(f) => Err(f),
            Ok(lo) => Ok((hi * 256 + lo) as u16),
        },
    }
}

/// Memory after writing `val` at `a`, or the fault that the write raises.
/// A write into the framebuffer marks the screen changed.
pub open spec fn write_spec(m: MemView, a: int, val: u8) -> Result<MemView, Fault> {
    match locate(a) {
        Location::OutOfRange => Err(Fault::AddressOutOfRange(a as u32)),
        Location::Reserved => Err(Fault::ReservedRegionAccess(a as u16)),
        Location::Glyph(_) => Err(Fault::ReadOnlyWrite(a as u16)),
        Location::Ram(o) => Ok(MemView { ram: m.ram.update(o as int, val), ..m }),
        Location::Display(o) => Ok(
            MemView { video: VideoView { screen: m.video.screen.update(o as int, val), dirty: true }, ..m },
        ),
    }
}

/// Big-endian word write: the high byte at `a`, then the low byte at `a + 1`.
pub open spec fn write_word_spec(m: MemView, a: int, val: u16) -> Result<MemView, Fault> {
    match write_spec(m, a, (val / 256) as u8) {
        Err(f) => Err(f),
        Ok(m1) => write_spec(m1, a + 1, (val % 256) as u8),
    }
}

/// Draws the first `n` rows of the sprite at `addr` at pixel (`x`, `y`):
/// row `k` is the byte at `addr + k`, read after rows before it were drawn,
/// XORed in at screen row `(y + k) mod 32`. The screen is marked changed even
/// when `n` is 0. Gives the new memory and whether any row cleared a pixel.
pub open spec fn draw_spec(m: MemView, x: u8, y: u8, n: int, addr: int) -> Result<(MemView, bool), Fault>
    decreases n,
{
    if n <= 0 {
        Ok((MemView { video: VideoView { dirty: true, ..m.video }, ..m }, false))
    } else {
        match draw_spec(m, x, y, n - 1, addr) {
            Err(f) => Err(f),
            Ok((m1, hit)) => match read_spec(m1, addr + n - 1) {
                Err(f) => Err(f),
                Ok(b) => {
                    let (s, h) = blit_spec(m1.video.screen, x, ((y + n - 1) % 32) as u8, b);
                    Ok((MemView { video: VideoView { screen: s, dirty: true }, ..m1 }, hit || h))
                },
            },
        }
    }
}

/// Address of the glyph of hexadecimal digit `val`.
pub open spec fn glyph_addr_spec(val: u8) -> Result<u16, Fault> {
    if val <= 0xF { Ok((GLYPHS_START + val * 5) as u16) } else { Err(Fault::InvalidGlyphIndex(val)) }
}

/// Program memory after copying `prog` to address `addr`.
pub open spec fn load_spec(ram: Seq<u8>, prog: Seq<u8>, addr: int) -> Seq<u8> {
    let off = addr - RAM_START;
    Seq::new(ram.len(), |j: int| if off <= j < off + prog.len() { prog[j - off] } else { ram[j] })
}

/// Zeroed program memory, an empty stack, no key down, a blank screen marked
/// changed.
pub open spec fn mem_power_on() -> MemView {
    MemView {
        ram: Seq::new(RAM_SIZE as nat, |_k: int| 0u8),
        stack: Seq::empty(),
        input: InputView { keys: Seq::new(16, |_k: int| false), latch: None },
        video: VideoView { screen: Seq::new(256, |_k: int| 0u8), dirty: true },
    }
}

/// The address space, the call stack, the keypad and the display.
pub struct Memory {
    pub ram: [u8; 0xCA0],
    pub stack: Stack,
    pub input: Input,
    pub video: Video,
}

impl View for Memory {
    type V = MemView;

    open spec fn view(&self) -> MemView {
        MemView { ram: self.ram@, stack: self.stack@, input: self.input@, video: self.video@ }
    }
}

/// Each part of memory has its fixed size.
pub open spec fn mem_wf(m: MemView) -> bool {
    &&& m.ram.len() == RAM_SIZE
    &&& m.stack.len() <= STACK_SIZE
    &&& m.input.keys.len() == 16
    &&& m.video.screen.len() == SCREEN_BYTES
}

proof fn lemma_draw_err_persists(m: MemView, x: u8, y: u8, k: int, n: int, addr: int)
    requires
        0 <= k <= n,
        draw_spec(m, x, y, k, addr) is Err,
    ensures
        draw_spec(m, x, y, n, addr) == draw_spec(m, x, y, k, addr),
    decreases n - k,
{
    if k < n {
        lemma_draw_err_persists(m, x, y, k, n - 1, addr);
    }
}

impl Memory {
    pub open spec fn wf(&self) -> bool {
        &&& self.stack.wf()
        &&& self.input.wf()
        &&& self.video.wf()
        &&& mem_wf(self@)
    }

    /// Zeroed program memory, an empty stack, no key down, a blank screen.
    pub fn new() -> (r: Memory)
        ensures
            r.wf(),
            r@ == mem_power_on(),
    {
        let r = Memory { ram: [0u8; 0xCA0], stack: Stack::new(), input: Input::new(), video: Video::new() };
        assert(r@.ram =~= Seq::new(RAM_SIZE as nat, |_k: int| 0u8));
        assert(r@ =~= mem_power_on());
        r
    }

    /// Resolves an address to the store it reaches.
    pub fn map_addr(addr: u32) -> (r: Location)
        ensures
            r == locate(addr as int),
    {
        if addr >= TOTAL_MEMORY as u32 {
            Location::OutOfRange
        } else if addr >= DISPLAY_START as u32 {
            Location::Display((addr - DISPLAY_START as u32) as usize)
        } else if addr >= RESERVED_START as u32 {
            Location::Reserved
        } else if addr >= RAM_START as u32 {
            Location::Ram((addr - RAM_START as u32) as usize)
        } else if addr >= LOW_RESERVED_START as u32 {
            Location::Reserved
        } else {
            Location::Glyph(addr as u16)
        }
    }

    pub(crate) fn read_addr(&self, addr: u32) -> (r: Result<u8, Fault>)
        requires
            self.wf(),
        ensures
            r == read_spec(self@, addr as int),
    {
        match Memory::map_addr(addr) {
            Location::OutOfRange => Err(Fault::AddressOutOfRange(addr)),
            Location::Reserved => Err(Fault::ReservedRegionAccess(addr as u16)),
            Location::Glyph(o) => Ok(glyph_byte(o)),
            Location::Ram(o) => Ok(self.ram[o]),
            Location::Display(o) => Ok(self.video.byte(o)),
        }
    }

    pub(crate) fn write_addr(&mut self, addr: u32, val: u8) -> (r: Result<(), Fault>)
        requires
            old(self).wf(),
        ensures
            final(self).wf(),
            match write_spec(old(self)@, addr as int, val) {
                Ok(m) => r is Ok && final(self)@ == m,
                Err(f) => r == Err::<(), Fault>(f) && final(self)@ == old(self)@,
            },
    {
        match Memory::map_addr(addr) {
            Location::OutOfRange => Err(Fault::AddressOutOfRange(addr)),
            Location::Reserved => Err(Fault::ReservedRegionAccess(addr as u16)),
            Location::Glyph(_) => Err(Fault::ReadOnlyWrite(addr as u16)),
            Location::Ram(o) => {
                self.ram[o] = val;
                Ok(())
            },
            Location::Display(o) => {
                self.video.set_byte(o, val);
                Ok(())
            },
        }
    }

    /// Reads the byte at `addr`.
    pub fn read_byte(&self, addr: u16) -> (r: Result<u8, Fault>)
        requires
            self.wf(),
        ensures
            r == read_spec(self@, addr as int),
    {
        self.read_addr(addr as u32)
    }

    /// Reads the big-endian word at `addr`.
    pub fn read_word(&self, addr: u16) -> (r: Result<u16, Fault>)
        requires
            self.wf(),
        ensures
            r == read_word_spec(self@, addr as int),
    {
        let hi = self.read_addr(addr as u32)?;
        let lo = self.read_addr(addr as u32 + 1)?;
        Ok((hi as u16) * 256 + lo as u16)
    }

    /// Writes `val` at `addr`. On a fault nothing changes.
    pub fn write_byte(&mut self, addr: u16, val: u8) -> (r: Result<(), Fault>)
        requires
            old(self).wf(),
        ensures
            final(self).wf(),
            match write_spec(old(self)@, addr as int, val) {
                Ok(m) => r is Ok && final(self)@ == m,
                Err(f) => r == Err::<(), Fault>(f) && final(self)@ == old(self)@,
            },
    {
        self.write_addr(addr as u32, val)
    }

    /// Legacy name of `read_byte`.
    pub fn rb(&self, addr: u16) -> (r: Result<u8, Fault>)
        requires
            self.wf(),
        ensures
            r == read_spec(self@, addr as int),
    {
        self.read_byte(addr)
    }

    /// Legacy name of `read_word`.
    pub fn rw(&self, addr: u16) -> (r: Result<u16, Fault>)
        requires
            self.wf(),
        ensures
            r == read_word_spec(self@, addr as int),
    {
        self.read_word(addr)
    }

    /// Legacy name of `write_byte`.
    pub fn wb(&mut self, addr: u16, val: u8) -> (r: Result<(), Fault>)
        requires
            old(self).wf(),
        ensures
            final(self).wf(),
            match write_spec(old(self)@, addr as int, val) {
                Ok(m) => r is Ok && final(self)@ == m,
                Err(f) => r == Err::<(), Fault>(f) && final(self)@ == old(self)@,
            },
    {
        self.write_byte(addr, val)
    }

    /// Writes the big-endian word `val` at `addr`: the high byte first.
    pub fn ww(&mut self, addr: u16, val: u16) -> (r: Result<(), Fault>)
        requires
            old(self).wf(),
        ensures
            final(self).wf(),
            match write_word_spec(old(self)@, addr as int, val) {
                Ok(m) => r is Ok && final(self)@ == m,
                Err(f) => r == Err::<(), Fault>(f),
            },
    {
        self.write_addr(addr as u32, (val / 256) as u8)?;
        self.write_addr(addr as u32 + 1, (val % 256) as u8)
    }

    /// Copies `prog` into program memory from `addr` on. Fails, changing
    /// nothing, unless the whole range lies in program memory; the fault names
    /// the first address of the range outside it.
    pub fn load(&mut self, prog: &[u8], addr: u16) -> (r: Result<(), Fault>)
        requires
            old(self).wf(),
        ensures
            final(self).wf(),
            (RAM_START <= addr && addr + prog@.len() <= RESERVED_START) ==> r is Ok
                && final(self)@ == (MemView { ram: load_spec(old(self)@.ram, prog@, addr as int), ..old(self)@ }),
            !(RAM_START <= addr && addr + prog@.len() <= RESERVED_START) ==> final(self)@ == old(self)@
                && r == Err::<(), Fault>(Fault::AddressOutOfRange(
                    if RAM_START <= addr < RESERVED_START { RESERVED_START as u32 } else { addr as u32 },
                )),
    {
        if addr < RAM_START || addr >= RESERVED_START {
            if addr == RESERVED_START && prog.len() == 0 {
                assert(load_spec(old(self)@.ram, prog@, addr as int) =~= old(self)@.ram);
                return Ok(());
            }
            return Err(Fault::AddressOutOfRange(addr as u32));
        }
        if prog.len() > (RESERVED_START - addr) as usize {
            return Err(Fault::AddressOutOfRange(RESERVED_START as u32));
        }
        let off = (addr - RAM_START) as usize;
        let mut k: usize = 0;
        while k < prog.len()
            invariant
                self.wf(),
                k <= prog@.len(),
                off + prog@.len() <= RAM_SIZE,
                off == addr - RAM_START,
                self@.stack == old(self)@.stack,
                self@.input == old(self)@.input,
                self@.video == old(self)@.video,
                forall|j: int| 0 <= j < RAM_SIZE ==> self@.ram[j] == if off <= j < off + k {
                    prog@[j - off]
                } else {
                    old(self)@.ram[j]
                },
            decreases prog@.len() - k,
        {
            self.ram[off + k] = prog[k];
            k += 1;
        }
        assert(self@.ram =~= load_spec(old(self)@.ram, prog@, addr as int));
        Ok(())
    }

    /// Pushes a return address.
    pub fn stack_push(&mut self, addr: u16) -> (r: Result<(), Fault>)
        requires
            old(self).wf(),
        ensures
            final(self).wf(),
            match push_spec(old(self)@.stack, addr) {
                Ok(s) => r is Ok && final(self)@ == (MemView { stack: s, ..old(self)@ }),
                Err(f) => r == Err::<(), Fault>(f),
            },
    {
        self.stack.push(addr)
    }

    /// Pops a return address.
    pub fn stack_pop(&mut self) -> (r: Result<u16, Fault>)
        requires
            old(self).wf(),
        ensures
            final(self).wf(),
            old(self)@.stack.len() == 0 ==> r == Err::<u16, Fault>(Fault::StackUnderflow),
            old(self)@.stack.len() > 0 ==> r == Ok::<u16, Fault>(old(self)@.stack.last())
                && final(self)@ == (MemView { stack: old(self)@.stack.drop_last(), ..old(self)@ }),
    {
        self.stack.pop()
    }

    /// Whether key `key` is down; false for codes above 0xF.
    pub fn is_keydown(&self, key: u8) -> (r: bool)
        requires
            self.wf(),
        ensures
            r == crate::input::is_down_spec(self@.input, key),
    {
        self.input.is_keydown(key)
    }

    /// Takes the latched key.
    pub fn get_key(&mut self) -> (r: Option<u8>)
        requires
            old(self).wf(),
        ensures
            final(self).wf(),
            r == old(self)@.input.latch,
            final(self)@ == (MemView {
                input: InputView { keys: old(self)@.input.keys, latch: None },
                ..old(self)@
            }),
    {
        self.input.get_key()
    }

    /// Blanks the screen.
    pub fn clear_disp(&mut self)
        requires
            old(self).wf(),
        ensures
            final(self).wf(),
            final(self)@ == (MemView {
                video: VideoView { screen: Seq::new(256, |_k: int| 0u8), dirty: true },
                ..old(self)@
            }),
    {
        self.video.clear();
    }

    /// Draws the `h`-row sprite stored at `addr` at pixel (`x`, `y`).
    /// Returns 1 if any pixel was cleared, else 0.
    pub fn draw(&mut self, x: u8, y: u8, h: u8, addr: u16) -> (r: Result<u8, Fault>)
        requires
            old(self).wf(),
        ensures
            final(self).wf(),
            match draw_spec(old(self)@, x, y, h as int, addr as int) {
                Ok((m, hit)) => r == Ok::<u8, Fault>(if hit { 1u8 } else { 0u8 }) && final(self)@ == m,
                Err(f) => r == Err::<u8, Fault>(f),
            },
    {
        self.video.touch();
        assert(self@ == draw_spec(old(self)@, x, y, 0, addr as int).unwrap().0);
        let mut hit: u8 = 0;
        let mut dy: u8 = 0;
        while dy < h
            invariant
                self.wf(),
                dy <= h,
                hit <= 1,
                draw_spec(old(self)@, x, y, dy as int, addr as int) == Ok::<(MemView, bool), Fault>(
                    (self@, hit == 1),
                ),
            decreases h - dy,
        {
            let b = match self.read_addr(addr as u32 + dy as u32) {
                Ok(b) => b,
                Err(f) => {
                    proof {
                        lemma_draw_err_persists(old(self)@, x, y, dy as int + 1, h as int, addr as int);
                    }
                    return Err(f);
                },
            };
            let row = ((y as u32 + dy as u32) % 32) as u8;
            let h1 = self.video.draw(x, row, b);
            if h1 == 1 {
                hit = 1;
            }
            dy += 1;
        }
        Ok(hit)
    }

    /// Address of the glyph of hexadecimal digit `val`.
    pub fn load_glyph(&self, val: u8) -> (r: Result<u16, Fault>)
        ensures
            r == glyph_addr_spec(val),
    {
        if val <= 0xF {
            Ok(GLYPHS_START + val as u16 * 5)
        } else {
            Err(Fault::InvalidGlyphIndex(val))
        }
    }

    /// Legacy name of `load_glyph`.
    pub fn glyph_addr(&self, val: u8) -> (r: Result<u16, Fault>)
        ensures
            r == glyph_addr_spec(val),
    {
        self.load_glyph(val)
    }
}

} // verus!

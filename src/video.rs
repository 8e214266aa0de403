use vstd::prelude::*;

verus! {

/// Screen width in pixels.
pub const WIDTH: u8 = 64;
/// Screen height in pixels.
pub const HEIGHT: u8 = 32;
/// Bytes per screen row, eight pixels to a byte.
pub const BYTES_WIDTH: u8 = 8;
/// Bytes in the packed framebuffer.
pub const SCREEN_BYTES: usize = 256;
/// Bytes in the glyph table: sixteen glyphs of five rows.
pub const GLYPHS_LEN: u16 = 80;

/// The five rows of the glyph of hexadecimal digit `d`.
pub open spec fn glyph_rows(d: int) -> Seq<u8> {
    if d == 0x0 { seq![0xF0u8, 0x90, 0x90, 0x90, 0xF0] }
    else if d == 0x1 { seq![0x20u8, 0x60, 0x20, 0x20, 0x70] }
    else if d == 0x2 { seq![0xF0u8, 0x10, 0xF0, 0x80, 0xF0] }
    else if d == 0x3 { seq![0xF0u8, 0x10, 0xF0, 0x10, 0xF0] }
    else if d == 0x4 { seq![0x90u8, 0x90, 0xF0, 0x10, 0x10] }
    else if d == 0x5 { seq![0xF0u8, 0x80, 0xF0, 0x10, 0xF0] }
    else if d == 0x6 { seq![0xF0u8, 0x80, 0xF0, 0x90, 0xF0] }
    else if d == 0x7 { seq![0xF0u8, 0x10, 0x20, 0x40, 0x40] }
    else if d == 0x8 { seq![0xF0u8, 0x90, 0xF0, 0x90, 0xF0] }
    else if d == 0x9 { seq![0xF0u8, 0x90, 0xF0, 0x10, 0xF0] }
    else if d == 0xA { seq![0xF0u8, 0x90, 0xF0, 0x90, 0x90] }
    else if d == 0xB { seq![0xE0u8, 0x90, 0xE0, 0x90, 0xE0] }
    else if d == 0xC { seq![0xF0u8, 0x80, 0x80, 0x80, 0xF0] }
    else if d == 0xD { seq![0xE0u8, 0x90, 0x90, 0x90, 0xE0] }
    else if d == 0xE { seq![0xF0u8, 0x80, 0xF0, 0x80, 0xF0] }
    else { seq![0xF0u8, 0x80, 0xF0, 0x80, 0x80] }
}

/// Byte `off` of the read-only glyph area: the glyph table, then zeros.
pub open spec fn glyph_area(off: int) -> u8 {
    if 0 <= off < GLYPHS_LEN { glyph_rows(off / 5)[off % 5] } else { 0 }
}

/// Byte `off` of the glyph area.
pub fn glyph_byte(off: u16) -> (r: u8)
    ensures
        r == glyph_area(off as int),
{
    if off >= GLYPHS_LEN {
        return 0;
    }
    let row = off % 5;
    let (a, b, c, d, e): (u8, u8, u8, u8, u8) = match off / 5 {
        0x0 => (0xF0, 0x90, 0x90, 0x90, 0xF0),
        0x1 => (0x20, 0x60, 0x20, 0x20, 0x70),
        0x2 => (0xF0, 0x10, 0xF0, 0x80, 0xF0),
        0x3 => (0xF0, 0x10, 0xF0, 0x10, 0xF0),
        0x4 => (0x90, 0x90, 0xF0, 0x10, 0x10),
        0x5 => (0xF0, 0x80, 0xF0, 0x10, 0xF0),
        0x6 => (0xF0, 0x80, 0xF0, 0x90, 0xF0),
        0x7 => (0xF0, 0x10, 0x20, 0x40, 0x40),
        0x8 => (0xF0, 0x90, 0xF0, 0x90, 0xF0),
        0x9 => (0xF0, 0x90, 0xF0, 0x10, 0xF0),
        0xA => (0xF0, 0x90, 0xF0, 0x90, 0x90),
        0xB => (0xE0, 0x90, 0xE0, 0x90, 0xE0),
        0xC => (0xF0, 0x80, 0x80, 0x80, 0xF0),
        0xD => (0xE0, 0x90, 0x90, 0x90, 0xE0),
        0xE => (0xF0, 0x80, 0xF0, 0x80, 0xF0),
        _ => (0xF0, 0x80, 0xF0, 0x80, 0x80),
    };
    match row {
        0 => a,
        1 => b,
        2 => c,
        3 => d,
        _ => e,
    }
}

/// What a `Video` holds: the packed framebuffer, row-major, eight bytes to a
/// row with the leftmost pixel in bit 7; and whether it changed since the
/// last poll.
pub struct VideoView {
    pub screen: Seq<u8>,
    pub dirty: bool,
}

/// The framebuffer byte that pixel column `x`, row `y` (both wrapped to the
/// screen) falls in.
pub open spec fn cell(x: u8, y: u8) -> int {
    (x % WIDTH) as int / 8 + (y % HEIGHT) as int * 8
}

/// The byte to the right of `cell(x, y)`, wrapping to column 0 of the same row.
pub open spec fn next_cell(x: u8, y: u8) -> int {
    ((x % WIDTH) as int / 8 + 1) % 8 + (y % HEIGHT) as int * 8
}

/// XOR of sprite row `val` into `s` at pixel (`x`, `y`): the new framebuffer,
/// and whether some set pixel was hit by a set sprite bit (and so cleared).
pub open spec fn blit_spec(s: Seq<u8>, x: u8, y: u8, val: u8) -> (Seq<u8>, bool) {
    let shift = x % 8;
    let i = cell(x, y);
    if shift == 0 {
        (s.update(i, s[i] ^ val), s[i] & val != 0)
    } else {
        let j = next_cell(x, y);
        let l = val >> shift;
        let r = val << ((8 - shift) as u8);
        (s.update(i, s[i] ^ l).update(j, s[j] ^ r), s[i] & l != 0 || s[j] & r != 0)
    }
}

/// The 64x32 monochrome display.
pub struct Video {
    data: [u8; 256],
    screen_modified: bool,
}

impl View for Video {
    type V = VideoView;

    closed spec fn view(&self) -> VideoView {
        VideoView { screen: self.data@, dirty: self.screen_modified }
    }
}

impl Video {
    /// The framebuffer has `SCREEN_BYTES` bytes.
    pub closed spec fn wf(&self) -> bool {
        self@.screen.len() == SCREEN_BYTES
    }

    /// A blank screen, marked changed so that it is shown once.
    pub fn new() -> (r: Video)
        ensures
            r.wf(),
            r@.screen == Seq::new(256, |_k: int| 0u8),
            r@.dirty,
    {
        let r = Video { data: [0u8; 256], screen_modified: true };
        assert(r@.screen =~= Seq::new(256, |_k: int| 0u8));
        r
    }

    /// Blanks the screen.
    pub fn clear(&mut self)
        requires
            old(self).wf(),
        ensures
            final(self).wf(),
            final(self)@.screen == Seq::new(256, |_k: int| 0u8),
            final(self)@.dirty,
    {
        self.screen_modified = true;
        let mut k: usize = 0;
        while k < SCREEN_BYTES
            invariant
                k <= SCREEN_BYTES,
                self.data@.len() == SCREEN_BYTES,
                forall|j: int| 0 <= j < k ==> self.data@[j] == 0,
                self.screen_modified,
            decreases SCREEN_BYTES - k,
        {
            self.data[k] = 0;
            k += 1;
        }
        assert(self@.screen =~= Seq::new(256, |_k: int| 0u8));
    }

    /// XORs sprite row `val` into the screen at pixel (`x`, `y`), both
    /// wrapped. Returns 1 if a set pixel was cleared, else 0.
    pub fn draw(&mut self, x: u8, y: u8, val: u8) -> (r: u8)
        requires
            old(self).wf(),
        ensures
            final(self).wf(),
            final(self)@.screen == blit_spec(old(self)@.screen, x, y, val).0,
            r == if blit_spec(old(self)@.screen, x, y, val).1 { 1u8 } else { 0u8 },
            final(self)@.dirty,
    {
        self.screen_modified = true;
        let x0 = x % WIDTH;
        let y0 = y % HEIGHT;
        let i = (x0 / 8 + y0 * BYTES_WIDTH) as usize;
        let shift = x % 8;
        if shift != 0 {
            let i2 = ((x0 / 8 + 1) % BYTES_WIDTH + y0 * BYTES_WIDTH) as usize;
            let lval = val >> shift;
            let rval = val << (8 - shift);
            let lold = self.data[i];
            self.data[i] = lold ^ lval;
            let rold = self.data[i2];
            self.data[i2] = rold ^ rval;
            let hit = flipped(lold, lold ^ lval) || flipped(rold, rold ^ rval);
            assert(lold & !(lold ^ lval) == lold & lval) by (bit_vector);
            assert(rold & !(rold ^ rval) == rold & rval) by (bit_vector);
            if hit { 1 } else { 0 }
        } else {
            let old_byte = self.data[i];
            self.data[i] = old_byte ^ val;
            assert(old_byte & !(old_byte ^ val) == old_byte & val) by (bit_vector);
            if flipped(old_byte, old_byte ^ val) { 1 } else { 0 }
        }
    }

    /// Framebuffer byte `k`.
    pub fn byte(&self, k: usize) -> (r: u8)
        requires
            self.wf(),
            k < SCREEN_BYTES,
        ensures
            r == self@.screen[k as int],
    {
        self.data[k]
    }

    /// Overwrites framebuffer byte `k`, marking the screen changed.
    pub fn set_byte(&mut self, k: usize, val: u8)
        requires
            old(self).wf(),
            k < SCREEN_BYTES,
        ensures
            final(self).wf(),
            final(self)@.screen == old(self)@.screen.update(k as int, val),
            final(self)@.dirty,
    {
        self.data[k] = val;
        self.screen_modified = true;
    }

    /// Marks the screen changed.
    pub fn touch(&mut self)
        requires
            old(self).wf(),
        ensures
            final(self).wf(),
            final(self)@.screen == old(self)@.screen,
            final(self)@.dirty,
    {
        self.screen_modified = true;
    }

    /// Whether the screen changed since the last poll; clears the mark.
    pub fn poll(&mut self) -> (r: bool)
        requires
            old(self).wf(),
        ensures
            final(self).wf(),
            r == old(self)@.dirty,
            final(self)@.screen == old(self)@.screen,
            !final(self)@.dirty,
    {
        let r = self.screen_modified;
        self.screen_modified = false;
        r
    }

    /// The packed framebuffer.
    pub fn data(&self) -> (r: &[u8])
        requires
            self.wf(),
        ensures
            r@ == self@.screen,
    {
        self.data.as_slice()
    }
}

/// Whether pixel `j` (0 = leftmost) of a framebuffer byte is lit.
pub open spec fn lit(byte: u8, j: int) -> bool {
    (byte >> ((7 - j) as u8)) & 1u8 == 1u8
}

/// One flag per pixel of a packed framebuffer, row-major, leftmost first.
pub fn unpack(screen: &[u8]) -> (r: Vec<bool>)
    requires
        screen@.len() * 8 <= usize::MAX,
    ensures
        r@.len() == screen@.len() * 8,
        forall|k: int, j: int|
            0 <= k < screen@.len() && 0 <= j < 8 ==> #[trigger] r@[k * 8 + j] == lit(screen@[k], j),
{
    let mut out: Vec<bool> = Vec::new();
    let mut k: usize = 0;
    while k < screen.len()
        invariant
            k <= screen@.len(),
            screen@.len() * 8 <= usize::MAX,
            out@.len() == k * 8,
            forall|k2: int, j: int|
                0 <= k2 < k && 0 <= j < 8 ==> #[trigger] out@[k2 * 8 + j] == lit(screen@[k2], j),
        decreases screen@.len() - k,
    {
        let byte = screen[k];
        let mut j: u8 = 0;
        while j < 8
            invariant
                k < screen@.len(),
                j <= 8,
                byte == screen@[k as int],
                out@.len() == k * 8 + j,
                forall|k2: int, j2: int|
                    0 <= k2 < k && 0 <= j2 < 8 ==> #[trigger] out@[k2 * 8 + j2] == lit(screen@[k2], j2),
                forall|j2: int| 0 <= j2 < j ==> #[trigger] out@[k * 8 + j2] == lit(byte, j2),
            decreases 8 - j,
        {
            out.push((byte >> (7 - j)) & 1 == 1);
            j += 1;
        }
        k += 1;
    }
    out
}

/// Whether some bit set in `v1` is clear in `v2`.
pub fn flipped(v1: u8, v2: u8) -> (r: bool)
    ensures
        r == (v1 & !v2 != 0),
{
    v1 & !v2 != 0
}

} // verus!

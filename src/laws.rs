//! Properties of the machine that relate several operations or hold of every
//! state, proved over the models that the operations' contracts use.

use vstd::prelude::*;
use crate::cpu::{cpu_power_on, exec_spec, pc_plus, step_spec, CpuView};
use crate::decoder::{decode_spec, Operation};
use crate::fault::Fault;
use crate::input::{press_spec, InputView};
use crate::mem::{
    draw_spec, load_spec, locate, mem_wf, push_all_spec, read_spec, read_word_spec, MemView, RAM_START,
    RESERVED_START, STACK_SIZE,
};
use crate::video::{blit_spec, cell, next_cell, VideoView, SCREEN_BYTES};

verus! {

/// Starting from an empty stack, a run of pushes succeeds as long as it has at
/// most sixteen addresses; the seventeenth push overflows.
pub proof fn law_stack_capacity(vals: Seq<u16>)
    ensures
        push_all_spec(Seq::empty(), vals) == if vals.len() <= STACK_SIZE {
            Ok::<Seq<u16>, Fault>(vals)
        } else {
            Err::<Seq<u16>, Fault>(Fault::StackOverflow)
        },
    decreases vals.len(),
{
    if vals.len() > 0 {
        law_stack_capacity(vals.drop_last());
        if vals.len() <= STACK_SIZE {
            assert(vals.drop_last().push(vals.last()) =~= vals);
        }
    } else {
        assert(vals =~= Seq::<u16>::empty());
    }
}

/// A call succeeds, pushing the return address and jumping, exactly when
/// fewer than sixteen return addresses are on the stack; with sixteen it
/// overflows.
pub proof fn law_call_depth(c: CpuView, m: MemView, a: u16, rnd: u8)
    requires
        mem_wf(m),
    ensures
        m.stack.len() < STACK_SIZE ==> exec_spec(c, m, Operation::Call(a), rnd) == Ok::<(CpuView, MemView), Fault>(
            (CpuView { pc: a, ..c }, MemView { stack: m.stack.push(c.pc), ..m }),
        ),
        m.stack.len() == STACK_SIZE ==> exec_spec(c, m, Operation::Call(a), rnd) == Err::<(CpuView, MemView), Fault>(
            Fault::StackOverflow,
        ),
{
    reveal(exec_spec);
}

/// A return with no return address on the stack underflows.
pub proof fn law_return_on_empty_stack(c: CpuView, m: MemView, rnd: u8)
    requires
        m.stack.len() == 0,
    ensures
        exec_spec(c, m, Operation::Return, rnd) == Err::<(CpuView, MemView), Fault>(Fault::StackUnderflow),
{
    reveal(exec_spec);
}

/// Drawing the same sprite row twice at the same place restores the screen;
/// if the first draw cleared no pixel and the row is not empty, the second
/// reports a collision.
pub proof fn law_draw_twice(s: Seq<u8>, x: u8, y: u8, val: u8)
    requires
        s.len() == SCREEN_BYTES,
    ensures
        blit_spec(blit_spec(s, x, y, val).0, x, y, val).0 == s,
        !blit_spec(s, x, y, val).1 && val != 0 ==> blit_spec(blit_spec(s, x, y, val).0, x, y, val).1,
{
    let s1 = blit_spec(s, x, y, val).0;
    let s2 = blit_spec(s1, x, y, val).0;
    let i = cell(x, y);
    let shift = x % 8;
    assert(0 <= i < 256) by {
        assert((x % 64) as int / 8 <= 7);
        assert((y % 32) as int * 8 <= 248);
    }
    if shift == 0 {
        let a = s[i];
        assert((a ^ val) ^ val == a) by (bit_vector);
        assert(a & val == 0 && val != 0 ==> (a ^ val) & val != 0) by (bit_vector);
        assert(s2 =~= s);
    } else {
        let j = next_cell(x, y);
        assert(0 <= j < 256 && j != i);
        let l = val >> shift;
        let r = val << ((8 - shift) as u8);
        let a = s[i];
        let b = s[j];
        assert((a ^ l) ^ l == a) by (bit_vector);
        assert((b ^ r) ^ r == b) by (bit_vector);
        assert(a & l == 0 && l != 0 ==> (a ^ l) & l != 0) by (bit_vector);
        assert(b & r == 0 && r != 0 ==> (b ^ r) & r != 0) by (bit_vector);
        assert(1 <= shift <= 7 && val != 0 ==> (val >> shift) != 0 || (val << ((8 - shift) as u8)) != 0)
            by (bit_vector);
        assert(s2 =~= s);
    }
}

/// The bits that drawing sprite row `b` at pixel (`x`, `y`) flips in
/// framebuffer byte `i`.
pub open spec fn blit_bits(x: u8, y: u8, b: u8, i: int) -> u8 {
    let shift = x % 8;
    if shift == 0 {
        if i == cell(x, y) { b } else { 0 }
    } else if i == cell(x, y) {
        b >> shift
    } else if i == next_cell(x, y) {
        b << ((8 - shift) as u8)
    } else {
        0
    }
}

/// Whether drawing sprite row `b` at (`x`, `y`) on `s` clears a pixel.
pub open spec fn row_hit(s: Seq<u8>, x: u8, y: u8, b: u8) -> bool {
    s[cell(x, y)] & blit_bits(x, y, b, cell(x, y)) != 0 || s[next_cell(x, y)] & blit_bits(
        x,
        y,
        b,
        next_cell(x, y),
    ) != 0
}

/// Screen row of sprite row `k` drawn from row `y`.
pub open spec fn row_y(y: u8, k: int) -> u8 {
    ((y + k) % 32) as u8
}

/// The bits that the first `k` rows of `rows` flip in byte `i`.
pub open spec fn draw_bits(x: u8, y: u8, rows: Seq<u8>, k: int, i: int) -> u8
    decreases k,
{
    if k <= 0 { 0 } else { draw_bits(x, y, rows, k - 1, i) ^ blit_bits(x, row_y(y, k - 1), rows[k - 1], i) }
}

/// `s` after the first `k` rows of `rows` were drawn on it.
pub open spec fn xor_screen(s: Seq<u8>, x: u8, y: u8, rows: Seq<u8>, k: int) -> Seq<u8> {
    Seq::new(256, |i: int| s[i] ^ draw_bits(x, y, rows, k, i))
}

/// Whether drawing the first `k` rows of `rows` on `s` clears a pixel.
pub open spec fn hits(s: Seq<u8>, x: u8, y: u8, rows: Seq<u8>, k: int) -> bool
    decreases k,
{
    if k <= 0 {
        false
    } else {
        hits(s, x, y, rows, k - 1) || row_hit(xor_screen(s, x, y, rows, k - 1), x, row_y(y, k - 1), rows[k - 1])
    }
}

/// Whether the `n` bytes from `addr` lie in the glyph area or program memory,
/// where drawing cannot change them, and hold `rows`.
pub open spec fn sprite_at(m: MemView, addr: int, n: int, rows: Seq<u8>) -> bool {
    &&& rows.len() == n
    &&& forall|k: int| 0 <= k < n ==> (#[trigger] locate(addr + k) is Glyph || locate(addr + k) is Ram)
    &&& forall|k: int| 0 <= k < n ==> #[trigger] read_spec(m, addr + k) == Ok::<u8, Fault>(rows[k])
}

proof fn lemma_cells(x: u8, y: u8)
    ensures
        0 <= cell(x, y) < 256,
        0 <= next_cell(x, y) < 256,
        cell(x, y) != next_cell(x, y),
        cell(x, y) / 8 == (y % 32) as int,
        next_cell(x, y) / 8 == (y % 32) as int,
{
    let q = (x % 64) as int / 8;
    let r = (y % 32) as int;
    assert(0 <= q <= 7);
    assert(0 <= r <= 31);
    assert((q + r * 8) / 8 == r);
    assert(((q + 1) % 8 + r * 8) / 8 == r);
}

proof fn lemma_blit_bits_row(x: u8, y: u8, b: u8, i: int)
    requires
        blit_bits(x, y, b, i) != 0,
    ensures
        i / 8 == (y % 32) as int,
{
    lemma_cells(x, y);
}

proof fn lemma_blit_xor(s: Seq<u8>, x: u8, y: u8, b: u8)
    requires
        s.len() == SCREEN_BYTES,
    ensures
        blit_spec(s, x, y, b).0 == Seq::new(256, |i: int| s[i] ^ blit_bits(x, y, b, i)),
        blit_spec(s, x, y, b).1 == row_hit(s, x, y, b),
{
    lemma_cells(x, y);
    assert forall|v: u8| v ^ 0u8 == v by {
        assert(v ^ 0u8 == v) by (bit_vector);
    }
    assert forall|v: u8| v & 0u8 == 0u8 by {
        assert(v & 0u8 == 0u8) by (bit_vector);
    }
    assert(blit_spec(s, x, y, b).0 =~= Seq::new(256, |i: int| s[i] ^ blit_bits(x, y, b, i)));
}

proof fn lemma_draw_closed(m: MemView, x: u8, y: u8, n: int, addr: int, rows: Seq<u8>)
    requires
        mem_wf(m),
        0 <= n,
        sprite_at(m, addr, n, rows),
    ensures
        draw_spec(m, x, y, n, addr) == Ok::<(MemView, bool), Fault>((
            MemView { video: VideoView { screen: xor_screen(m.video.screen, x, y, rows, n), dirty: true }, ..m },
            hits(m.video.screen, x, y, rows, n),
        )),
    decreases n,
{
    if n == 0 {
        assert forall|v: u8| v ^ 0u8 == v by {
            assert(v ^ 0u8 == v) by (bit_vector);
        }
        assert(xor_screen(m.video.screen, x, y, rows, 0) =~= m.video.screen);
    } else {
        assert(sprite_at(m, addr, n - 1, rows.take(n - 1)));
        lemma_draw_closed(m, x, y, n - 1, addr, rows.take(n - 1));
        assert forall|k: int, i: int| 0 <= k <= n - 1 implies draw_bits(x, y, rows.take(n - 1), k, i) == draw_bits(x, y, rows, k, i) by {
            lemma_draw_bits_prefix(x, y, rows, n - 1, k, i);
        }
        assert(xor_screen(m.video.screen, x, y, rows.take(n - 1), n - 1) =~= xor_screen(m.video.screen, x, y, rows, n - 1));
        lemma_hits_prefix(m.video.screen, x, y, rows, n - 1, n - 1);
        let s1 = xor_screen(m.video.screen, x, y, rows, n - 1);
        let m1 = MemView { video: VideoView { screen: s1, dirty: true }, ..m };
        assert(read_spec(m1, addr + n - 1) == read_spec(m, addr + n - 1));
        assert(read_spec(m, addr + (n - 1)) == Ok::<u8, Fault>(rows[n - 1]));
        lemma_blit_xor(s1, x, row_y(y, n - 1), rows[n - 1]);
        assert forall|i: int| 0 <= i < 256 implies #[trigger] blit_spec(s1, x, row_y(y, n - 1), rows[n - 1]).0[i]
            == xor_screen(m.video.screen, x, y, rows, n)[i] by {
            let a = m.video.screen[i];
            let d = draw_bits(x, y, rows, n - 1, i);
            let e = blit_bits(x, row_y(y, n - 1), rows[n - 1], i);
            assert((a ^ d) ^ e == a ^ (d ^ e)) by (bit_vector);
        }
        assert(blit_spec(s1, x, row_y(y, n - 1), rows[n - 1]).0 =~= xor_screen(m.video.screen, x, y, rows, n));
        assert(((y + n - 1) % 32) as u8 == row_y(y, n - 1));
    }
}

proof fn lemma_draw_bits_prefix(x: u8, y: u8, rows: Seq<u8>, p: int, k: int, i: int)
    requires
        0 <= k <= p <= rows.len(),
    ensures
        draw_bits(x, y, rows.take(p), k, i) == draw_bits(x, y, rows, k, i),
    decreases k,
{
    if k > 0 {
        lemma_draw_bits_prefix(x, y, rows, p, k - 1, i);
    }
}

proof fn lemma_hits_prefix(s: Seq<u8>, x: u8, y: u8, rows: Seq<u8>, p: int, k: int)
    requires
        0 <= k <= p <= rows.len(),
    ensures
        hits(s, x, y, rows.take(p), k) == hits(s, x, y, rows, k),
    decreases k,
{
    if k > 0 {
        lemma_hits_prefix(s, x, y, rows, p, k - 1);
        assert forall|j: int, i: int| 0 <= j <= p implies draw_bits(x, y, rows.take(p), j, i) == draw_bits(x, y, rows, j, i) by {
            lemma_draw_bits_prefix(x, y, rows, p, j, i);
        }
        assert(xor_screen(s, x, y, rows.take(p), k - 1) =~= xor_screen(s, x, y, rows, k - 1));
    }
}

/// Rows drawn from `y` land on distinct screen rows while there are at most 32.
proof fn lemma_rows_distinct(y: u8, j: int, k: int)
    requires
        0 <= j < k < 32,
    ensures
        row_y(y, j) != row_y(y, k),
{
}

/// Bytes of screen rows that none of the first `k` sprite rows reach are not
/// flipped.
proof fn lemma_draw_bits_untouched(x: u8, y: u8, rows: Seq<u8>, k: int, i: int)
    requires
        forall|j: int| 0 <= j < k ==> i / 8 != row_y(y, j) as int,
    ensures
        draw_bits(x, y, rows, k, i) == 0,
    decreases k,
{
    if k > 0 {
        lemma_draw_bits_untouched(x, y, rows, k - 1, i);
        if blit_bits(x, row_y(y, k - 1), rows[k - 1], i) != 0 {
            lemma_blit_bits_row(x, row_y(y, k - 1), rows[k - 1], i);
            assert(false);
        }
        assert(0u8 ^ 0u8 == 0u8) by (bit_vector);
    }
}

/// In the screen row of sprite row `k`, only that sprite row flips bits.
proof fn lemma_draw_bits_own_row(x: u8, y: u8, rows: Seq<u8>, n: int, k: int, i: int)
    requires
        0 <= k < n <= 32,
        i / 8 == row_y(y, k) as int,
    ensures
        draw_bits(x, y, rows, n, i) == blit_bits(x, row_y(y, k), rows[k], i),
    decreases n,
{
    if n - 1 == k {
        assert forall|j: int| 0 <= j < k implies i / 8 != row_y(y, j) as int by {
            lemma_rows_distinct(y, j, k);
        }
        lemma_draw_bits_untouched(x, y, rows, k, i);
        let e = blit_bits(x, row_y(y, k), rows[k], i);
        assert(0u8 ^ e == e) by (bit_vector);
    } else {
        lemma_draw_bits_own_row(x, y, rows, n - 1, k, i);
        if blit_bits(x, row_y(y, n - 1), rows[n - 1], i) != 0 {
            lemma_blit_bits_row(x, row_y(y, n - 1), rows[n - 1], i);
            lemma_rows_distinct(y, k, n - 1);
            assert(false);
        }
        let d = draw_bits(x, y, rows, n - 1, i);
        assert(d ^ 0u8 == d) by (bit_vector);
    }
}

proof fn lemma_first_draw_on_blank(x: u8, y: u8, rows: Seq<u8>, k: int)
    requires
        0 <= k <= rows.len() <= 32,
    ensures
        !hits(Seq::new(256, |_i: int| 0u8), x, y, rows, k),
    decreases k,
{
    if k > 0 {
        lemma_first_draw_on_blank(x, y, rows, k - 1);
        let yy = row_y(y, k - 1);
        let s = xor_screen(Seq::new(256, |_i: int| 0u8), x, y, rows, k - 1);
        lemma_cells(x, yy);
        assert forall|i: int| i / 8 == yy as int implies #[trigger] draw_bits(x, y, rows, k - 1, i) == 0 by {
            assert forall|j: int| 0 <= j < k - 1 implies i / 8 != row_y(y, j) as int by {
                lemma_rows_distinct(y, j, k - 1);
            }
            lemma_draw_bits_untouched(x, y, rows, k - 1, i);
        }
        assert(0u8 ^ 0u8 == 0u8) by (bit_vector);
        let c = cell(x, yy);
        let c2 = next_cell(x, yy);
        assert(s[c] == 0);
        assert(s[c2] == 0);
        let e = blit_bits(x, yy, rows[k - 1], c);
        let e2 = blit_bits(x, yy, rows[k - 1], c2);
        assert(0u8 & e == 0) by (bit_vector);
        assert(0u8 & e2 == 0) by (bit_vector);
    }
}

proof fn lemma_second_draw(x: u8, y: u8, rows: Seq<u8>, n: int, k: int)
    requires
        0 <= k <= n,
        n == rows.len(),
        n <= 32,
    ensures
        hits(xor_screen(Seq::new(256, |_i: int| 0u8), x, y, rows, n), x, y, rows, k)
            == exists|j: int| 0 <= j < k && #[trigger] rows[j] != 0,
    decreases k,
{
    let blank = Seq::new(256, |_i: int| 0u8);
    let s = xor_screen(blank, x, y, rows, n);
    if k > 0 {
        lemma_second_draw(x, y, rows, n, k - 1);
        let yy = row_y(y, k - 1);
        let b = rows[k - 1];
        let t = xor_screen(s, x, y, rows, k - 1);
        lemma_cells(x, yy);
        let c = cell(x, yy);
        let c2 = next_cell(x, yy);
        assert forall|i: int| 0 <= i < 256 && i / 8 == yy as int implies #[trigger] t[i] == blit_bits(x, yy, b, i) by {
            lemma_draw_bits_own_row(x, y, rows, n, k - 1, i);
            assert forall|j: int| 0 <= j < k - 1 implies i / 8 != row_y(y, j) as int by {
                lemma_rows_distinct(y, j, k - 1);
            }
            lemma_draw_bits_untouched(x, y, rows, k - 1, i);
            let e = blit_bits(x, yy, b, i);
            assert((0u8 ^ e) ^ 0u8 == e) by (bit_vector);
        }
        let e = blit_bits(x, yy, b, c);
        let e2 = blit_bits(x, yy, b, c2);
        assert(e & e == e) by (bit_vector);
        assert(e2 & e2 == e2) by (bit_vector);
        let shift = x % 8;
        assert(1 <= shift <= 7 && b != 0 ==> (b >> shift) != 0 || (b << ((8 - shift) as u8)) != 0) by (bit_vector);
        assert(b == 0 ==> (b >> shift) == 0 && (b << ((8 - shift) as u8)) == 0) by (bit_vector);
        assert(yy as int % 32 == yy as int);
        assert(t[c] == e);
        assert(t[c2] == e2);
        assert(row_hit(t, x, yy, b) == (b != 0));
        if b != 0 {
            assert(rows[k - 1] != 0);
        }
    }
}

/// Drawing the same sprite twice at the same place restores the screen, for
/// any screen and any sprite stored where drawing cannot change it.
pub proof fn law_draw_twice_restores(m: MemView, x: u8, y: u8, n: u8, addr: int, rows: Seq<u8>)
    requires
        mem_wf(m),
        sprite_at(m, addr, n as int, rows),
    ensures
        draw_spec(m, x, y, n as int, addr) is Ok,
        draw_spec(draw_spec(m, x, y, n as int, addr)->Ok_0.0, x, y, n as int, addr) is Ok,
        draw_spec(draw_spec(m, x, y, n as int, addr)->Ok_0.0, x, y, n as int, addr)->Ok_0.0.video.screen
            == m.video.screen,
{
    lemma_draw_closed(m, x, y, n as int, addr, rows);
    let m1 = draw_spec(m, x, y, n as int, addr)->Ok_0.0;
    assert(sprite_at(m1, addr, n as int, rows)) by {
        assert forall|k: int| 0 <= k < n implies #[trigger] read_spec(m1, addr + k) == Ok::<u8, Fault>(rows[k]) by {
            assert(locate(addr + k) is Glyph || locate(addr + k) is Ram);
            assert(read_spec(m1, addr + k) == read_spec(m, addr + k));
        }
    }
    lemma_draw_closed(m1, x, y, n as int, addr, rows);
    assert forall|i: int| 0 <= i < 256 implies #[trigger] xor_screen(m1.video.screen, x, y, rows, n as int)[i]
        == m.video.screen[i] by {
        let a = m.video.screen[i];
        let d = draw_bits(x, y, rows, n as int, i);
        assert((a ^ d) ^ d == a) by (bit_vector);
    }
    assert(xor_screen(m1.video.screen, x, y, rows, n as int) =~= m.video.screen);
}

/// A sprite of at most 32 rows drawn on a blank screen reports no collision;
/// drawn again at the same place it reports a collision exactly when some row
/// is not empty, and leaves the screen blank.
pub proof fn law_draw_twice_on_blank(m: MemView, x: u8, y: u8, n: u8, addr: int, rows: Seq<u8>)
    requires
        mem_wf(m),
        n <= 32,
        sprite_at(m, addr, n as int, rows),
        m.video.screen == Seq::new(256, |_i: int| 0u8),
    ensures
        draw_spec(m, x, y, n as int, addr) is Ok,
        !draw_spec(m, x, y, n as int, addr)->Ok_0.1,
        draw_spec(draw_spec(m, x, y, n as int, addr)->Ok_0.0, x, y, n as int, addr) is Ok,
        draw_spec(draw_spec(m, x, y, n as int, addr)->Ok_0.0, x, y, n as int, addr)->Ok_0.1
            == exists|k: int| 0 <= k < n && #[trigger] rows[k] != 0,
        draw_spec(draw_spec(m, x, y, n as int, addr)->Ok_0.0, x, y, n as int, addr)->Ok_0.0.video.screen
            == m.video.screen,
{
    law_draw_twice_restores(m, x, y, n, addr, rows);
    lemma_draw_closed(m, x, y, n as int, addr, rows);
    lemma_first_draw_on_blank(x, y, rows, n as int);
    let m1 = draw_spec(m, x, y, n as int, addr)->Ok_0.0;
    assert(sprite_at(m1, addr, n as int, rows)) by {
        assert forall|k: int| 0 <= k < n implies #[trigger] read_spec(m1, addr + k) == Ok::<u8, Fault>(rows[k]) by {
            assert(read_spec(m1, addr + k) == read_spec(m, addr + k));
        }
    }
    lemma_draw_closed(m1, x, y, n as int, addr, rows);
    lemma_second_draw(x, y, rows, n as int, n as int);
}

/// A key-wait instruction with no key latched leaves the whole machine as it
/// was, program counter included, so that it runs again on the next step.
pub proof fn law_key_wait_blocks(c: CpuView, m: MemView, w: u16, r: u8, rnd: u8)
    requires
        read_word_spec(m, c.pc as int) == Ok::<u16, Fault>(w),
        decode_spec(w) == Ok::<Operation, Fault>(Operation::KeyWait(r)),
        m.input.latch is None,
    ensures
        step_spec(c, m, rnd) == Ok::<(Operation, CpuView, MemView), Fault>((Operation::KeyWait(r), c, m)),
{
    let c1 = CpuView { pc: pc_plus(c.pc, 2), ..c };
    assert(exec_spec(c1, m, Operation::KeyWait(r), rnd) == Ok::<(CpuView, MemView), Fault>(
        (CpuView { pc: pc_plus(c1.pc, -2), ..c1 }, m),
    )) by {
        reveal(exec_spec);
    }
    assert(pc_plus(pc_plus(c.pc, 2), -2) == c.pc);
    assert(CpuView { pc: pc_plus(c1.pc, -2), ..c1 } == c);
}

/// After key `k` goes down, a key-wait instruction stores `k` in its register
/// and empties the latch; a second key-wait with no key pressed in between
/// waits again, winding the program counter back.
pub proof fn law_key_wait_takes_key(c: CpuView, m: MemView, r: u8, k: u8, rnd: u8)
    requires
        k < 16,
        r < 16,
        mem_wf(m),
    ensures
        ({
            let m1 = MemView { input: press_spec(m.input, k), ..m };
            let c2 = CpuView { v: c.v.update(r as int, k), ..c };
            let m2 = MemView { input: InputView { keys: m1.input.keys, latch: None }, ..m1 };
            &&& exec_spec(c, m1, Operation::KeyWait(r), rnd) == Ok::<(CpuView, MemView), Fault>((c2, m2))
            &&& exec_spec(c2, m2, Operation::KeyWait(r), rnd) == Ok::<(CpuView, MemView), Fault>(
                (CpuView { pc: pc_plus(c2.pc, -2), ..c2 }, m2),
            )
        }),
{
    reveal(exec_spec);
}

/// A program loaded at the start of program memory has its first two bytes
/// fetched, big-endian, as the first instruction of a machine at power-on.
pub proof fn law_load_then_fetch(m: MemView, prog: Seq<u8>)
    requires
        mem_wf(m),
        2 <= prog.len() <= RESERVED_START - RAM_START,
    ensures
        read_word_spec(
            MemView { ram: load_spec(m.ram, prog, RAM_START as int), ..m },
            cpu_power_on().pc as int,
        ) == Ok::<u16, Fault>((prog[0] * 256 + prog[1]) as u16),
{
}

} // verus!

use vstd::prelude::*;
use crate::cpu::{cpu_power_on, step_matches, step_spec, tick_spec, Cpu};
use crate::decoder::Operation;
use crate::fault::Fault;
use crate::input::{press_spec, release_spec};
use crate::mem::{load_spec, mem_power_on, MemView, Memory, RAM_START, RESERVED_START};

verus! {

/// A whole machine: processor and memory. The host drives it by calling
/// `frame` and `tick` at their own rates, feeding key events, and showing the
/// screen when `poll_screen` says it changed.
pub struct Emulator {
    pub cpu: Cpu,
    pub mem: Memory,
}

impl Emulator {
    pub open spec fn wf(&self) -> bool {
        self.mem.wf()
    }

    /// A machine in its power-on state.
    pub fn new() -> (r: Emulator)
        ensures
            r.wf(),
            r.cpu@ == cpu_power_on(),
            r.mem@ == mem_power_on(),
    {
        Emulator { cpu: Cpu::new(), mem: Memory::new() }
    }

    /// A machine in its power-on state, its generator seeded with `seed`.
    pub fn with_seed(seed: u64) -> (r: Emulator)
        ensures
            r.wf(),
            r.cpu@ == cpu_power_on(),
            r.mem@ == mem_power_on(),
    {
        Emulator { cpu: Cpu::with_seed(seed), mem: Memory::new() }
    }

    /// Copies a program into memory at the start of program memory. Fails,
    /// changing nothing, when it does not fit.
    pub fn load_program(&mut self, prog: &[u8]) -> (r: Result<(), Fault>)
        requires
            old(self).wf(),
        ensures
            final(self).wf(),
            final(self).cpu@ == old(self).cpu@,
            prog@.len() <= RESERVED_START - RAM_START ==> r is Ok && final(self).mem@ == (MemView {
                ram: load_spec(old(self).mem@.ram, prog@, RAM_START as int),
                ..old(self).mem@
            }),
            prog@.len() > RESERVED_START - RAM_START ==> r == Err::<(), Fault>(
                Fault::AddressOutOfRange(RESERVED_START as u32),
            ) && final(self).mem@ == old(self).mem@,
    {
        self.mem.load(prog, RAM_START)
    }

    /// Executes the next instruction.
    pub fn frame(&mut self) -> (r: Result<Operation, Fault>)
        requires
            old(self).wf(),
        ensures
            final(self).wf(),
            exists|rnd: u8| step_matches(
                step_spec(old(self).cpu@, old(self).mem@, rnd),
                r,
                final(self).cpu@,
                final(self).mem@,
            ),
    {
        self.cpu.exec(&mut self.mem)
    }

    /// The packed framebuffer: 32 rows of 8 bytes, leftmost pixel in bit 7.
    pub fn display(&self) -> (r: &[u8])
        requires
            self.wf(),
        ensures
            r@ == self.mem@.video.screen,
    {
        self.mem.video.data()
    }

    /// One 60 Hz timer tick.
    pub fn tick(&mut self)
        requires
            old(self).wf(),
        ensures
            final(self).wf(),
            final(self).cpu@ == tick_spec(old(self).cpu@),
            final(self).mem@ == old(self).mem@,
    {
        self.cpu.tick();
    }

    /// A key went down; codes above 0xF are ignored.
    pub fn keydown(&mut self, key_code: u8)
        requires
            old(self).wf(),
        ensures
            final(self).wf(),
            final(self).cpu@ == old(self).cpu@,
            final(self).mem@ == (MemView { input: press_spec(old(self).mem@.input, key_code), ..old(self).mem@ }),
    {
        self.mem.input.set_keydown(key_code);
    }

    /// A key went up; codes above 0xF are ignored.
    pub fn keyup(&mut self, key_code: u8)
        requires
            old(self).wf(),
        ensures
            final(self).wf(),
            final(self).cpu@ == old(self).cpu@,
            final(self).mem@ == (MemView { input: release_spec(old(self).mem@.input, key_code), ..old(self).mem@ }),
    {
        self.mem.input.set_keyup(key_code);
    }

    /// Whether the screen changed since the last call.
    pub fn poll_screen(&mut self) -> (r: bool)
        requires
            old(self).wf(),
        ensures
            final(self).wf(),
            r == old(self).mem@.video.dirty,
            final(self).cpu@ == old(self).cpu@,
            final(self).mem@ == (MemView {
                video: crate::video::VideoView { dirty: false, ..old(self).mem@.video },
                ..old(self).mem@
            }),
    {
        self.mem.video.poll()
    }
}

} // verus!

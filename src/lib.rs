//! Core of a Chip16 emulator: CPU, address space, framebuffer and blitter, and the
//! machine that runs them frame by frame.
pub mod cpu;
pub mod flags;
pub mod instruction;
pub mod memory;
pub mod opcode;
pub mod screen;
pub mod surface;

use vstd::prelude::*;
use crate::cpu::{Cpu, CpuError, MachineState, machine, step_spec};
use crate::memory::{Memory, MemoryError, le16, loaded, rom_valid, ROM_HEADER_SIZE, MEMORY_SIZE};
use crate::screen::{Screen, ScreenState, SCREEN_PIXELS};

verus! {

/// Instructions per frame: one million a second at sixty frames a second.
pub const OPS_PER_FRAME: u32 = 16666;

/// One step of the xorshift generator that feeds `RND`.
pub open spec fn next_seed(s: u32) -> u32 {
    let a = s ^ (s << 13u32);
    let b = a ^ (a >> 17u32);
    b ^ (b << 5u32)
}

/// The random value drawn from a generator state.
pub open spec fn random_of(s: u32) -> u16 {
    (s >> 16u32) as u16
}

/// What `n` steps from `s` with generator state `seed` come to: the first fault, or
/// success, with the machine and the generator state after them.
pub open spec fn run_spec(s: MachineState, seed: u32, n: nat) -> (Result<(), CpuError>, MachineState, u32)
    decreases n,
{
    if n == 0 {
        (Ok(()), s, seed)
    } else {
        match step_spec(s, random_of(seed)) {
            Err(e) => (Err(e), s, next_seed(seed)),
            Ok(s1) => run_spec(s1, next_seed(seed), (n - 1) as nat),
        }
    }
}

/// CPU, memory and screen, and the generator state for `RND`.
pub struct Rusty16 {
    cpu: Cpu,
    memory: Memory,
    screen: Screen,
    seed: u32,
}

impl View for Rusty16 {
    type V = MachineState;

    closed spec fn view(&self) -> MachineState {
        machine(self.cpu@, self.memory@, self.screen@)
    }
}

impl Rusty16 {
    pub closed spec fn wf(&self) -> bool {
        self.screen.wf()
    }

    pub closed spec fn seed(&self) -> u32 {
        self.seed
    }

    pub closed spec fn header(&self) -> Seq<u8> {
        self.memory.header()
    }

    /// A machine after reset, with zeroed memory and a cleared screen.
    pub fn new() -> (r: Rusty16)
        ensures
            r.wf(),
            r@.cpu == crate::cpu::reset_state(),
            r@.mem == Seq::new(MEMORY_SIZE as nat, |i: int| 0u8),
            r@.screen == (ScreenState {
                buffer: Seq::new(SCREEN_PIXELS as nat, |k: int| 0u8),
                spritew: 0,
                spriteh: 0,
                bg: 0,
                vblank: false,
                dirty: false,
            }),
    {
        Rusty16 { cpu: Cpu::new(), memory: Memory::new(), screen: Screen::new(), seed: 1 }
    }

    /// Seeds the generator behind `RND` (a zero seed is taken as 1).
    pub fn seed_random(&mut self, seed: u32)
        ensures
            final(self).wf() == old(self).wf(),
            final(self)@ == old(self)@,
            final(self).seed() == if seed == 0 {
                1
            } else {
                seed
            },
    {
        self.seed = if seed == 0 {
            1
        } else {
            seed
        };
    }

    /// Loads a ROM file, starts the CPU at the PC its header gives, and clears the
    /// screen. On an error nothing changes.
    pub fn load(&mut self, rom: &[u8]) -> (r: Result<(), MemoryError>)
        requires
            old(self).wf(),
        ensures
            final(self).wf(),
            !rom_valid(rom@) ==> r == Err::<(), MemoryError>(MemoryError::RomInvalid)
                && final(self)@ == old(self)@,
            rom_valid(rom@) && rom@.len() - ROM_HEADER_SIZE > MEMORY_SIZE ==> r == Err::<
                (),
                MemoryError,
            >(MemoryError::RomTooLarge) && final(self)@ == old(self)@,
            rom_valid(rom@) && rom@.len() - ROM_HEADER_SIZE <= MEMORY_SIZE ==> r is Ok
                && final(self)@.mem == loaded(old(self)@.mem, rom@) && final(self)@.cpu == (
            crate::cpu::CpuState { pc: le16(rom@[10], rom@[11]), ..old(self)@.cpu })
                && final(self)@.screen == (ScreenState {
                buffer: Seq::new(SCREEN_PIXELS as nat, |k: int| old(self)@.screen.bg),
                dirty: true,
                ..old(self)@.screen
            }),
    {
        match self.memory.load_rom(rom) {
            Err(e) => Err(e),
            Ok(()) => {
                let pc = self.memory.initial_pc();
                self.cpu.set_pc(pc);
                self.screen.init();
                Ok(())
            },
        }
    }

    /// Executes one instruction, drawing the value `RND` would take from the generator.
    pub fn step(&mut self) -> (r: Result<(), CpuError>)
        requires
            old(self).wf(),
        ensures
            final(self).wf(),
            final(self).seed() == next_seed(old(self).seed()),
            match step_spec(old(self)@, random_of(old(self).seed())) {
                Ok(next) => r is Ok && final(self)@ == next,
                Err(e) => r == Err::<(), CpuError>(e) && final(self)@ == old(self)@,
            },
    {
        let rnd = (self.seed >> 16u32) as u16;
        let s = self.seed;
        let a = s ^ (s << 13u32);
        let b = a ^ (a >> 17u32);
        self.seed = b ^ (b << 5u32);
        self.cpu.exec_instruction(&mut self.memory, &mut self.screen, rnd)
    }

    /// Runs up to `budget` instructions, stopping at the first fault.
    pub fn run_frame(&mut self, budget: u32) -> (r: Result<(), CpuError>)
        requires
            old(self).wf(),
        ensures
            final(self).wf(),
            run_spec(old(self)@, old(self).seed(), budget as nat) == (
            r,
            final(self)@,
            final(self).seed(),
            ),
    {
        let mut i: u32 = 0;
        while i < budget
            invariant
                self.wf(),
                i <= budget,
                run_spec(old(self)@, old(self).seed(), budget as nat) == run_spec(
                    self@,
                    self.seed(),
                    (budget - i) as nat,
                ),
            decreases budget - i,
        {
            let r = self.step();
            if r.is_err() {
                return r;
            }
            i += 1;
        }
        Ok(())
    }

    /// Ends a frame: raises vblank and says whether the screen must be presented.
    pub fn end_frame(&mut self) -> (present: bool)
        requires
            old(self).wf(),
        ensures
            final(self).wf(),
            present == old(self)@.screen.dirty,
            final(self)@ == (MachineState {
                screen: ScreenState { vblank: true, dirty: false, ..old(self)@.screen },
                ..old(self)@
            }),
            final(self).seed() == old(self).seed(),
    {
        self.screen.update_frame()
    }

    pub fn screen(&self) -> (r: &Screen)
        ensures
            r@ == self@.screen,
    {
        &self.screen
    }

    pub fn cpu(&self) -> (r: &Cpu)
        ensures
            r@ == self@.cpu,
    {
        &self.cpu
    }

    pub fn memory(&self) -> (r: &Memory)
        ensures
            r@ == self@.mem,
            r.header() == self.header(),
    {
        &self.memory
    }
}

} // verus!

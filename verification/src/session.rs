//! The emulator session: bus, display, keyboard and processor composed
//! into one unit, with the lifecycle and the per-tick stepping that a
//! driver uses.
//!
//! A session is created in the power-on state, optionally loaded with a
//! firmware image, and then ticked; each tick executes exactly one
//! instruction while the machine is running.  Stop and restart switch the
//! run state without touching memory, so firmware stays loaded across a
//! restart.

use vstd::prelude::*;
use crate::EmuError;
use crate::bus::{Bus, BusView, ROM_SIZE, MEM_SIZE, PORT_COUNT, spec_port_in, spec_port_out};
use crate::cpu::{Cpu, Flags, MachV, RunState, mach, spec_tick, supported, cur_op};
use crate::display::DIGIT_COUNT;
use crate::keyboard::spec_scan;

verus! {

/// The processor's power-on state: all registers and flags cleared, the
/// program counter at the power-on vector (address zero), running.
pub open spec fn power_on_cpu() -> Cpu {
    Cpu {
        a: 0,
        b: 0,
        c: 0,
        d: 0,
        e: 0,
        h: 0,
        l: 0,
        sp: 0,
        pc: 0,
        flags: Flags { z: false, s: false, p: false, cy: false, ac: false },
        inte: false,
        run: RunState::Running,
    }
}

/// The memory after a firmware image is copied in at the bottom of the
/// firmware region: the image bytes, then the old contents.
pub open spec fn spec_load(mem: Seq<u8>, image: Seq<u8>) -> Seq<u8> {
    Seq::new(
        mem.len(),
        |i: int|
            if 0 <= i < image.len() {
                image[i]
            } else {
                mem[i]
            },
    )
}

/// One emulator: the whole machine as one addressable unit.
pub struct Umpk80 {
    pub cpu: Cpu,
    pub bus: Bus,
}

impl View for Umpk80 {
    type V = MachV;

    open spec fn view(&self) -> MachV {
        mach(self.cpu, self.bus@)
    }
}

impl Umpk80 {
    /// The session is well formed when its bus arrays have their fixed
    /// hardware sizes.
    pub open spec fn wf(&self) -> bool {
        self@.bus.wf()
    }

    /// A session in the power-on state: processor reset, memory and
    /// latches zeroed, display blank, no key pressed.
    pub fn new() -> (s: Umpk80)
        ensures
            s.wf(),
            s@.cpu == power_on_cpu(),
            s@.bus.mem == Seq::new(MEM_SIZE as nat, |i: int| 0u8),
            s@.bus.in_ports == Seq::new(PORT_COUNT as nat, |i: int| 0u8),
            s@.bus.out_ports == Seq::new(PORT_COUNT as nat, |i: int| 0u8),
            s@.bus.digits == Seq::new(DIGIT_COUNT as nat, |i: int| 0u8),
            s@.bus.key == Option::<u8>::None,
    {
        Umpk80 { cpu: reset_cpu(), bus: Bus::new() }
    }

    /// Copy a firmware image into the firmware region, starting at its
    /// base.  An image longer than the region is rejected as
    /// `ImageTooLarge` and the session is left exactly as it was; an
    /// image that fits replaces the first `image.len()` memory bytes and
    /// changes nothing else.
    pub fn load_image(&mut self, image: &Vec<u8>) -> (r: Result<(), EmuError>)
        requires
            old(self).wf(),
        ensures
            final(self).wf(),
            image@.len() > ROM_SIZE as nat ==> {
                &&& r == Result::<(), EmuError>::Err(EmuError::ImageTooLarge)
                &&& final(self)@ == old(self)@
            },
            image@.len() <= ROM_SIZE as nat ==> {
                &&& r == Result::<(), EmuError>::Ok(())
                &&& final(self)@.cpu == old(self)@.cpu
                &&& final(self)@.bus == (BusView {
                    mem: spec_load(old(self)@.bus.mem, image@),
                    ..old(self)@.bus
                })
            },
    {
        if image.len() > ROM_SIZE as usize {
            return Err(EmuError::ImageTooLarge);
        }
        let ghost pre_mem = self.bus.mem@;
        let mut i: usize = 0;
        while i < image.len()
            invariant
                i <= image@.len(),
                image@.len() <= ROM_SIZE as nat,
                self.bus.mem@.len() == MEM_SIZE as nat,
                forall|j: int| 0 <= j < i ==> self.bus.mem@[j] == image@[j],
                forall|j: int| i <= j < MEM_SIZE as int ==> self.bus.mem@[j] == pre_mem[j],
                pre_mem.len() == MEM_SIZE as nat,
                self.cpu == old(self).cpu,
                self.bus.in_ports@ == old(self).bus.in_ports@,
                self.bus.out_ports@ == old(self).bus.out_ports@,
                self.bus.display@ == old(self).bus.display@,
                self.bus.keyboard@ == old(self).bus.keyboard@,
                old(self).wf(),
            decreases image@.len() - i,
        {
            self.bus.mem.set(i, image[i]);
            i += 1;
        }
        proof {
            assert(self.bus.mem@ =~= spec_load(pre_mem, image@));
        }
        Ok(())
    }

    /// One tick: execute exactly one instruction while running; a no-op
    /// while halted or stopped.  An unsupported opcode halts the
    /// processor, leaves everything else untouched, and is reported as
    /// `IllegalOpcode` once.
    pub fn tick(&mut self) -> (r: Result<(), EmuError>)
        requires
            old(self).wf(),
        ensures
            final(self).wf(),
            final(self)@ == spec_tick(old(self)@),
            r is Err <==> (old(self)@.cpu.run == RunState::Running && !supported(
                cur_op(old(self)@),
            )),
            r is Err ==> r == Result::<(), EmuError>::Err(EmuError::IllegalOpcode),
    {
        self.cpu.step(&mut self.bus)
    }

    /// Pause the machine: only the run state changes, to `Stopped`.
    pub fn stop(&mut self)
        ensures
            final(self)@ == (MachV {
                cpu: Cpu { run: RunState::Stopped, ..old(self)@.cpu },
                ..old(self)@
            }),
    {
        self.cpu.run = RunState::Stopped;
    }

    /// Reset the processor to its power-on state and resume running.
    /// The bus — memory, firmware included, port latches, display and
    /// keyboard — is preserved.
    pub fn restart(&mut self)
        ensures
            final(self)@ == (MachV { cpu: power_on_cpu(), ..old(self)@ }),
    {
        self.cpu = reset_cpu();
    }

    /// Make `code` the active key; visible to the very next port read.
    pub fn press_key(&mut self, code: u8)
        ensures
            final(self)@ == (MachV {
                bus: BusView { key: Option::Some(code), ..old(self)@.bus },
                ..old(self)@
            }),
    {
        self.bus.keyboard.press_key(code);
    }

    /// Clear the active key.
    pub fn release_key(&mut self)
        ensures
            final(self)@ == (MachV {
                bus: BusView { key: Option::<u8>::None, ..old(self)@.bus },
                ..old(self)@
            }),
    {
        self.bus.keyboard.release_key();
    }

    /// The keyboard matrix bitmask as the processor would read it.
    pub fn scan_port(&self) -> (scan: u8)
        ensures
            scan == spec_scan(self@.bus.key),
    {
        self.bus.keyboard.scan_port()
    }

    /// Set the input latch of `port`: the value the processor reads from
    /// that port (the keyboard port answers the scan bitmask instead).
    pub fn set_input_port(&mut self, port: u8, value: u8)
        requires
            old(self).wf(),
        ensures
            final(self).wf(),
            final(self)@ == (MachV {
                bus: BusView {
                    in_ports: old(self)@.bus.in_ports.update(port as int, value),
                    ..old(self)@.bus
                },
                ..old(self)@
            }),
    {
        self.bus.in_ports.set(port as usize, value);
    }

    /// The input latch of `port`.
    pub fn get_input_port(&self, port: u8) -> (value: u8)
        requires
            self.wf(),
        ensures
            value == self@.bus.in_ports[port as int],
    {
        self.bus.in_ports[port as usize]
    }

    /// The output latch of `port`: what the processor last wrote there.
    pub fn get_output_port(&self, port: u8) -> (value: u8)
        requires
            self.wf(),
        ensures
            value == self@.bus.out_ports[port as int],
    {
        self.bus.out_ports[port as usize]
    }

    /// Read a port exactly as the processor's input instruction would.
    pub fn port_in(&self, port: u8) -> (value: u8)
        requires
            self.wf(),
        ensures
            value == spec_port_in(self@.bus, port),
    {
        self.bus.port_in(port)
    }

    /// Write a port exactly as the processor's output instruction would:
    /// a digit pattern over the display range, the output latch
    /// elsewhere.
    pub fn port_out(&mut self, port: u8, value: u8)
        requires
            old(self).wf(),
        ensures
            final(self).wf(),
            final(self)@ == (MachV {
                bus: spec_port_out(old(self)@.bus, port, value),
                ..old(self)@
            }),
    {
        self.bus.port_out(port, value);
    }

    /// The multiplexed pattern currently shown at one digit position.
    pub fn get_display_digit(&self, index: usize) -> (pattern: u8)
        requires
            self.wf(),
            index < DIGIT_COUNT,
        ensures
            pattern == self@.bus.digits[index as int],
    {
        self.bus.display.read_digit(index)
    }

    /// One byte of memory, as a host-side poller sees it.
    pub fn read_memory(&self, addr: u16) -> (value: u8)
        requires
            self.wf(),
        ensures
            value == self@.bus.mem[addr as int],
    {
        self.bus.read(addr)
    }

    /// The current program counter.
    pub fn get_program_counter(&self) -> (pc: u16)
        ensures
            pc == self@.cpu.pc,
    {
        self.cpu.pc
    }

    /// A snapshot of the processor state: registers, flags, run state.
    pub fn cpu_state(&self) -> (c: Cpu)
        ensures
            c == self@.cpu,
    {
        self.cpu
    }
}

/// A processor in its power-on state.
fn reset_cpu() -> (c: Cpu)
    ensures
        c == power_on_cpu(),
{
    Cpu {
        a: 0,
        b: 0,
        c: 0,
        d: 0,
        e: 0,
        h: 0,
        l: 0,
        sp: 0,
        pc: 0,
        flags: Flags { z: false, s: false, p: false, cy: false, ac: false },
        inte: false,
        run: RunState::Running,
    }
}

/// While the machine is not running — stopped by the driver or halted by
/// an illegal opcode or a halt instruction — a tick changes nothing: the
/// program counter, the registers, the flags and the whole bus stay as
/// they are.
pub proof fn lemma_tick_noop_unless_running(m: MachV)
    requires
        m.cpu.run != RunState::Running,
    ensures
        spec_tick(m) == m,
{
}

/// Executing an unsupported opcode only turns the run state to `Halted`:
/// the program counter, the registers, the flags and the bus keep their
/// values, and every later tick is a no-op.
pub proof fn lemma_illegal_opcode_halts(m: MachV)
    requires
        m.cpu.run == RunState::Running,
        !supported(cur_op(m)),
    ensures
        spec_tick(m) == (MachV { cpu: Cpu { run: RunState::Halted, ..m.cpu }, ..m }),
        spec_tick(spec_tick(m)) == spec_tick(m),
{
}

} // verus!

//! The addressable bus: memory, the port space, and the wiring of the
//! display and keyboard controllers into the port space.
//!
//! Memory map: a flat array over the full 16-bit address space.  Addresses
//! below [`ROM_SIZE`] form the read-only firmware region; processor writes
//! there are silently ignored, consistently for the whole region.  All
//! higher addresses are read-write RAM.
//!
//! Port map: 256 ports in a space distinct from memory addresses.  The
//! display and keyboard are port-mapped.  A processor read of
//! [`KEYBOARD_PORT`] answers the keyboard scan bitmask; a processor write
//! to the six ports starting at [`DISPLAY_PORT_BASE`] stores a digit
//! pattern, the digit position selected by the port offset.  Every other
//! port is a pair of latches: an input latch set by the host and read by
//! the processor, and an output latch written by the processor and read by
//! the host.

use vstd::prelude::*;
use crate::display::{Display, DIGIT_COUNT};
use crate::keyboard::{Keyboard, spec_scan};

verus! {

/// Size of the flat memory array: the full 16-bit address space.
pub const MEM_SIZE: usize = 65536;

/// The firmware region starts at address zero.
pub const ROM_BASE: u16 = 0;

/// Length of the read-only firmware region.
pub const ROM_SIZE: u16 = 2048;

/// Number of addressable ports.
pub const PORT_COUNT: usize = 256;

/// Reading this port answers the keyboard matrix scan bitmask.
pub const KEYBOARD_PORT: u8 = 4;

/// Writes to the six ports starting here set display digit patterns.
pub const DISPLAY_PORT_BASE: u8 = 6;

/// The bus state as contracts speak of it.
#[verifier::ext_equal]
pub struct BusView {
    /// The memory array, firmware region included.
    pub mem: Seq<u8>,
    /// The input latches: host-set values the processor reads.
    pub in_ports: Seq<u8>,
    /// The output latches: processor-written values the host reads.
    pub out_ports: Seq<u8>,
    /// The display digit patterns.
    pub digits: Seq<u8>,
    /// The currently pressed key, if any.
    pub key: Option<u8>,
}

impl BusView {
    /// Every backing array has its fixed hardware size.
    pub open spec fn wf(self) -> bool {
        &&& self.mem.len() == MEM_SIZE
        &&& self.in_ports.len() == PORT_COUNT
        &&& self.out_ports.len() == PORT_COUNT
        &&& self.digits.len() == DIGIT_COUNT
    }
}

/// The byte a read of `addr` yields.
pub open spec fn spec_read(b: BusView, addr: u16) -> u8 {
    b.mem[addr as int]
}

/// The bus after a processor write of `value` at `addr`: stored in RAM,
/// silently ignored over the firmware region.
pub open spec fn spec_write(b: BusView, addr: u16, value: u8) -> BusView {
    if addr < ROM_SIZE {
        b
    } else {
        BusView { mem: b.mem.update(addr as int, value), ..b }
    }
}

/// The byte a processor read of port `port` yields: the keyboard scan on
/// [`KEYBOARD_PORT`], the input latch elsewhere.
pub open spec fn spec_port_in(b: BusView, port: u8) -> u8 {
    if port == KEYBOARD_PORT {
        spec_scan(b.key)
    } else {
        b.in_ports[port as int]
    }
}

/// Whether `port` addresses a display digit.
pub open spec fn spec_is_display_port(port: u8) -> bool {
    DISPLAY_PORT_BASE <= port < DISPLAY_PORT_BASE + DIGIT_COUNT as u8
}

/// The bus after a processor write of `value` to port `port`: a digit
/// pattern over the display range, the output latch elsewhere.
pub open spec fn spec_port_out(b: BusView, port: u8, value: u8) -> BusView {
    if spec_is_display_port(port) {
        BusView { digits: b.digits.update(port - DISPLAY_PORT_BASE, value), ..b }
    } else {
        BusView { out_ports: b.out_ports.update(port as int, value), ..b }
    }
}

/// The bus: memory, the two banks of port latches, and the two
/// port-mapped controllers.
pub struct Bus {
    pub mem: Vec<u8>,
    pub in_ports: Vec<u8>,
    pub out_ports: Vec<u8>,
    pub display: Display,
    pub keyboard: Keyboard,
}

impl View for Bus {
    type V = BusView;

    open spec fn view(&self) -> BusView {
        BusView {
            mem: self.mem@,
            in_ports: self.in_ports@,
            out_ports: self.out_ports@,
            digits: self.display@,
            key: self.keyboard@,
        }
    }
}

/// A vector of `len` zero bytes.
fn zero_vec(len: usize) -> (v: Vec<u8>)
    ensures
        v@ == Seq::new(len as nat, |i: int| 0u8),
{
    let mut v: Vec<u8> = Vec::new();
    let mut i: usize = 0;
    while i < len
        invariant
            i <= len,
            v@.len() == i,
            forall|j: int| 0 <= j < i ==> v@[j] == 0u8,
        decreases len - i,
    {
        v.push(0);
        i += 1;
    }
    proof {
        assert(v@ =~= Seq::new(len as nat, |i: int| 0u8));
    }
    v
}

impl Bus {
    pub open spec fn wf(&self) -> bool {
        self@.wf()
    }

    /// A power-on bus: memory and latches zeroed, display blank, no key
    /// pressed.
    pub fn new() -> (b: Bus)
        ensures
            b.wf(),
            b@.mem == Seq::new(MEM_SIZE as nat, |i: int| 0u8),
            b@.in_ports == Seq::new(PORT_COUNT as nat, |i: int| 0u8),
            b@.out_ports == Seq::new(PORT_COUNT as nat, |i: int| 0u8),
            b@.digits == Seq::new(DIGIT_COUNT as nat, |i: int| 0u8),
            b@.key == Option::<u8>::None,
    {
        Bus {
            mem: zero_vec(MEM_SIZE),
            in_ports: zero_vec(PORT_COUNT),
            out_ports: zero_vec(PORT_COUNT),
            display: Display::new(),
            keyboard: Keyboard::new(),
        }
    }

    /// Read one byte of memory.
    pub fn read(&self, addr: u16) -> (value: u8)
        requires
            self.wf(),
        ensures
            value == spec_read(self@, addr),
    {
        self.mem[addr as usize]
    }

    /// Processor write of one byte of memory: ignored over the firmware
    /// region, stored elsewhere.
    pub fn write(&mut self, addr: u16, value: u8)
        requires
            old(self).wf(),
        ensures
            final(self).wf(),
            final(self)@ == spec_write(old(self)@, addr, value),
    {
        if addr >= ROM_SIZE {
            self.mem.set(addr as usize, value);
        }
    }

    /// Processor read of one port.
    pub fn port_in(&self, port: u8) -> (value: u8)
        requires
            self.wf(),
        ensures
            value == spec_port_in(self@, port),
    {
        if port == KEYBOARD_PORT {
            self.keyboard.scan_port()
        } else {
            self.in_ports[port as usize]
        }
    }

    /// Processor write of one port.
    pub fn port_out(&mut self, port: u8, value: u8)
        requires
            old(self).wf(),
        ensures
            final(self).wf(),
            final(self)@ == spec_port_out(old(self)@, port, value),
    {
        if DISPLAY_PORT_BASE <= port && port < DISPLAY_PORT_BASE + DIGIT_COUNT as u8 {
            self.display.write_digit((port - DISPLAY_PORT_BASE) as usize, value);
        } else {
            self.out_ports.set(port as usize, value);
        }
    }
}

} // verus!

//! The legacy dual-8259 interrupt controller's boot-time programming,
//! computed as the exact sequence of port writes to issue.
//!
//! The controller must be remapped even though it is disabled immediately
//! after: left unconfigured it can raise spurious vectors that collide
//! with CPU exceptions.  Performing the writes is a single-instruction
//! port operation per pair and stays outside the library.
use vstd::prelude::*;

verus! {

/// The command port of the primary 8259.
pub const PIC1_BASE: u16 = 0x20;

/// The command port of the secondary 8259.
pub const PIC2_BASE: u16 = 0xa0;

/// The (port, value) writes that remap IRQs 0-15 to interrupt vectors
/// starting at `interrupt`: the two init commands, the two vector bases,
/// the cascade wiring, the 8086 mode words, and cleared masks.
pub fn pic_remap_irqs_commands(interrupt: u8) -> (r: Vec<(u16, u8)>)
    requires
        interrupt <= 247,
    ensures
        r@.len() == 10,
        r@[0] == (PIC1_BASE, 0x11u8),
        r@[1] == (PIC2_BASE, 0x11u8),
        r@[2] == ((PIC1_BASE + 1) as u16, interrupt),
        r@[3] == ((PIC2_BASE + 1) as u16, (interrupt + 8) as u8),
        r@[4] == ((PIC1_BASE + 1) as u16, 0x04u8),
        r@[5] == ((PIC2_BASE + 1) as u16, 0x02u8),
        r@[6] == ((PIC1_BASE + 1) as u16, 0x01u8),
        r@[7] == ((PIC2_BASE + 1) as u16, 0x01u8),
        r@[8] == ((PIC1_BASE + 1) as u16, 0x00u8),
        r@[9] == ((PIC2_BASE + 1) as u16, 0x00u8),
{
    let mut v: Vec<(u16, u8)> = Vec::new();
    v.push((PIC1_BASE, 0x11));
    v.push((PIC2_BASE, 0x11));
    v.push((PIC1_BASE + 1, interrupt));
    v.push((PIC2_BASE + 1, interrupt + 8));
    v.push((PIC1_BASE + 1, 0x04));
    v.push((PIC2_BASE + 1, 0x02));
    v.push((PIC1_BASE + 1, 0x01));
    v.push((PIC2_BASE + 1, 0x01));
    v.push((PIC1_BASE + 1, 0x0));
    v.push((PIC2_BASE + 1, 0x0));
    v
}

/// The (port, value) writes that mask every IRQ line on both controllers,
/// assuming the remap sequence already ran.  The newer I/O-APIC model
/// supersedes the 8259s entirely.
pub fn pic_disable_commands() -> (r: Vec<(u16, u8)>)
    ensures
        r@.len() == 2,
        r@[0] == ((PIC1_BASE + 1) as u16, 0xffu8),
        r@[1] == ((PIC2_BASE + 1) as u16, 0xffu8),
{
    let mut v: Vec<(u16, u8)> = Vec::new();
    v.push((PIC1_BASE + 1, 0xff));
    v.push((PIC2_BASE + 1, 0xff));
    v
}

} // verus!

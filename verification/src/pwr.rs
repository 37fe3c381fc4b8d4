//! Power control: boot sequencing of the second core.

use vstd::prelude::*;

verus! {

/// Model of the power-control register bits this driver owns: the bit
/// that releases the second core from reset.
pub struct PwrRegisters {
    c2boot: bool,
}

impl PwrRegisters {
    /// Whether the second core has been released from reset.
    pub closed spec fn cpu2_booted(self) -> bool {
        self.c2boot
    }

    /// The power-on state: the second core is held in reset.
    pub fn new() -> (r: PwrRegisters)
        ensures
            !r.cpu2_booted(),
    {
        PwrRegisters { c2boot: false }
    }
}

/// Driver handle owning the power-control peripheral.
pub struct Power {
    peripheral: PwrRegisters,
}

impl Power {
    /// Whether this handle has released the second core from reset.
    pub closed spec fn cpu2_booted(self) -> bool {
        self.peripheral.cpu2_booted()
    }

    /// Takes exclusive ownership of the power-control peripheral.
    pub fn new(peri: PwrRegisters) -> (p: Power)
        ensures
            p.cpu2_booted() == peri.cpu2_booted(),
    {
        Self { peripheral: peri }
    }

    /// Releases the second core from reset, so that it starts executing.
    pub fn boot_cpu2(&mut self)
        ensures
            final(self).cpu2_booted(),
    {
        self.peripheral.c2boot = true;
    }

    /// Whether the second core has been released from reset.
    pub fn is_cpu2_booted(&self) -> (b: bool)
        ensures
            b == self.cpu2_booted(),
    {
        self.peripheral.c2boot
    }
}

} // verus!

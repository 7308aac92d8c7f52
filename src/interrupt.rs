//! Asynchronous interrupts and their cause codes.
use vstd::prelude::*;

verus! {

/// The high bit of a cause register marks an interrupt.
pub const MASK_INTERRUPT_BIT: u64 = 1 << 63;

/// An interrupt that the hart can take.
#[derive(Clone, Copy, Debug, PartialEq, Eq, Structural)]
pub enum Interrupt {
    SupervisorSoftwareInterrupt,
    MachineSoftwareInterrupt,
    SupervisorTimerInterrupt,
    MachineTimerInterrupt,
    SupervisorExternalInterrupt,
    MachineExternalInterrupt,
}

impl Interrupt {
    /// The interrupt's number: its bit in mip, mie and mideleg.
    pub open spec fn spec_index(self) -> u64 {
        match self {
            Interrupt::SupervisorSoftwareInterrupt => 1,
            Interrupt::MachineSoftwareInterrupt => 3,
            Interrupt::SupervisorTimerInterrupt => 5,
            Interrupt::MachineTimerInterrupt => 7,
            Interrupt::SupervisorExternalInterrupt => 9,
            Interrupt::MachineExternalInterrupt => 11,
        }
    }

    /// The cause value: the interrupt's number with the interrupt bit set.
    pub open spec fn spec_code(self) -> u64 {
        self.spec_index() | MASK_INTERRUPT_BIT
    }

    #[verifier::when_used_as_spec(spec_index)]
    pub fn index(self) -> (r: u64)
        ensures
            r == self.spec_index(),
            r < 12,
    {
        match self {
            Interrupt::SupervisorSoftwareInterrupt => 1,
            Interrupt::MachineSoftwareInterrupt => 3,
            Interrupt::SupervisorTimerInterrupt => 5,
            Interrupt::MachineTimerInterrupt => 7,
            Interrupt::SupervisorExternalInterrupt => 9,
            Interrupt::MachineExternalInterrupt => 11,
        }
    }

    #[verifier::when_used_as_spec(spec_code)]
    pub fn code(self) -> (r: u64)
        ensures
            r == self.spec_code(),
    {
        self.index() | MASK_INTERRUPT_BIT
    }
}

} // verus!

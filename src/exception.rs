//! Synchronous exceptions, each with its RISC-V cause code and trap value.
use vstd::prelude::*;

verus! {

/// An exception raised while fetching, translating or executing an instruction.
/// The payload is the value written to xTVAL when the trap is taken.
#[derive(Clone, Copy, Debug, PartialEq, Eq, Structural)]
pub enum Exception {
    InstructionAddressMisaligned(u64),
    InstructionAccessFault(u64),
    IllegalInstruction(u64),
    Breakpoint(u64),
    LoadAddressMisaligned(u64),
    LoadAccessFault(u64),
    StoreAMOAddressMisaligned(u64),
    StoreAMOAccessFault(u64),
    EnvironmentCallFromUMode(u64),
    EnvironmentCallFromSMode(u64),
    EnvironmentCallFromMMode(u64),
    InstructionPageFault(u64),
    LoadPageFault(u64),
    StoreAMOPageFault(u64),
}

impl Exception {
    /// The trap value carried by the exception.
    pub open spec fn spec_value(self) -> u64 {
        match self {
            Exception::InstructionAddressMisaligned(v) => v,
            Exception::InstructionAccessFault(v) => v,
            Exception::IllegalInstruction(v) => v,
            Exception::Breakpoint(v) => v,
            Exception::LoadAddressMisaligned(v) => v,
            Exception::LoadAccessFault(v) => v,
            Exception::StoreAMOAddressMisaligned(v) => v,
            Exception::StoreAMOAccessFault(v) => v,
            Exception::EnvironmentCallFromUMode(v) => v,
            Exception::EnvironmentCallFromSMode(v) => v,
            Exception::EnvironmentCallFromMMode(v) => v,
            Exception::InstructionPageFault(v) => v,
            Exception::LoadPageFault(v) => v,
            Exception::StoreAMOPageFault(v) => v,
        }
    }

    /// The standard RISC-V exception code.
    pub open spec fn spec_code(self) -> u64 {
        match self {
            Exception::InstructionAddressMisaligned(_) => 0,
            Exception::InstructionAccessFault(_) => 1,
            Exception::IllegalInstruction(_) => 2,
            Exception::Breakpoint(_) => 3,
            Exception::LoadAddressMisaligned(_) => 4,
            Exception::LoadAccessFault(_) => 5,
            Exception::StoreAMOAddressMisaligned(_) => 6,
            Exception::StoreAMOAccessFault(_) => 7,
            Exception::EnvironmentCallFromUMode(_) => 8,
            Exception::EnvironmentCallFromSMode(_) => 9,
            Exception::EnvironmentCallFromMMode(_) => 11,
            Exception::InstructionPageFault(_) => 12,
            Exception::LoadPageFault(_) => 13,
            Exception::StoreAMOPageFault(_) => 15,
        }
    }

    /// Whether the emulator stops after delivering this exception.
    pub open spec fn spec_is_fatal(self) -> bool {
        match self {
            Exception::InstructionAddressMisaligned(_)
            | Exception::InstructionAccessFault(_)
            | Exception::LoadAccessFault(_)
            | Exception::StoreAMOAddressMisaligned(_)
            | Exception::StoreAMOAccessFault(_)
            | Exception::IllegalInstruction(_) => true,
            _ => false,
        }
    }

    #[verifier::when_used_as_spec(spec_value)]
    pub fn value(self) -> (r: u64)
        ensures
            r == self.spec_value(),
    {
        match self {
            Exception::InstructionAddressMisaligned(v) => v,
            Exception::InstructionAccessFault(v) => v,
            Exception::IllegalInstruction(v) => v,
            Exception::Breakpoint(v) => v,
            Exception::LoadAddressMisaligned(v) => v,
            Exception::LoadAccessFault(v) => v,
            Exception::StoreAMOAddressMisaligned(v) => v,
            Exception::StoreAMOAccessFault(v) => v,
            Exception::EnvironmentCallFromUMode(v) => v,
            Exception::EnvironmentCallFromSMode(v) => v,
            Exception::EnvironmentCallFromMMode(v) => v,
            Exception::InstructionPageFault(v) => v,
            Exception::LoadPageFault(v) => v,
            Exception::StoreAMOPageFault(v) => v,
        }
    }

    #[verifier::when_used_as_spec(spec_code)]
    pub fn code(self) -> (r: u64)
        ensures
            r == self.spec_code(),
            r < 16,
    {
        match self {
            Exception::InstructionAddressMisaligned(_) => 0,
            Exception::InstructionAccessFault(_) => 1,
            Exception::IllegalInstruction(_) => 2,
            Exception::Breakpoint(_) => 3,
            Exception::LoadAddressMisaligned(_) => 4,
            Exception::LoadAccessFault(_) => 5,
            Exception::StoreAMOAddressMisaligned(_) => 6,
            Exception::StoreAMOAccessFault(_) => 7,
            Exception::EnvironmentCallFromUMode(_) => 8,
            Exception::EnvironmentCallFromSMode(_) => 9,
            Exception::EnvironmentCallFromMMode(_) => 11,
            Exception::InstructionPageFault(_) => 12,
            Exception::LoadPageFault(_) => 13,
            Exception::StoreAMOPageFault(_) => 15,
        }
    }

    #[verifier::when_used_as_spec(spec_is_fatal)]
    pub fn is_fatal(self) -> (r: bool)
        ensures
            r == self.spec_is_fatal(),
    {
        match self {
            Exception::InstructionAddressMisaligned(_)
            | Exception::InstructionAccessFault(_)
            | Exception::LoadAccessFault(_)
            | Exception::StoreAMOAddressMisaligned(_)
            | Exception::StoreAMOAccessFault(_)
            | Exception::IllegalInstruction(_) => true,
            _ => false,
        }
    }
}

} // verus!

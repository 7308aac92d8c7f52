//! The platform-level interrupt controller: four 32-bit registers. Accesses to other
//! offsets read as zero and absorb writes.
use vstd::prelude::*;
use crate::exception::Exception;
use crate::param::{PLIC_PENDING, PLIC_SCLAIM, PLIC_SENABLE, PLIC_SPRIORITY};

verus! {

/// The interrupt controller; only 32-bit accesses are legal.
pub struct Plic {
    pub pending: u32,
    pub senable: u32,
    pub spriority: u32,
    pub sclaim: u32,
}

impl Plic {
    /// What a load of `size` bits at `addr` returns.
    pub open spec fn load_spec(&self, addr: u64, size: u64) -> Result<u64, Exception> {
        if size != 32 {
            Err(Exception::LoadAccessFault(addr))
        } else if addr == PLIC_PENDING {
            Ok(self.pending as u64)
        } else if addr == PLIC_SENABLE {
            Ok(self.senable as u64)
        } else if addr == PLIC_SPRIORITY {
            Ok(self.spriority as u64)
        } else if addr == PLIC_SCLAIM {
            Ok(self.sclaim as u64)
        } else {
            Ok(0)
        }
    }

    /// What a store of `size` bits of `value` at `addr` returns, with the device after it.
    pub open spec fn store_spec(&self, addr: u64, size: u64, value: u64) -> (Result<(), Exception>, Plic) {
        if size != 32 {
            (Err(Exception::StoreAMOAccessFault(addr)), *self)
        } else if addr == PLIC_PENDING {
            (Ok(()), Plic { pending: value as u32, ..*self })
        } else if addr == PLIC_SENABLE {
            (Ok(()), Plic { senable: value as u32, ..*self })
        } else if addr == PLIC_SPRIORITY {
            (Ok(()), Plic { spriority: value as u32, ..*self })
        } else if addr == PLIC_SCLAIM {
            (Ok(()), Plic { sclaim: value as u32, ..*self })
        } else {
            (Ok(()), *self)
        }
    }

    pub fn new() -> (p: Plic)
        ensures
            p == (Plic { pending: 0, senable: 0, spriority: 0, sclaim: 0 }),
    {
        Plic { pending: 0, senable: 0, spriority: 0, sclaim: 0 }
    }

    pub fn load(&self, addr: u64, size: u64) -> (r: Result<u64, Exception>)
        ensures
            r == self.load_spec(addr, size),
    {
        if size != 32 {
            return Err(Exception::LoadAccessFault(addr));
        }
        if addr == PLIC_PENDING {
            Ok(self.pending as u64)
        } else if addr == PLIC_SENABLE {
            Ok(self.senable as u64)
        } else if addr == PLIC_SPRIORITY {
            Ok(self.spriority as u64)
        } else if addr == PLIC_SCLAIM {
            Ok(self.sclaim as u64)
        } else {
            Ok(0)
        }
    }

    pub fn store(&mut self, addr: u64, size: u64, value: u64) -> (r: Result<(), Exception>)
        ensures
            (r, *final(self)) == old(self).store_spec(addr, size, value),
    {
        if size != 32 {
            return Err(Exception::StoreAMOAccessFault(addr));
        }
        if addr == PLIC_PENDING {
            self.pending = value as u32;
        } else if addr == PLIC_SENABLE {
            self.senable = value as u32;
        } else if addr == PLIC_SPRIORITY {
            self.spriority = value as u32;
        } else if addr == PLIC_SCLAIM {
            self.sclaim = value as u32;
        }
        Ok(())
    }
}

} // verus!

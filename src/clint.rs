//! The core-local interruptor: the machine timer registers mtime and mtimecmp.
use vstd::prelude::*;
use crate::exception::Exception;
use crate::param::{CLINT_MTIME, CLINT_MTIMECMP};

verus! {

/// The timer device; only 64-bit accesses are legal.
pub struct Clint {
    pub mtime: u64,
    pub mtimecmp: u64,
}

impl Clint {
    /// What a load of `size` bits at `addr` returns.
    pub open spec fn load_spec(&self, addr: u64, size: u64) -> Result<u64, Exception> {
        if size == 64 && addr == CLINT_MTIMECMP {
            Ok(self.mtimecmp)
        } else if size == 64 && addr == CLINT_MTIME {
            Ok(self.mtime)
        } else {
            Err(Exception::LoadAccessFault(addr))
        }
    }

    /// What a store of `size` bits of `value` at `addr` returns, with the device after it.
    pub open spec fn store_spec(&self, addr: u64, size: u64, value: u64) -> (Result<(), Exception>, Clint) {
        if size == 64 && addr == CLINT_MTIMECMP {
            (Ok(()), Clint { mtimecmp: value, ..*self })
        } else if size == 64 && addr == CLINT_MTIME {
            (Ok(()), Clint { mtime: value, ..*self })
        } else {
            (Err(Exception::StoreAMOAccessFault(addr)), *self)
        }
    }

    pub fn new() -> (c: Clint)
        ensures
            c.mtime == 0,
            c.mtimecmp == 0,
    {
        Clint { mtime: 0, mtimecmp: 0 }
    }

    pub fn load(&self, addr: u64, size: u64) -> (r: Result<u64, Exception>)
        ensures
            r == self.load_spec(addr, size),
    {
        if size != 64 {
            return Err(Exception::LoadAccessFault(addr));
        }
        if addr == CLINT_MTIMECMP {
            Ok(self.mtimecmp)
        } else if addr == CLINT_MTIME {
            Ok(self.mtime)
        } else {
            Err(Exception::LoadAccessFault(addr))
        }
    }

    pub fn store(&mut self, addr: u64, size: u64, value: u64) -> (r: Result<(), Exception>)
        ensures
            (r, *final(self)) == old(self).store_spec(addr, size, value),
    {
        if size != 64 {
            return Err(Exception::StoreAMOAccessFault(addr));
        }
        if addr == CLINT_MTIMECMP {
            self.mtimecmp = value;
            Ok(())
        } else if addr == CLINT_MTIME {
            self.mtime = value;
            Ok(())
        } else {
            Err(Exception::StoreAMOAccessFault(addr))
        }
    }
}

} // verus!

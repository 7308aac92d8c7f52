//! Main memory: a byte array with little-endian accesses of 8, 16, 32 and 64 bits.
use vstd::prelude::*;
use crate::exception::Exception;
use crate::param::{DRAM_BASE, DRAM_SIZE};

verus! {

/// Whether `size` (in bits) is an access width that the bus supports.
pub open spec fn spec_valid_size(size: u64) -> bool {
    size == 8 || size == 16 || size == 32 || size == 64
}

/// Whether `size` (in bits) is an access width that the bus supports.
#[verifier::when_used_as_spec(spec_valid_size)]
pub fn valid_size(size: u64) -> (r: bool)
    ensures
        r == spec_valid_size(size),
{
    size == 8 || size == 16 || size == 32 || size == 64
}

/// The value of the `n` bytes of `s` from `start` on, least significant byte first.
pub open spec fn le_bytes(s: Seq<u8>, start: int, n: nat) -> u64
    decreases n,
{
    if n == 0 {
        0
    } else {
        (s[start] as u64) | (le_bytes(s, start + 1, (n - 1) as nat) << 8u64)
    }
}

/// Byte `i` of `v`, counting from the least significant one.
pub open spec fn byte_of(v: u64, i: int) -> u8 {
    ((v >> ((8 * i) as u64)) & 0xff) as u8
}

/// `s` with the `n` low bytes of `v` written from `start` on, least significant first.
pub open spec fn store_bytes(s: Seq<u8>, start: int, n: nat, v: u64) -> Seq<u8> {
    Seq::new(s.len(), |j: int| if start <= j < start + n { byte_of(v, j - start) } else { s[j] })
}

/// The mask of the `n` low bytes of a 64-bit value.
pub open spec fn low_bytes_mask(n: nat) -> u64 {
    if n == 0 {
        0
    } else if n == 1 {
        0xff
    } else if n == 2 {
        0xffff
    } else if n == 3 {
        0xff_ffff
    } else if n == 4 {
        0xffff_ffff
    } else if n == 5 {
        0xff_ffff_ffff
    } else if n == 6 {
        0xffff_ffff_ffff
    } else if n == 7 {
        0xff_ffff_ffff_ffff
    } else {
        0xffff_ffff_ffff_ffff
    }
}

/// Whether an access of `size` bits at `addr` lies inside main memory.
pub open spec fn in_dram(addr: u64, size: u64) -> bool {
    DRAM_BASE <= addr && addr - DRAM_BASE + size / 8 <= DRAM_SIZE
}

/// What a load of `size` bits at `addr` returns from memory `mem`.
pub open spec fn dram_load(mem: Seq<u8>, addr: u64, size: u64) -> Result<u64, Exception> {
    if spec_valid_size(size) && in_dram(addr, size) {
        Ok(le_bytes(mem, addr - DRAM_BASE, (size / 8) as nat))
    } else {
        Err(Exception::LoadAccessFault(addr))
    }
}

/// Memory `mem` after a store of `size` bits of `value` at `addr`.
pub open spec fn dram_store(mem: Seq<u8>, addr: u64, size: u64, value: u64) -> Seq<u8> {
    store_bytes(mem, addr - DRAM_BASE, (size / 8) as nat, value)
}

/// The memory after a store of `size` bits of `value` at `addr`, with the result of the
/// store: out-of-range or mis-sized stores fault and change nothing.
pub open spec fn dram_store_op(mem: Seq<u8>, addr: u64, size: u64, value: u64) -> (
    Seq<u8>,
    Result<(), Exception>,
) {
    if spec_valid_size(size) && in_dram(addr, size) {
        (dram_store(mem, addr, size, value), Ok(()))
    } else {
        (mem, Err(Exception::StoreAMOAccessFault(addr)))
    }
}

/// `v` read as a signed value of `size` bits and widened to 64 bits.
pub open spec fn sign_extend(v: u64, size: u64) -> u64 {
    if size == 8 {
        v as i8 as i64 as u64
    } else if size == 16 {
        v as i16 as i64 as u64
    } else if size == 32 {
        v as i32 as i64 as u64
    } else {
        v
    }
}

/// Main memory.
pub struct Dram {
    pub dram: Vec<u8>,
}

impl Dram {
    pub open spec fn wf(&self) -> bool {
        self.dram@.len() == DRAM_SIZE
    }

    /// What a load of `size` bits at `addr` returns.
    pub open spec fn load_spec(&self, addr: u64, size: u64) -> Result<u64, Exception> {
        dram_load(self.dram@, addr, size)
    }

    /// Memory that holds `code` from its first byte on, and zeros after it.
    pub fn new(code: Vec<u8>) -> (d: Dram)
        requires
            code@.len() <= DRAM_SIZE,
        ensures
            d.wf(),
            forall|i: int| 0 <= i < code@.len() ==> d.dram@[i] == code@[i],
            forall|i: int| code@.len() <= i < DRAM_SIZE ==> d.dram@[i] == 0,
    {
        let mut dram: Vec<u8> = vec![0u8; DRAM_SIZE as usize];
        let mut i: usize = 0;
        while i < code.len()
            invariant
                i <= code@.len() <= DRAM_SIZE,
                dram@.len() == DRAM_SIZE,
                forall|j: int| 0 <= j < i ==> dram@[j] == code@[j],
                forall|j: int| i <= j < DRAM_SIZE ==> dram@[j] == 0,
            decreases code@.len() - i,
        {
            dram.set(i, code[i]);
            i = i + 1;
        }
        Dram { dram }
    }

    /// Load `size` bits at `addr`, little-endian.
    pub fn load(&self, addr: u64, size: u64) -> (r: Result<u64, Exception>)
        requires
            self.wf(),
        ensures
            r == self.load_spec(addr, size),
    {
        if !valid_size(size) || addr < DRAM_BASE || addr - DRAM_BASE > DRAM_SIZE - size / 8 {
            return Err(Exception::LoadAccessFault(addr));
        }
        let nbytes = size / 8;
        let index = (addr - DRAM_BASE) as usize;
        let mut v: u64 = 0;
        let mut i: u64 = nbytes;
        while i > 0
            invariant
                self.wf(),
                nbytes == size / 8,
                spec_valid_size(size),
                index + nbytes <= DRAM_SIZE,
                i <= nbytes,
                v == le_bytes(self.dram@, index + i, (nbytes - i) as nat),
            decreases i,
        {
            i = i - 1;
            v = (self.dram[index + i as usize] as u64) | (v << 8u64);
        }
        Ok(v)
    }

    /// Store the `size` low bits of `value` at `addr`, little-endian.
    pub fn store(&mut self, addr: u64, size: u64, value: u64) -> (r: Result<(), Exception>)
        requires
            old(self).wf(),
        ensures
            final(self).wf(),
            (final(self).dram@, r) == dram_store_op(old(self).dram@, addr, size, value),
    {
        if !valid_size(size) || addr < DRAM_BASE || addr - DRAM_BASE > DRAM_SIZE - size / 8 {
            return Err(Exception::StoreAMOAccessFault(addr));
        }
        let nbytes = size / 8;
        let index = (addr - DRAM_BASE) as usize;
        let ghost s0 = self.dram@;
        let mut i: u64 = 0;
        while i < nbytes
            invariant
                self.dram@.len() == DRAM_SIZE,
                s0.len() == DRAM_SIZE,
                nbytes == size / 8,
                spec_valid_size(size),
                index + nbytes <= DRAM_SIZE,
                i <= nbytes,
                self.dram@ == store_bytes(s0, index as int, i as nat, value),
            decreases nbytes - i,
        {
            self.dram.set(index + i as usize, ((value >> (8 * i)) & 0xff) as u8);
            i = i + 1;
            assert(self.dram@ =~= store_bytes(s0, index as int, i as nat, value));
        }
        Ok(())
    }
}

/// Reading back `k` stored bytes from their `k`-th on gives the value shifted right by
/// `8k` bits, masked to the bytes that remain.
proof fn lemma_le_bytes_of_store(s: Seq<u8>, start: int, n: nat, v: u64, k: nat)
    requires
        0 <= start,
        start + n <= s.len(),
        n <= 8,
        k <= n,
    ensures
        le_bytes(store_bytes(s, start, n, v), start + k, (n - k) as nat) == (v >> ((8 * k)
            as u64)) & low_bytes_mask((n - k) as nat),
    decreases n - k,
{
    let t = store_bytes(s, start, n, v);
    let x = v >> ((8 * k) as u64);
    if k == n {
        assert(x & 0 == 0) by (bit_vector);
    } else {
        lemma_le_bytes_of_store(s, start, n, v, k + 1);
        let m = (n - k - 1) as nat;
        let mm = low_bytes_mask(m);
        let sh = (8 * k) as u64;
        assert(sh + 8 <= 64);
        assert(v >> ((sh + 8) as u64) == x >> 8) by (bit_vector)
            requires
                x == v >> sh,
                sh + 8 <= 64,
        ;
        assert(8 * (k + 1) == sh + 8);
        assert(t[start + k] == byte_of(v, k as int));
        assert(mm <= 0xff_ffff_ffff_ffff);
        assert(low_bytes_mask(m + 1) == (mm << 8u64) | 0xff) by {
            assert(0xff == (0u64 << 8u64) | 0xff && 0xffff == (0xffu64 << 8u64) | 0xff && 0xff_ffff
                == (0xffffu64 << 8u64) | 0xff && 0xffff_ffff == (0xff_ffffu64 << 8u64) | 0xff
                && 0xff_ffff_ffff == (0xffff_ffffu64 << 8u64) | 0xff && 0xffff_ffff_ffff == (
            0xff_ffff_ffffu64 << 8u64) | 0xff && 0xff_ffff_ffff_ffff == (0xffff_ffff_ffffu64
                << 8u64) | 0xff && 0xffff_ffff_ffff_ffffu64 == (0xff_ffff_ffff_ffffu64 << 8u64)
                | 0xff) by (bit_vector);
        }
        let mm1 = low_bytes_mask(m + 1);
        assert((((x & 0xff) as u8) as u64) | (((x >> 8u64) & mm) << 8u64) == x & mm1)
            by (bit_vector)
            requires
                mm <= 0xff_ffff_ffff_ffff,
                mm1 == (mm << 8u64) | 0xff,
        ;
        assert((n - k - 1) as nat == m);
        assert((n - k) as nat == m + 1);
    }
}

/// A load of the width and address of a store returns the stored value cut to that
/// width, and read as a signed value it is the stored value sign-extended from that width.
pub proof fn lemma_store_load_round_trip(mem: Seq<u8>, addr: u64, size: u64, value: u64)
    requires
        mem.len() == DRAM_SIZE,
        spec_valid_size(size),
        in_dram(addr, size),
    ensures
        dram_load(dram_store(mem, addr, size, value), addr, size) == Ok::<u64, Exception>(
            value & low_bytes_mask((size / 8) as nat),
        ),
        sign_extend(value & low_bytes_mask((size / 8) as nat), size) == sign_extend(value, size),
{
    lemma_le_bytes_of_store(mem, addr - DRAM_BASE, (size / 8) as nat, value, 0);
    assert(value >> 0u64 == value) by (bit_vector);
    assert((value & 0xff) as i8 as i64 as u64 == value as i8 as i64 as u64 && (value & 0xffff)
        as i16 as i64 as u64 == value as i16 as i64 as u64 && (value & 0xffff_ffff) as i32 as i64
        as u64 == value as i32 as i64 as u64 && value & 0xffff_ffff_ffff_ffff == value)
        by (bit_vector);
}

} // verus!

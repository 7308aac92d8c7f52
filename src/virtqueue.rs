//! Layout of the legacy virtqueue structures in guest memory.
use vstd::prelude::*;

verus! {

/// Size in bytes of a descriptor.
pub const DESC_SIZE: u64 = 16;
/// Offsets of the descriptor fields.
pub const DESC_ADDR_OFFSET: u64 = 0;
pub const DESC_LEN_OFFSET: u64 = 8;
pub const DESC_FLAGS_OFFSET: u64 = 12;
pub const DESC_NEXT_OFFSET: u64 = 14;
/// Offsets within the available ring.
pub const AVAIL_IDX_OFFSET: u64 = 2;
pub const AVAIL_RING_OFFSET: u64 = 4;
/// Offset of the index within the used ring.
pub const USED_IDX_OFFSET: u64 = 2;
/// Offsets of the block request header fields.
pub const REQ_IOTYPE_OFFSET: u64 = 0;
pub const REQ_SECTOR_OFFSET: u64 = 8;

/// A descriptor: a buffer in guest memory and the index of the next descriptor.
#[derive(Clone, Copy, Debug, PartialEq, Eq, Structural)]
pub struct VirtqDesc {
    pub addr: u64,
    pub len: u32,
    pub flags: u16,
    pub next: u16,
}

/// The available ring, written by the driver.
#[derive(Clone, Copy, Debug)]
pub struct VirtqAvail {
    pub flags: u16,
    pub idx: u16,
    pub ring: [u16; 8],
    pub used_event: u16,
}

/// An element of the used ring.
#[derive(Clone, Copy, Debug, PartialEq, Eq, Structural)]
pub struct VirtQUsedusedElem {
    pub id: u32,
    pub len: u32,
}

/// The used ring, written by the device.
#[derive(Clone, Copy, Debug)]
pub struct VirtqUsed {
    pub flags: u16,
    pub idx: u16,
    pub ring: [VirtQUsedusedElem; 8],
    pub avail_event: u16,
}

/// The header of a block request: its type and the first sector.
#[derive(Clone, Copy, Debug, PartialEq, Eq, Structural)]
pub struct VirtioBlkRequest {
    pub iotype: u32,
    pub reserved: u32,
    pub sector: u64,
}

} // verus!

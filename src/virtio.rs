//! A legacy MMIO virtio block device: its configuration registers and its disk.
use vstd::prelude::*;
use crate::exception::Exception;
use crate::param::{DESC_NUM, VIRTIO_DEVICE_FEATURES, VIRTIO_DEVICE_ID, VIRTIO_DRIVER_FEATURES,
    VIRTIO_GUEST_PAGE_SIZE, VIRTIO_MAGIC, VIRTIO_MAGIC_VALUE, VIRTIO_QUEUE_NOTIFY, VIRTIO_QUEUE_NUM,
    VIRTIO_QUEUE_NUM_MAX, VIRTIO_QUEUE_PFN, VIRTIO_QUEUE_SEL, VIRTIO_STATUS, VIRTIO_VENDOR_ID,
    VIRTIO_VENDOR_VALUE, VIRTIO_VERSION};

verus! {

/// The state of the block device.
pub struct VirtioModel {
    pub id: u64,
    pub driver_features: u32,
    pub page_size: u32,
    pub queue_sel: u32,
    pub queue_num: u32,
    pub queue_pfn: u32,
    pub queue_notify: u32,
    pub notified: bool,
    pub status: u32,
    pub disk: Seq<u8>,
}

impl VirtioModel {
    /// The device at power-on with disk contents `disk`: every register zero, nothing
    /// notified.
    pub open spec fn initial(disk: Seq<u8>) -> VirtioModel {
        VirtioModel {
            id: 0,
            driver_features: 0,
            page_size: 0,
            queue_sel: 0,
            queue_num: 0,
            queue_pfn: 0,
            queue_notify: 0,
            notified: false,
            status: 0,
            disk,
        }
    }

    /// A load of `size` bits at `addr`: only 32-bit loads are legal; unknown offsets
    /// read as zero.
    pub open spec fn load(self, addr: u64, size: u64) -> Result<u64, Exception> {
        if size != 32 {
            Err(Exception::LoadAccessFault(addr))
        } else if addr == VIRTIO_MAGIC {
            Ok(VIRTIO_MAGIC_VALUE)
        } else if addr == VIRTIO_VERSION {
            Ok(1)
        } else if addr == VIRTIO_DEVICE_ID {
            Ok(2)
        } else if addr == VIRTIO_VENDOR_ID {
            Ok(VIRTIO_VENDOR_VALUE)
        } else if addr == VIRTIO_DEVICE_FEATURES {
            Ok(0)
        } else if addr == VIRTIO_DRIVER_FEATURES {
            Ok(self.driver_features as u64)
        } else if addr == VIRTIO_QUEUE_NUM_MAX {
            Ok(DESC_NUM)
        } else if addr == VIRTIO_QUEUE_PFN {
            Ok(self.queue_pfn as u64)
        } else if addr == VIRTIO_STATUS {
            Ok(self.status as u64)
        } else {
            Ok(0)
        }
    }

    /// A store of `size` bits of `value` at `addr`: only 32-bit stores are legal; the low
    /// 32 bits are kept; a store to QUEUE_NOTIFY latches an interrupt; unknown offsets
    /// absorb the store.
    pub open spec fn store(self, addr: u64, size: u64, value: u64) -> (VirtioModel, Result<(), Exception>) {
        let v = value as u32;
        if size != 32 {
            (self, Err(Exception::StoreAMOAccessFault(addr)))
        } else if addr == VIRTIO_DEVICE_FEATURES {
            (VirtioModel { driver_features: v, ..self }, Ok(()))
        } else if addr == VIRTIO_GUEST_PAGE_SIZE {
            (VirtioModel { page_size: v, ..self }, Ok(()))
        } else if addr == VIRTIO_QUEUE_SEL {
            (VirtioModel { queue_sel: v, ..self }, Ok(()))
        } else if addr == VIRTIO_QUEUE_NUM {
            (VirtioModel { queue_num: v, ..self }, Ok(()))
        } else if addr == VIRTIO_QUEUE_PFN {
            (VirtioModel { queue_pfn: v, ..self }, Ok(()))
        } else if addr == VIRTIO_QUEUE_NOTIFY {
            (VirtioModel { queue_notify: v, notified: true, ..self }, Ok(()))
        } else if addr == VIRTIO_STATUS {
            (VirtioModel { status: v, ..self }, Ok(()))
        } else {
            (self, Ok(()))
        }
    }

    /// Guest-physical address of the descriptor table.
    pub open spec fn desc_addr(self) -> u64 {
        (self.queue_pfn as u64 * self.page_size as u64) as u64
    }
}

/// The block device.
pub struct Virtio {
    pub id: u64,
    pub driver_features: u32,
    pub page_size: u32,
    pub queue_sel: u32,
    pub queue_num: u32,
    pub queue_pfn: u32,
    pub queue_notify: u32,
    pub notified: bool,
    pub status: u32,
    pub disk: Vec<u8>,
}

impl View for Virtio {
    type V = VirtioModel;

    open spec fn view(&self) -> VirtioModel {
        VirtioModel {
            id: self.id,
            driver_features: self.driver_features,
            page_size: self.page_size,
            queue_sel: self.queue_sel,
            queue_num: self.queue_num,
            queue_pfn: self.queue_pfn,
            queue_notify: self.queue_notify,
            notified: self.notified,
            status: self.status,
            disk: self.disk@,
        }
    }
}

impl Virtio {
    /// A device whose disk holds `disk_image`, with every register zero and nothing
    /// notified.
    pub fn new(disk_image: Vec<u8>) -> (v: Virtio)
        ensures
            v@ == VirtioModel::initial(disk_image@),
    {
        Virtio {
            id: 0,
            driver_features: 0,
            page_size: 0,
            queue_sel: 0,
            queue_num: 0,
            queue_pfn: 0,
            queue_notify: 0,
            notified: false,
            status: 0,
            disk: disk_image,
        }
    }

    /// Whether the guest has notified the queue since the last call; the latch is
    /// cleared.
    pub fn is_interrupting(&mut self) -> (r: bool)
        ensures
            r == old(self).notified,
            final(self)@ == (VirtioModel { notified: false, ..old(self)@ }),
    {
        let r = self.notified;
        self.notified = false;
        r
    }

    pub fn load(&self, addr: u64, size: u64) -> (r: Result<u64, Exception>)
        ensures
            r == self@.load(addr, size),
    {
        if size != 32 {
            return Err(Exception::LoadAccessFault(addr));
        }
        if addr == VIRTIO_MAGIC {
            Ok(VIRTIO_MAGIC_VALUE)
        } else if addr == VIRTIO_VERSION {
            Ok(1)
        } else if addr == VIRTIO_DEVICE_ID {
            Ok(2)
        } else if addr == VIRTIO_VENDOR_ID {
            Ok(VIRTIO_VENDOR_VALUE)
        } else if addr == VIRTIO_DEVICE_FEATURES {
            Ok(0)
        } else if addr == VIRTIO_DRIVER_FEATURES {
            Ok(self.driver_features as u64)
        } else if addr == VIRTIO_QUEUE_NUM_MAX {
            Ok(DESC_NUM)
        } else if addr == VIRTIO_QUEUE_PFN {
            Ok(self.queue_pfn as u64)
        } else if addr == VIRTIO_STATUS {
            Ok(self.status as u64)
        } else {
            Ok(0)
        }
    }

    pub fn store(&mut self, addr: u64, size: u64, value: u64) -> (r: Result<(), Exception>)
        ensures
            (final(self)@, r) == old(self)@.store(addr, size, value),
    {
        if size != 32 {
            return Err(Exception::StoreAMOAccessFault(addr));
        }
        let v = value as u32;
        if addr == VIRTIO_DEVICE_FEATURES {
            self.driver_features = v;
        } else if addr == VIRTIO_GUEST_PAGE_SIZE {
            self.page_size = v;
        } else if addr == VIRTIO_QUEUE_SEL {
            self.queue_sel = v;
        } else if addr == VIRTIO_QUEUE_NUM {
            self.queue_num = v;
        } else if addr == VIRTIO_QUEUE_PFN {
            self.queue_pfn = v;
        } else if addr == VIRTIO_QUEUE_NOTIFY {
            self.queue_notify = v;
            self.notified = true;
        } else if addr == VIRTIO_STATUS {
            self.status = v;
        }
        Ok(())
    }

    /// Count one more serviced request and return the new count.
    pub fn get_new_id(&mut self) -> (r: u64)
        ensures
            r == old(self).id.wrapping_add(1),
            final(self)@ == (VirtioModel { id: r, ..old(self)@ }),
    {
        self.id = self.id.wrapping_add(1);
        self.id
    }

    /// Guest-physical address of the descriptor table: the queue's page number times
    /// the guest page size.
    pub fn desc_addr(&self) -> (r: u64)
        ensures
            r == self@.desc_addr(),
            r == self.queue_pfn as int * self.page_size as int,
            r <= 0xffff_fffe_0000_0001,
    {
        let pfn = self.queue_pfn as u64;
        let ps = self.page_size as u64;
        assert(pfn * ps <= 0xffff_ffff * 0xffff_ffff) by (nonlinear_arith)
            requires
                pfn <= 0xffff_ffff,
                ps <= 0xffff_ffff,
        ;
        pfn * ps
    }

    /// The disk byte at `addr`.
    pub fn read_disk(&self, addr: u64) -> (r: u8)
        requires
            addr < self.disk@.len(),
        ensures
            r == self.disk@[addr as int],
    {
        let n = self.disk.len();
        assert(addr < n);
        self.disk[addr as usize]
    }

    /// Set the disk byte at `addr`.
    pub fn write_disk(&mut self, addr: u64, value: u8)
        requires
            addr < old(self).disk@.len(),
        ensures
            final(self)@ == (VirtioModel {
                disk: old(self)@.disk.update(addr as int, value),
                ..old(self)@
            }),
    {
        let n = self.disk.len();
        assert(addr < n);
        self.disk.set(addr as usize, value);
    }
}

} // verus!

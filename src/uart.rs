//! A 16550-style serial port reduced to its registers. The host hands received bytes
//! in with `receive` and collects transmitted bytes with `take_output`.
use vstd::prelude::*;
use crate::exception::Exception;
use crate::param::{MASK_UART_LSR_RX, MASK_UART_LSR_TX, UART_BASE, UART_END, UART_LSR, UART_RHR,
    UART_SIZE, UART_THR};

verus! {

/// The state of the serial port: its register bytes, the interrupt latch, and the
/// bytes written to THR that the host has not collected yet.
pub struct UartModel {
    pub regs: Seq<u8>,
    pub interrupt: bool,
    pub output: Seq<u8>,
}

impl UartModel {
    /// The port at power-on: the transmitter empty, nothing received, nothing to send.
    pub open spec fn initial() -> UartModel {
        UartModel {
            regs: Seq::new(UART_SIZE as nat, |i: int| 0u8).update(UART_LSR as int, MASK_UART_LSR_TX),
            interrupt: false,
            output: Seq::empty(),
        }
    }

    /// Whether a received byte waits in RHR.
    pub open spec fn rx_ready(self) -> bool {
        self.regs[UART_LSR as int] & MASK_UART_LSR_RX != 0
    }

    /// A load of `size` bits at `addr`: only byte loads are legal, and reading RHR
    /// clears the RX-ready bit of LSR.
    pub open spec fn load(self, addr: u64, size: u64) -> (UartModel, Result<u64, Exception>) {
        if size != 8 {
            (self, Err(Exception::LoadAccessFault(addr)))
        } else if addr - UART_BASE == UART_RHR {
            (
                UartModel {
                    regs: self.regs.update(
                        UART_LSR as int,
                        self.regs[UART_LSR as int] & !MASK_UART_LSR_RX,
                    ),
                    ..self
                },
                Ok(self.regs[UART_RHR as int] as u64),
            )
        } else {
            (self, Ok(self.regs[addr - UART_BASE] as u64))
        }
    }

    /// A store of `size` bits of `value` at `addr`: only byte stores are legal; a store to
    /// THR transmits the byte, others set the register.
    pub open spec fn store(self, addr: u64, size: u64, value: u64) -> (UartModel, Result<(), Exception>) {
        if size != 8 {
            (self, Err(Exception::StoreAMOAccessFault(addr)))
        } else if addr - UART_BASE == UART_THR {
            (UartModel { output: self.output.push(value as u8), ..self }, Ok(()))
        } else {
            (UartModel { regs: self.regs.update(addr - UART_BASE, value as u8), ..self }, Ok(()))
        }
    }
}

/// The serial port.
pub struct Uart {
    pub regs: Vec<u8>,
    pub interrupt: bool,
    pub output: Vec<u8>,
}

impl View for Uart {
    type V = UartModel;

    open spec fn view(&self) -> UartModel {
        UartModel { regs: self.regs@, interrupt: self.interrupt, output: self.output@ }
    }
}

impl Uart {
    pub open spec fn wf(&self) -> bool {
        self.regs@.len() == UART_SIZE
    }

    /// A port with an empty transmitter, nothing received and nothing to send.
    pub fn new() -> (u: Uart)
        ensures
            u.wf(),
            u@ == UartModel::initial(),
    {
        let mut regs: Vec<u8> = vec![0u8; UART_SIZE as usize];
        regs.set(UART_LSR as usize, MASK_UART_LSR_TX);
        let u = Uart { regs, interrupt: false, output: Vec::new() };
        assert(u@.regs =~= UartModel::initial().regs);
        assert(u@.output =~= UartModel::initial().output);
        u
    }

    pub fn load(&mut self, addr: u64, size: u64) -> (r: Result<u64, Exception>)
        requires
            old(self).wf(),
            UART_BASE <= addr <= UART_END,
        ensures
            final(self).wf(),
            (final(self)@, r) == old(self)@.load(addr, size),
    {
        if size != 8 {
            return Err(Exception::LoadAccessFault(addr));
        }
        let index = addr - UART_BASE;
        if index == UART_RHR {
            let lsr = self.regs[UART_LSR as usize] & !MASK_UART_LSR_RX;
            self.regs.set(UART_LSR as usize, lsr);
            Ok(self.regs[UART_RHR as usize] as u64)
        } else {
            Ok(self.regs[index as usize] as u64)
        }
    }

    pub fn store(&mut self, addr: u64, size: u64, value: u64) -> (r: Result<(), Exception>)
        requires
            old(self).wf(),
            UART_BASE <= addr <= UART_END,
        ensures
            final(self).wf(),
            (final(self)@, r) == old(self)@.store(addr, size, value),
    {
        if size != 8 {
            return Err(Exception::StoreAMOAccessFault(addr));
        }
        let index = addr - UART_BASE;
        if index == UART_THR {
            self.output.push(value as u8);
        } else {
            self.regs.set(index as usize, value as u8);
        }
        Ok(())
    }

    /// Whether a received byte has raised an interrupt since the last call; the latch
    /// is cleared, so each received byte is reported once.
    pub fn is_interrupting(&mut self) -> (r: bool)
        ensures
            r == old(self).interrupt,
            final(self)@ == (UartModel { interrupt: false, ..old(self)@ }),
    {
        let r = self.interrupt;
        self.interrupt = false;
        r
    }

    /// Hand the port a byte from the host. It is taken, and `true` returned, only when the
    /// guest has read the previous one: then it waits in RHR, LSR shows it, and the
    /// interrupt latch is set.
    pub fn receive(&mut self, byte: u8) -> (r: bool)
        requires
            old(self).wf(),
        ensures
            final(self).wf(),
            r == !old(self)@.rx_ready(),
            r ==> final(self)@ == (UartModel {
                regs: old(self)@.regs.update(UART_RHR as int, byte).update(
                    UART_LSR as int,
                    old(self)@.regs[UART_LSR as int] | MASK_UART_LSR_RX,
                ),
                interrupt: true,
                output: old(self)@.output,
            }),
            !r ==> final(self)@ == old(self)@,
    {
        if self.regs[UART_LSR as usize] & MASK_UART_LSR_RX != 0 {
            return false;
        }
        let lsr = self.regs[UART_LSR as usize] | MASK_UART_LSR_RX;
        self.regs.set(UART_RHR as usize, byte);
        self.regs.set(UART_LSR as usize, lsr);
        self.interrupt = true;
        true
    }

    /// The bytes the guest has transmitted since the last call, oldest first.
    pub fn take_output(&mut self) -> (r: Vec<u8>)
        ensures
            r@ == old(self)@.output,
            final(self)@ == (UartModel { output: Seq::empty(), ..old(self)@ }),
            final(self).regs == old(self).regs,
    {
        let mut r: Vec<u8> = Vec::new();
        core::mem::swap(&mut r, &mut self.output);
        r
    }
}

} // verus!

use vstd::prelude::*;

use crate::registers::{
    valid_offset, word_of, CTRL, CTRL_RST, DCTL_ENABLE, DESCRIPTOR_BYTES, IMS, IMS_LSC, IMS_TXDW,
    IMS_TXQE, RA, RAH, RDBAH, RDBAL, RDH, RDLEN, RDT, RXDCTL, STATUS, STATUS_LU, TDBAH, TDBAL, TDH,
    TDLEN, TDT, TXDCTL, WINDOW_WORDS,
};
use crate::window::{after_read, after_write, read_value, RegisterWindow, WindowModel};

verus! {

/// Why a driver operation did not complete.
#[derive(Debug, Clone, Copy, PartialEq, Eq, Structural)]
pub enum DriverError {
    /// The handle is not bound to a device, or was released.
    InvalidHandle,
    /// The device did not finish its reset within the allowed polls.
    HardwareUnresponsive,
    /// A ring configuration cannot be programmed.
    InvalidArgument,
}

/// A descriptor ring: its DMA base address and its number of descriptors.
#[derive(Debug, Clone, Copy, PartialEq, Eq, Structural)]
pub struct RingConfig {
    pub base: u64,
    pub descriptors: u32,
}

/// A ring can be programmed: it has a descriptor, and its byte length fits a register.
pub open spec fn ring_ok(ring: RingConfig) -> bool {
    1 <= ring.descriptors && ring.descriptors as int * DESCRIPTOR_BYTES as int <= u32::MAX
}

/// The low 32 bits of a ring's base address.
pub open spec fn low_word(a: u64) -> u32 {
    (a % 0x1_0000_0000) as u32
}

/// The high 32 bits of a ring's base address.
pub open spec fn high_word(a: u64) -> u32 {
    (a / 0x1_0000_0000) as u32
}

/// The station address held by RA and RAH: four bytes of RA, least significant
/// first, then the two low bytes of RAH.
pub open spec fn mac_bytes(ra: u32, rah: u32) -> Seq<u8> {
    seq![
        (ra & 0xff) as u8,
        ((ra >> 8u32) & 0xff) as u8,
        ((ra >> 16u32) & 0xff) as u8,
        ((ra >> 24u32) & 0xff) as u8,
        (rah & 0xff) as u8,
        ((rah >> 8u32) & 0xff) as u8,
    ]
}

/// Link up is bit 1 of STATUS.
pub open spec fn link_bit(status: u32) -> bool {
    (status >> 1u32) & 1 == 1
}

/// The interrupt causes that bring-up enables.
pub open spec fn interrupt_mask() -> u32 {
    IMS_TXDW | IMS_TXQE | IMS_LSC
}

/// The value of the register at `offset`.
pub open spec fn reg(m: WindowModel, offset: u32) -> u32 {
    m.regs[word_of(offset)]
}

/// `m` with the register at `offset` set to `v`, and nothing else changed.
pub open spec fn set_reg(m: WindowModel, offset: u32, v: u32) -> WindowModel {
    WindowModel { regs: m.regs.update(word_of(offset), v), ..m }
}

/// Outcome of a reset allowed `max_polls` reads of CTRL: it completes when the
/// device clears the reset bit within them.
pub open spec fn reset_result(m: WindowModel, max_polls: u32) -> Result<(), DriverError> {
    if m.base == 0 {
        Err(DriverError::InvalidHandle)
    } else {
        match m.reset_delay {
            Some(d) => if d < max_polls {
                Ok(())
            } else {
                Err(DriverError::HardwareUnresponsive)
            },
            None => Err(DriverError::HardwareUnresponsive),
        }
    }
}

/// The window after a reset: CTRL holds its old value with the reset bit
/// cleared by the device, or still set where the device did not finish.
pub open spec fn reset_window(m: WindowModel, max_polls: u32) -> WindowModel {
    if m.base == 0 {
        m
    } else {
        match m.reset_delay {
            Some(d) => if d < max_polls {
                WindowModel { countdown: None, ..set_reg(m, CTRL, reg(m, CTRL) & !CTRL_RST) }
            } else {
                WindowModel {
                    countdown: Some((d - max_polls) as u32),
                    ..set_reg(m, CTRL, reg(m, CTRL) | CTRL_RST)
                }
            },
            None => WindowModel { countdown: None, ..set_reg(m, CTRL, reg(m, CTRL) | CTRL_RST) },
        }
    }
}

/// The window after the receive ring is programmed and receive is enabled.
pub open spec fn receive_window(m: WindowModel, ring: RingConfig) -> WindowModel {
    let m1 = set_reg(m, RDBAL, low_word(ring.base));
    let m2 = set_reg(m1, RDBAH, high_word(ring.base));
    let m3 = set_reg(m2, RDLEN, (ring.descriptors * DESCRIPTOR_BYTES) as u32);
    let m4 = set_reg(m3, RDH, 0);
    let m5 = set_reg(m4, RDT, (ring.descriptors - 1) as u32);
    set_reg(m5, RXDCTL, reg(m, RXDCTL) | DCTL_ENABLE)
}

/// The window after the transmit ring is programmed and transmit is enabled.
pub open spec fn transmit_window(m: WindowModel, ring: RingConfig) -> WindowModel {
    let m1 = set_reg(m, TDBAL, low_word(ring.base));
    let m2 = set_reg(m1, TDBAH, high_word(ring.base));
    let m3 = set_reg(m2, TDLEN, (ring.descriptors * DESCRIPTOR_BYTES) as u32);
    let m4 = set_reg(m3, TDH, 0);
    let m5 = set_reg(m4, TDT, 0);
    set_reg(m5, TXDCTL, reg(m, TXDCTL) | DCTL_ENABLE)
}

/// Outcome of programming a ring on window `m`.
pub open spec fn ring_result(m: WindowModel, ring: RingConfig) -> Result<(), DriverError> {
    if m.base == 0 {
        Err(DriverError::InvalidHandle)
    } else if !ring_ok(ring) {
        Err(DriverError::InvalidArgument)
    } else {
        Ok(())
    }
}

/// A stage of device bring-up, in the order in which bring-up runs them.
#[derive(Debug, Clone, Copy, PartialEq, Eq, Structural)]
pub enum Stage {
    Reset,
    ReadMac,
    InitReceive,
    InitTransmit,
    EnableInterrupts,
}

/// The stage at which bring-up stopped, and why.
#[derive(Debug, Clone, Copy, PartialEq, Eq, Structural)]
pub struct BringupFailure {
    pub stage: Stage,
    pub error: DriverError,
}

/// What bring-up is given: the two descriptor rings and the reset poll bound.
#[derive(Debug, Clone, Copy, PartialEq, Eq, Structural)]
pub struct BringupConfig {
    pub rx_ring: RingConfig,
    pub tx_ring: RingConfig,
    pub max_reset_polls: u32,
}

/// Outcome of a full bring-up of window `m`: the first stage that fails, if any.
pub open spec fn bringup_result(m: WindowModel, cfg: BringupConfig) -> Result<(), BringupFailure> {
    let reset = reset_result(m, cfg.max_reset_polls);
    if reset is Err {
        Err(BringupFailure { stage: Stage::Reset, error: reset->Err_0 })
    } else if !ring_ok(cfg.rx_ring) {
        Err(BringupFailure { stage: Stage::InitReceive, error: DriverError::InvalidArgument })
    } else if !ring_ok(cfg.tx_ring) {
        Err(BringupFailure { stage: Stage::InitTransmit, error: DriverError::InvalidArgument })
    } else {
        Ok(())
    }
}

/// The window after a full bring-up of `m`, up to the stage that fails.
pub open spec fn bringup_window(m: WindowModel, cfg: BringupConfig) -> WindowModel {
    let m1 = reset_window(m, cfg.max_reset_polls);
    if reset_result(m, cfg.max_reset_polls) is Err || !ring_ok(cfg.rx_ring) {
        m1
    } else if !ring_ok(cfg.tx_ring) {
        receive_window(m1, cfg.rx_ring)
    } else {
        set_reg(
            transmit_window(receive_window(m1, cfg.rx_ring), cfg.tx_ring),
            IMS,
            interrupt_mask(),
        )
    }
}

/// Driver state for one device: its register window and what was last read from it.
pub struct I210Driver {
    pub regs: RegisterWindow,
    pub mac_addr: [u8; 6],
    pub link_up: bool,
}

impl I210Driver {
    /// The register window is well formed.
    pub open spec fn wf(&self) -> bool {
        self.regs.wf()
    }

    /// A driver for the device behind `regs`; nothing is read or written yet.
    pub fn new(regs: RegisterWindow) -> (d: Self)
        requires
            regs.wf(),
        ensures
            d.wf(),
            d.regs@ == regs@,
            d.mac_addr@ == seq![0u8, 0, 0, 0, 0, 0],
            !d.link_up,
    {
        I210Driver { regs, mac_addr: [0u8; 6], link_up: false }
    }

    /// Resets the device: sets the reset bit in CTRL, then reads CTRL at most
    /// `max_polls` times until the device has cleared it.
    pub fn reset(&mut self, max_polls: u32) -> (r: Result<(), DriverError>)
        requires
            old(self).wf(),
        ensures
            final(self).wf(),
            r == reset_result(old(self).regs@, max_polls),
            final(self).regs@ == reset_window(old(self).regs@, max_polls),
            final(self).mac_addr == old(self).mac_addr,
            final(self).link_up == old(self).link_up,
    {
        if self.regs.base_addr() == 0 {
            return Err(DriverError::InvalidHandle);
        }
        let ghost m0 = self.regs@;
        let ctrl = self.regs.read32(CTRL);
        let request = ctrl | CTRL_RST;
        self.regs.write32(CTRL, request);
        proof {
            let x = m0.regs[0];
            assert((x & !CTRL_RST) | CTRL_RST == x | CTRL_RST) by (bit_vector);
            assert(((x | CTRL_RST) & !CTRL_RST) == x & !CTRL_RST) by (bit_vector);
            assert((x | CTRL_RST) & CTRL_RST != 0) by (bit_vector);
            assert(self.regs@.regs =~= m0.regs.update(0, x | CTRL_RST));
        }
        let mut polls: u32 = 0;
        while polls < max_polls
            invariant
                self.wf(),
                polls <= max_polls,
                self.regs@.base == m0.base,
                self.regs@.reset_delay == m0.reset_delay,
                self.regs@.regs == m0.regs.update(0, m0.regs[0] | CTRL_RST),
                match m0.reset_delay {
                    Some(d) => polls <= d && self.regs@.countdown == Some((d - polls) as u32),
                    None => self.regs@.countdown is None,
                },
                self.mac_addr == old(self).mac_addr,
                self.link_up == old(self).link_up,
                m0 == old(self).regs@,
                m0.regs.len() == WINDOW_WORDS,
                m0.base != 0,
            decreases max_polls - polls,
        {
            let ghost before = self.regs@;
            proof {
                let x = m0.regs[0];
                assert(((x | CTRL_RST) & CTRL_RST) != 0) by (bit_vector);
            }
            let now = self.regs.read32(CTRL);
            proof {
                let x = m0.regs[0];
                assert(before.regs[0] == x | CTRL_RST);
                if before.countdown != Some(0u32) {
                    assert(now == x | CTRL_RST);
                }
            }
            if now & CTRL_RST == 0 {
                proof {
                    let x = m0.regs[0];
                    assert(before.countdown == Some(0u32));
                    assert(((x | CTRL_RST) & !CTRL_RST) == x & !CTRL_RST) by (bit_vector);
                    assert(self.regs@.regs =~= m0.regs.update(0, x & !CTRL_RST));
                }
                return Ok(());
            }
            polls = polls + 1;
            proof {
                let x = m0.regs[0];
                assert(((x | CTRL_RST) & !CTRL_RST) & CTRL_RST == 0) by (bit_vector);
            }
        }
        Err(DriverError::HardwareUnresponsive)
    }

    /// Brings the device up: reset, station address, receive ring, transmit
    /// ring, interrupts, in that order, stopping at the first stage that fails.
    pub fn init(&mut self, cfg: BringupConfig) -> (r: Result<(), BringupFailure>)
        requires
            old(self).wf(),
        ensures
            final(self).wf(),
            r == bringup_result(old(self).regs@, cfg),
            final(self).regs@ == bringup_window(old(self).regs@, cfg),
            reset_result(old(self).regs@, cfg.max_reset_polls) is Ok ==> final(self).mac_addr@
                == mac_bytes(reg(old(self).regs@, RA), reg(old(self).regs@, RAH)),
            reset_result(old(self).regs@, cfg.max_reset_polls) is Err ==> final(self).mac_addr
                == old(self).mac_addr,
            final(self).link_up == old(self).link_up,
    {
        match self.reset(cfg.max_reset_polls) {
            Ok(()) => {},
            Err(e) => {
                return Err(BringupFailure { stage: Stage::Reset, error: e });
            },
        }
        match self.read_mac_address() {
            Ok(_) => {},
            Err(e) => {
                return Err(BringupFailure { stage: Stage::ReadMac, error: e });
            },
        }
        match self.init_receive(cfg.rx_ring) {
            Ok(()) => {},
            Err(e) => {
                return Err(BringupFailure { stage: Stage::InitReceive, error: e });
            },
        }
        match self.init_transmit(cfg.tx_ring) {
            Ok(()) => {},
            Err(e) => {
                return Err(BringupFailure { stage: Stage::InitTransmit, error: e });
            },
        }
        match self.enable_interrupts() {
            Ok(()) => {},
            Err(e) => {
                return Err(BringupFailure { stage: Stage::EnableInterrupts, error: e });
            },
        }
        Ok(())
    }

    /// Reads the station address from RA and RAH and keeps it in `mac_addr`.
    pub fn read_mac_address(&mut self) -> (r: Result<[u8; 6], DriverError>)
        requires
            old(self).wf(),
        ensures
            final(self).wf(),
            final(self).regs@ == old(self).regs@,
            final(self).link_up == old(self).link_up,
            old(self).regs@.base == 0 ==> r == Err::<[u8; 6], DriverError>(
                DriverError::InvalidHandle,
            ) && final(self).mac_addr == old(self).mac_addr,
            old(self).regs@.base != 0 ==> r is Ok && r->Ok_0 == final(self).mac_addr
                && final(self).mac_addr@ == mac_bytes(
                reg(old(self).regs@, RA),
                reg(old(self).regs@, RAH),
            ),
    {
        if self.regs.base_addr() == 0 {
            return Err(DriverError::InvalidHandle);
        }
        let ra = self.regs.read32(RA);
        let rah = self.regs.read32(RAH);
        assert((ra & 0xff) <= 0xff && ((ra >> 8u32) & 0xff) <= 0xff && ((ra >> 16u32) & 0xff)
            <= 0xff && ((ra >> 24u32) & 0xff) <= 0xff) by (bit_vector);
        assert((rah & 0xff) <= 0xff && ((rah >> 8u32) & 0xff) <= 0xff) by (bit_vector);
        let mac: [u8; 6] = [
            (ra & 0xff) as u8,
            ((ra >> 8u32) & 0xff) as u8,
            ((ra >> 16u32) & 0xff) as u8,
            ((ra >> 24u32) & 0xff) as u8,
            (rah & 0xff) as u8,
            ((rah >> 8u32) & 0xff) as u8,
        ];
        self.mac_addr = mac;
        assert(self.mac_addr@ =~= mac_bytes(ra, rah));
        Ok(mac)
    }

    /// Programs the receive ring (base, byte length, head 0, tail one behind the
    /// head) and then enables receive.
    pub fn init_receive(&mut self, ring: RingConfig) -> (r: Result<(), DriverError>)
        requires
            old(self).wf(),
        ensures
            final(self).wf(),
            r == ring_result(old(self).regs@, ring),
            r is Ok ==> final(self).regs@ == receive_window(old(self).regs@, ring),
            r is Err ==> final(self).regs@ == old(self).regs@,
            final(self).mac_addr == old(self).mac_addr,
            final(self).link_up == old(self).link_up,
    {
        if self.regs.base_addr() == 0 {
            return Err(DriverError::InvalidHandle);
        }
        if ring.descriptors == 0 || ring.descriptors > u32::MAX / DESCRIPTOR_BYTES {
            return Err(DriverError::InvalidArgument);
        }
        let ghost m = self.regs@;
        self.regs.write32(RDBAL, (ring.base % 0x1_0000_0000) as u32);
        self.regs.write32(RDBAH, (ring.base / 0x1_0000_0000) as u32);
        self.regs.write32(RDLEN, ring.descriptors * DESCRIPTOR_BYTES);
        self.regs.write32(RDH, 0);
        self.regs.write32(RDT, ring.descriptors - 1);
        let rxdctl = self.regs.read32(RXDCTL);
        self.regs.write32(RXDCTL, rxdctl | DCTL_ENABLE);
        assert(self.regs@ == receive_window(m, ring));
        Ok(())
    }

    /// Programs the transmit ring (base, byte length, head and tail 0: empty)
    /// and then enables transmit.
    pub fn init_transmit(&mut self, ring: RingConfig) -> (r: Result<(), DriverError>)
        requires
            old(self).wf(),
        ensures
            final(self).wf(),
            r == ring_result(old(self).regs@, ring),
            r is Ok ==> final(self).regs@ == transmit_window(old(self).regs@, ring),
            r is Err ==> final(self).regs@ == old(self).regs@,
            final(self).mac_addr == old(self).mac_addr,
            final(self).link_up == old(self).link_up,
    {
        if self.regs.base_addr() == 0 {
            return Err(DriverError::InvalidHandle);
        }
        if ring.descriptors == 0 || ring.descriptors > u32::MAX / DESCRIPTOR_BYTES {
            return Err(DriverError::InvalidArgument);
        }
        let ghost m = self.regs@;
        self.regs.write32(TDBAL, (ring.base % 0x1_0000_0000) as u32);
        self.regs.write32(TDBAH, (ring.base / 0x1_0000_0000) as u32);
        self.regs.write32(TDLEN, ring.descriptors * DESCRIPTOR_BYTES);
        self.regs.write32(TDH, 0);
        self.regs.write32(TDT, 0);
        let txdctl = self.regs.read32(TXDCTL);
        self.regs.write32(TXDCTL, txdctl | DCTL_ENABLE);
        assert(self.regs@ == transmit_window(m, ring));
        Ok(())
    }

    /// Link state. With `refresh` STATUS is read and the cached state updated;
    /// without it the state cached by the last such read is returned.
    pub fn check_link_status(&mut self, refresh: bool) -> (r: Result<bool, DriverError>)
        requires
            old(self).wf(),
        ensures
            final(self).wf(),
            final(self).regs@ == old(self).regs@,
            final(self).mac_addr == old(self).mac_addr,
            old(self).regs@.base == 0 ==> r == Err::<bool, DriverError>(DriverError::InvalidHandle)
                && final(self).link_up == old(self).link_up,
            old(self).regs@.base != 0 && refresh ==> r == Ok::<bool, DriverError>(
                link_bit(reg(old(self).regs@, STATUS)),
            ) && final(self).link_up == link_bit(reg(old(self).regs@, STATUS)),
            old(self).regs@.base != 0 && !refresh ==> r == Ok::<bool, DriverError>(
                old(self).link_up,
            ) && final(self).link_up == old(self).link_up,
    {
        if self.regs.base_addr() == 0 {
            return Err(DriverError::InvalidHandle);
        }
        if refresh {
            let status = self.regs.read32(STATUS);
            assert((status & STATUS_LU != 0) == ((status >> 1u32) & 1 == 1)) by (bit_vector)
                requires
                    STATUS_LU == 2u32,
            ;
            self.link_up = status & STATUS_LU != 0;
        }
        Ok(self.link_up)
    }

    /// Unmasks exactly the transmit-descriptor-written, transmit-queue-empty and
    /// link-status-change interrupts.
    pub fn enable_interrupts(&mut self) -> (r: Result<(), DriverError>)
        requires
            old(self).wf(),
        ensures
            final(self).wf(),
            old(self).regs@.base == 0 ==> r == Err::<(), DriverError>(DriverError::InvalidHandle)
                && final(self).regs@ == old(self).regs@,
            old(self).regs@.base != 0 ==> r is Ok && final(self).regs@ == set_reg(
                old(self).regs@,
                IMS,
                interrupt_mask(),
            ),
            final(self).mac_addr == old(self).mac_addr,
            final(self).link_up == old(self).link_up,
    {
        if self.regs.base_addr() == 0 {
            return Err(DriverError::InvalidHandle);
        }
        self.regs.write32(IMS, IMS_TXDW | IMS_TXQE | IMS_LSC);
        Ok(())
    }

    /// Reads the register at `offset` of this device.
    pub fn read_reg(&mut self, offset: u32) -> (r: u32)
        requires
            old(self).wf(),
            valid_offset(offset),
        ensures
            final(self).wf(),
            r == read_value(old(self).regs@, offset),
            final(self).regs@ == after_read(old(self).regs@, offset),
            final(self).mac_addr == old(self).mac_addr,
            final(self).link_up == old(self).link_up,
    {
        self.regs.read32(offset)
    }

    /// Writes `value` to the register at `offset` of this device.
    pub fn write_reg(&mut self, offset: u32, value: u32)
        requires
            old(self).wf(),
            valid_offset(offset),
        ensures
            final(self).wf(),
            final(self).regs@ == after_write(old(self).regs@, offset, value),
            final(self).mac_addr == old(self).mac_addr,
            final(self).link_up == old(self).link_up,
    {
        self.regs.write32(offset, value)
    }
}

} // verus!

verus! {

/// A reset allowed `max_polls` reads of CTRL completes exactly when the device
/// clears the reset bit within that many reads; it then leaves the bit clear.
/// A device that never clears it gives a timeout, with the bit still set.
pub proof fn lemma_reset_completes_or_times_out(m: WindowModel, max_polls: u32)
    requires
        m.base != 0,
        m.regs.len() == WINDOW_WORDS,
    ensures
        reset_result(m, max_polls) is Ok <==> (m.reset_delay is Some && m.reset_delay->Some_0
            < max_polls),
        reset_result(m, max_polls) is Ok ==> reg(reset_window(m, max_polls), CTRL) & CTRL_RST
            == 0,
        reset_result(m, max_polls) is Err ==> reset_result(m, max_polls) == Err::<(), DriverError>(
            DriverError::HardwareUnresponsive,
        ) && reg(reset_window(m, max_polls), CTRL) & CTRL_RST != 0,
{
    let x = reg(m, CTRL);
    assert((x & !CTRL_RST) & CTRL_RST == 0) by (bit_vector);
    assert((x | CTRL_RST) & CTRL_RST != 0) by (bit_vector);
}

/// Programming a ring sets the receive head to 0 and the receive tail one
/// below the ring size; for transmit it sets head and tail both to 0.
pub proof fn lemma_ring_indices(m: WindowModel, ring: RingConfig)
    requires
        m.regs.len() == WINDOW_WORDS,
        ring_ok(ring),
    ensures
        reg(receive_window(m, ring), RDH) == 0,
        reg(receive_window(m, ring), RDT) == ring.descriptors - 1,
        reg(transmit_window(m, ring), TDH) == 0,
        reg(transmit_window(m, ring), TDT) == 0,
{
}

/// Bit `i` of the interrupt mask that bring-up writes to IMS is set exactly for
/// bits 0 (transmit descriptor written), 1 (transmit queue empty) and
/// 2 (link status change).
pub proof fn lemma_interrupt_mask_bits(i: u32)
    requires
        i < 32,
    ensures
        (interrupt_mask() >> i) & 1 == 1 <==> i < 3,
{
    let mask = interrupt_mask();
    let (a, b, c) = (IMS_TXDW, IMS_TXQE, IMS_LSC);
    assert(a | b | c == 7u32) by (bit_vector)
        requires
            a == 1u32,
            b == 2u32,
            c == 4u32,
    ;
    assert(mask == 7u32 ==> ((mask >> i) & 1 == 1 <==> i < 3)) by (bit_vector)
        requires
            i < 32,
    ;
}

} // verus!

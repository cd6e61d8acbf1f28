use i210::driver::{BringupConfig, BringupFailure, DriverError, I210Driver, RingConfig, Stage};
use i210::registers;
use i210::window::RegisterWindow;

fn driver_with(base: u64, reset_delay: Option<u32>) -> I210Driver {
    I210Driver::new(RegisterWindow::new(base, reset_delay))
}

fn ring(base: u64, descriptors: u32) -> RingConfig {
    RingConfig { base, descriptors }
}

#[test]
fn new_driver_starts_blank() {
    let d = driver_with(0x1000, None);
    assert_eq!(d.mac_addr, [0u8; 6]);
    assert!(!d.link_up);
}

#[test]
fn reset_completes_within_polls() {
    let mut d = driver_with(0x1000, Some(3));
    d.regs.write32(registers::CTRL, 0x0000_0241);
    assert_eq!(d.reset(10), Ok(()));
    assert_eq!(d.regs.read32(registers::CTRL), 0x0000_0241);
}

#[test]
fn reset_completes_on_last_allowed_poll() {
    let mut d = driver_with(0x1000, Some(4));
    assert_eq!(d.reset(5), Ok(()));
    assert_eq!(d.regs.read32(registers::CTRL) & registers::CTRL_RST, 0);
}

#[test]
fn reset_times_out_one_poll_short() {
    let mut d = driver_with(0x1000, Some(5));
    assert_eq!(d.reset(5), Err(DriverError::HardwareUnresponsive));
}

#[test]
fn reset_times_out_on_device_that_never_clears() {
    let mut d = driver_with(0x1000, None);
    d.regs.write32(registers::CTRL, 0x41);
    assert_eq!(d.reset(1000), Err(DriverError::HardwareUnresponsive));
    assert_eq!(d.regs.read32(registers::CTRL), 0x41 | registers::CTRL_RST);
}

#[test]
fn reset_with_zero_polls_times_out() {
    let mut d = driver_with(0x1000, Some(0));
    assert_eq!(d.reset(0), Err(DriverError::HardwareUnresponsive));
}

#[test]
fn reset_is_repeatable() {
    let mut d = driver_with(0x1000, Some(1));
    assert_eq!(d.reset(3), Ok(()));
    assert_eq!(d.reset(3), Ok(()));
    assert_eq!(d.regs.read32(registers::CTRL), 0);
}

#[test]
fn reset_unbound_is_invalid_handle() {
    let mut d = driver_with(0, Some(0));
    assert_eq!(d.reset(3), Err(DriverError::InvalidHandle));
}

#[test]
fn read_mac_unpacks_little_endian() {
    let mut d = driver_with(0x1000, None);
    d.regs.write32(registers::RA, 0xAABBCCDD);
    d.regs.write32(registers::RAH, 0x0000EEFF);
    assert_eq!(d.read_mac_address(), Ok([0xDD, 0xCC, 0xBB, 0xAA, 0xFF, 0xEE]));
    assert_eq!(d.mac_addr, [0xDD, 0xCC, 0xBB, 0xAA, 0xFF, 0xEE]);
}

#[test]
fn read_mac_ignores_upper_rah_bits() {
    let mut d = driver_with(0x1000, None);
    d.regs.write32(registers::RA, 0x5634_1200);
    d.regs.write32(registers::RAH, 0x8000_9A78);
    assert_eq!(d.read_mac_address(), Ok([0x00, 0x12, 0x34, 0x56, 0x78, 0x9A]));
}

#[test]
fn read_mac_unbound_is_invalid_handle() {
    let mut d = driver_with(0, None);
    assert_eq!(d.read_mac_address(), Err(DriverError::InvalidHandle));
    assert_eq!(d.mac_addr, [0u8; 6]);
}

#[test]
fn init_receive_programs_ring() {
    for n in [1u32, 2, 8, 256, 4096] {
        let mut d = driver_with(0x1000, None);
        d.regs.write32(registers::RXDCTL, 0x0001_0000);
        assert_eq!(d.init_receive(ring(0x0000_0012_3456_7800, n)), Ok(()));
        assert_eq!(d.regs.read32(registers::RDBAL), 0x3456_7800);
        assert_eq!(d.regs.read32(registers::RDBAH), 0x12);
        assert_eq!(d.regs.read32(registers::RDLEN), n * 16);
        assert_eq!(d.regs.read32(registers::RDH), 0);
        assert_eq!(d.regs.read32(registers::RDT), n - 1);
        assert_eq!(d.regs.read32(registers::RXDCTL), 0x0001_0000 | registers::DCTL_ENABLE);
    }
}

#[test]
fn init_receive_rejects_bad_rings() {
    let mut d = driver_with(0x1000, None);
    assert_eq!(d.init_receive(ring(0, 0)), Err(DriverError::InvalidArgument));
    assert_eq!(d.init_receive(ring(0, 0x1000_0000)), Err(DriverError::InvalidArgument));
    assert_eq!(d.regs.read32(registers::RXDCTL), 0);
    assert_eq!(d.init_receive(ring(0, 0x0FFF_FFFF)), Ok(()));
    assert_eq!(d.regs.read32(registers::RDLEN), 0xFFFF_FFF0);
    let mut u = driver_with(0, None);
    assert_eq!(u.init_receive(ring(0, 8)), Err(DriverError::InvalidHandle));
}

#[test]
fn init_transmit_programs_empty_ring() {
    let mut d = driver_with(0x1000, None);
    d.regs.write32(registers::TDH, 3);
    d.regs.write32(registers::TDT, 4);
    assert_eq!(d.init_transmit(ring(0xABCD_0000_0000_1000, 8)), Ok(()));
    assert_eq!(d.regs.read32(registers::TDBAL), 0x1000);
    assert_eq!(d.regs.read32(registers::TDBAH), 0xABCD_0000);
    assert_eq!(d.regs.read32(registers::TDLEN), 128);
    assert_eq!(d.regs.read32(registers::TDH), 0);
    assert_eq!(d.regs.read32(registers::TDT), 0);
    assert_eq!(d.regs.read32(registers::TXDCTL), registers::DCTL_ENABLE);
    assert_eq!(d.init_transmit(ring(0, 0)), Err(DriverError::InvalidArgument));
}

#[test]
fn enable_interrupts_sets_exactly_three_bits() {
    let mut d = driver_with(0x1000, None);
    assert_eq!(d.enable_interrupts(), Ok(()));
    let ims = d.regs.read32(registers::IMS);
    assert_eq!(ims, 0b111);
    for bit in 0..32u32 {
        assert_eq!((ims >> bit) & 1 == 1, bit < 3);
    }
    let mut u = driver_with(0, None);
    assert_eq!(u.enable_interrupts(), Err(DriverError::InvalidHandle));
}

#[test]
fn check_link_follows_status_bit_one() {
    let mut d = driver_with(0x1000, None);
    let mut samples: Vec<u32> = (0..0x1_0000u32).collect();
    samples.extend([0xFFFF_FFFF, 0xFFFF_FFFD, 0x8000_0002, 0x8000_0000, 0x0001_0002]);
    for status in samples {
        d.regs.write32(registers::STATUS, status);
        assert_eq!(d.check_link_status(true), Ok(status & 2 != 0));
        assert_eq!(d.link_up, status & 2 != 0);
    }
}

#[test]
fn check_link_cached_keeps_last_read() {
    let mut d = driver_with(0x1000, None);
    d.regs.write32(registers::STATUS, 2);
    assert_eq!(d.check_link_status(true), Ok(true));
    d.regs.write32(registers::STATUS, 0);
    assert_eq!(d.check_link_status(false), Ok(true));
    assert_eq!(d.check_link_status(true), Ok(false));
    let mut u = driver_with(0, None);
    assert_eq!(u.check_link_status(true), Err(DriverError::InvalidHandle));
}

fn config(rx: u32, tx: u32, polls: u32) -> BringupConfig {
    BringupConfig {
        rx_ring: ring(0x10_0000, rx),
        tx_ring: ring(0x20_0000, tx),
        max_reset_polls: polls,
    }
}

#[test]
fn init_runs_every_stage() {
    let mut d = driver_with(0x1000, Some(2));
    d.regs.write32(registers::RA, 0x0403_0201);
    d.regs.write32(registers::RAH, 0x0000_0605);
    assert_eq!(d.init(config(8, 8, 10)), Ok(()));
    assert_eq!(d.mac_addr, [1, 2, 3, 4, 5, 6]);
    assert_eq!(d.regs.read32(registers::CTRL) & registers::CTRL_RST, 0);
    assert_eq!(d.regs.read32(registers::RDBAL), 0x10_0000);
    assert_eq!(d.regs.read32(registers::RDT), 7);
    assert_eq!(d.regs.read32(registers::TDBAL), 0x20_0000);
    assert_eq!(d.regs.read32(registers::TDT), 0);
    assert_eq!(d.regs.read32(registers::IMS), 0b111);
}

#[test]
fn init_stops_at_reset_timeout() {
    let mut d = driver_with(0x1000, None);
    d.regs.write32(registers::RA, 0x0403_0201);
    assert_eq!(
        d.init(config(8, 8, 10)),
        Err(BringupFailure { stage: Stage::Reset, error: DriverError::HardwareUnresponsive })
    );
    assert_eq!(d.mac_addr, [0u8; 6]);
    assert_eq!(d.regs.read32(registers::IMS), 0);
}

#[test]
fn init_stops_at_bad_receive_ring() {
    let mut d = driver_with(0x1000, Some(0));
    d.regs.write32(registers::RA, 0x0403_0201);
    assert_eq!(
        d.init(config(0, 8, 1)),
        Err(BringupFailure { stage: Stage::InitReceive, error: DriverError::InvalidArgument })
    );
    assert_eq!(d.mac_addr, [1, 2, 3, 4, 0, 0]);
    assert_eq!(d.regs.read32(registers::TDLEN), 0);
}

#[test]
fn init_stops_at_bad_transmit_ring() {
    let mut d = driver_with(0x1000, Some(0));
    assert_eq!(
        d.init(config(4, 0, 1)),
        Err(BringupFailure { stage: Stage::InitTransmit, error: DriverError::InvalidArgument })
    );
    assert_eq!(d.regs.read32(registers::RDT), 3);
    assert_eq!(d.regs.read32(registers::IMS), 0);
}

#[test]
fn init_unbound_is_invalid_handle() {
    let mut d = driver_with(0, Some(0));
    assert_eq!(
        d.init(config(4, 4, 1)),
        Err(BringupFailure { stage: Stage::Reset, error: DriverError::InvalidHandle })
    );
}

#[test]
fn two_drivers_do_not_share_registers() {
    let mut a = driver_with(0x1000, None);
    let mut b = driver_with(0x2000, None);
    a.regs.write32(registers::STATUS, 2);
    assert_eq!(a.init_receive(ring(0, 8)), Ok(()));
    assert_eq!(b.check_link_status(true), Ok(false));
    assert_eq!(b.regs.read32(registers::RDT), 0);
    assert_eq!(a.check_link_status(true), Ok(true));
}

#[test]
fn read_reg_and_write_reg_reach_the_window() {
    let mut d = driver_with(0x1000, None);
    d.write_reg(registers::LEDCTL, 0x0707_0F0F);
    assert_eq!(d.read_reg(registers::LEDCTL), 0x0707_0F0F);
    assert_eq!(d.regs.read32(registers::LEDCTL), 0x0707_0F0F);
    assert_eq!(d.read_reg(registers::ICR), 0);
}

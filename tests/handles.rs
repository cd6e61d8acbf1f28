use i210::driver::{BringupConfig, BringupFailure, DriverError, RingConfig, Stage};
use i210::handles::{
    i210_bringup, i210_check_link, i210_enable_rx, i210_enable_tx, i210_init, i210_read_mac,
    i210_release, i210_reset, DeviceTable,
};
use i210::registers;
use i210::window::RegisterWindow;

fn window(base: u64, status: u32, ra: u32, rah: u32) -> RegisterWindow {
    let mut w = RegisterWindow::new(base, Some(1));
    w.write32(registers::STATUS, status);
    w.write32(registers::RA, ra);
    w.write32(registers::RAH, rah);
    w
}

#[test]
fn handles_are_issued_in_order() {
    let mut t = DeviceTable::new();
    assert_eq!(i210_init(&mut t, window(0x1000, 0, 0, 0)), 0);
    assert_eq!(i210_init(&mut t, window(0x2000, 0, 0, 0)), 1);
}

#[test]
fn handles_see_only_their_own_device() {
    let mut t = DeviceTable::new();
    let a = i210_init(&mut t, window(0x1000, 2, 0xAABBCCDD, 0xEEFF));
    let b = i210_init(&mut t, window(0x2000, 0, 0x0403_0201, 0x0605));
    assert_eq!(i210_check_link(&mut t, a), Ok(true));
    assert_eq!(i210_check_link(&mut t, b), Ok(false));
    assert_eq!(i210_read_mac(&mut t, a), Ok([0xDD, 0xCC, 0xBB, 0xAA, 0xFF, 0xEE]));
    assert_eq!(i210_read_mac(&mut t, b), Ok([1, 2, 3, 4, 5, 6]));
    assert_eq!(i210_reset(&mut t, a, 5), Ok(()));
    assert_eq!(i210_enable_rx(&mut t, a, RingConfig { base: 0, descriptors: 8 }), Ok(()));
    assert_eq!(i210_read_mac(&mut t, b), Ok([1, 2, 3, 4, 5, 6]));
    assert_eq!(i210_check_link(&mut t, b), Ok(false));
}

#[test]
fn released_handle_is_rejected() {
    let mut t = DeviceTable::new();
    let a = i210_init(&mut t, window(0x1000, 2, 0, 0));
    let b = i210_init(&mut t, window(0x2000, 2, 0, 0));
    assert_eq!(i210_release(&mut t, a), Ok(()));
    assert_eq!(i210_release(&mut t, a), Err(DriverError::InvalidHandle));
    assert_eq!(i210_reset(&mut t, a, 5), Err(DriverError::InvalidHandle));
    assert_eq!(i210_read_mac(&mut t, a), Err(DriverError::InvalidHandle));
    assert_eq!(i210_check_link(&mut t, a), Err(DriverError::InvalidHandle));
    let r = RingConfig { base: 0, descriptors: 8 };
    assert_eq!(i210_enable_rx(&mut t, a, r), Err(DriverError::InvalidHandle));
    assert_eq!(i210_enable_tx(&mut t, a, r), Err(DriverError::InvalidHandle));
    assert_eq!(i210_check_link(&mut t, b), Ok(true));
}

#[test]
fn unknown_handle_is_rejected() {
    let mut t = DeviceTable::new();
    assert_eq!(i210_reset(&mut t, 0, 5), Err(DriverError::InvalidHandle));
    i210_init(&mut t, window(0x1000, 0, 0, 0));
    assert_eq!(i210_check_link(&mut t, 7), Err(DriverError::InvalidHandle));
}

#[test]
fn boundary_operations_forward_errors() {
    let mut t = DeviceTable::new();
    let u = i210_init(&mut t, RegisterWindow::new(0, None));
    assert_eq!(i210_read_mac(&mut t, u), Err(DriverError::InvalidHandle));
    let h = i210_init(&mut t, RegisterWindow::new(0x3000, None));
    assert_eq!(i210_reset(&mut t, h, 50), Err(DriverError::HardwareUnresponsive));
    let bad = RingConfig { base: 0, descriptors: 0 };
    assert_eq!(i210_enable_rx(&mut t, h, bad), Err(DriverError::InvalidArgument));
    assert_eq!(i210_enable_tx(&mut t, h, bad), Err(DriverError::InvalidArgument));
}

#[test]
fn bringup_through_handle() {
    let mut t = DeviceTable::new();
    let h = i210_init(&mut t, window(0x1000, 2, 0x0403_0201, 0x0605));
    let cfg = BringupConfig {
        rx_ring: RingConfig { base: 0x1000, descriptors: 16 },
        tx_ring: RingConfig { base: 0x2000, descriptors: 16 },
        max_reset_polls: 4,
    };
    assert_eq!(i210_bringup(&mut t, h, cfg), Ok(()));
    assert_eq!(i210_read_mac(&mut t, h), Ok([1, 2, 3, 4, 5, 6]));
    assert_eq!(
        i210_bringup(&mut t, 9, cfg),
        Err(BringupFailure { stage: Stage::Reset, error: DriverError::InvalidHandle })
    );
}

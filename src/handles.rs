use vstd::prelude::*;

use crate::driver::{
    bringup_result, bringup_window, link_bit, mac_bytes, reg, reset_result, reset_window,
    ring_result, receive_window, transmit_window, BringupConfig, BringupFailure, DriverError,
    I210Driver, RingConfig, Stage,
};
use crate::registers::{RA, RAH, STATUS};
use crate::window::RegisterWindow;

verus! {

/// The devices attached so far; a handle is an index into the table, and a
/// released handle leaves an empty slot that is never reused.
pub struct DeviceTable {
    slots: Vec<Option<I210Driver>>,
}

impl View for DeviceTable {
    type V = Seq<Option<I210Driver>>;

    closed spec fn view(&self) -> Seq<Option<I210Driver>> {
        self.slots@
    }
}

/// Handle `h` names an attached device that was not released.
pub open spec fn live(t: Seq<Option<I210Driver>>, h: usize) -> bool {
    h < t.len() && t[h as int] is Some
}

/// The device that handle `h` names.
pub open spec fn device(t: Seq<Option<I210Driver>>, h: usize) -> I210Driver {
    t[h as int]->Some_0
}

/// `b` holds the same devices as `a` under every handle but `h`.
pub open spec fn others_unchanged(a: Seq<Option<I210Driver>>, b: Seq<Option<I210Driver>>, h: usize) -> bool {
    a.len() == b.len() && forall|g: int| 0 <= g < a.len() && g != h ==> #[trigger] b[g] == a[g]
}

impl DeviceTable {
    /// Every attached device has a well-formed register window.
    pub open spec fn wf(&self) -> bool {
        forall|i: int| 0 <= i < self@.len() && (#[trigger] self@[i]) is Some ==> self@[i]->Some_0.wf()
    }

    /// A table with no devices.
    pub fn new() -> (t: Self)
        ensures
            t.wf(),
            t@.len() == 0,
    {
        DeviceTable { slots: Vec::new() }
    }

    /// Takes the device of a live handle out of its slot, leaving the slot empty.
    fn take(&mut self, h: usize) -> (r: Result<I210Driver, DriverError>)
        requires
            old(self).wf(),
        ensures
            !live(old(self)@, h) ==> r == Err::<I210Driver, DriverError>(DriverError::InvalidHandle)
                && final(self)@ == old(self)@,
            live(old(self)@, h) ==> r == Ok::<I210Driver, DriverError>(device(old(self)@, h))
                && final(self)@ == old(self)@.update(h as int, None) && r->Ok_0.wf(),
            final(self).wf(),
    {
        if h >= self.slots.len() {
            return Err(DriverError::InvalidHandle);
        }
        let mut slot: Option<I210Driver> = None;
        self.slots.set_and_swap(h, &mut slot);
        match slot {
            Some(d) => Ok(d),
            None => {
                self.slots.set_and_swap(h, &mut slot);
                assert(self.slots@ =~= old(self).slots@);
                Err(DriverError::InvalidHandle)
            },
        }
    }

    /// Puts a device back into the slot of handle `h`.
    fn put(&mut self, h: usize, d: I210Driver)
        requires
            old(self).wf(),
            h < old(self)@.len(),
            d.wf(),
        ensures
            final(self).wf(),
            final(self)@ == old(self)@.update(h as int, Some(d)),
    {
        self.slots.set(h, Some(d));
    }
}

/// Attaches a device behind `regs` and returns its handle.
pub fn i210_init(table: &mut DeviceTable, regs: RegisterWindow) -> (h: usize)
    requires
        old(table).wf(),
        regs.wf(),
    ensures
        final(table).wf(),
        h == old(table)@.len(),
        final(table)@.len() == old(table)@.len() + 1,
        forall|g: int| 0 <= g < old(table)@.len() ==> #[trigger] final(table)@[g] == old(table)@[g],
        live(final(table)@, h),
        device(final(table)@, h).regs@ == regs@,
        device(final(table)@, h).mac_addr@ == seq![0u8, 0, 0, 0, 0, 0],
        !device(final(table)@, h).link_up,
{
    let h = table.slots.len();
    table.slots.push(Some(I210Driver::new(regs)));
    h
}

/// Releases handle `h`; later calls with it fail with `InvalidHandle`.
pub fn i210_release(table: &mut DeviceTable, h: usize) -> (r: Result<(), DriverError>)
    requires
        old(table).wf(),
    ensures
        final(table).wf(),
        !live(old(table)@, h) ==> r == Err::<(), DriverError>(DriverError::InvalidHandle)
            && final(table)@ == old(table)@,
        live(old(table)@, h) ==> r is Ok && final(table)@ == old(table)@.update(h as int, None),
{
    match table.take(h) {
        Ok(_) => Ok(()),
        Err(e) => Err(e),
    }
}

/// Resets the device of handle `h`, allowing `max_polls` reads of CTRL.
pub fn i210_reset(table: &mut DeviceTable, h: usize, max_polls: u32) -> (r: Result<(), DriverError>)
    requires
        old(table).wf(),
    ensures
        final(table).wf(),
        !live(old(table)@, h) ==> r == Err::<(), DriverError>(DriverError::InvalidHandle)
            && final(table)@ == old(table)@,
        live(old(table)@, h) ==> live(final(table)@, h) && others_unchanged(old(table)@, final(table)@, h)
            && r == reset_result(device(old(table)@, h).regs@, max_polls)
            && device(final(table)@, h).regs@ == reset_window(device(old(table)@, h).regs@, max_polls)
            && device(final(table)@, h).mac_addr == device(old(table)@, h).mac_addr
            && device(final(table)@, h).link_up == device(old(table)@, h).link_up,
{
    let mut d = match table.take(h) {
        Ok(d) => d,
        Err(e) => return Err(e),
    };
    let r = d.reset(max_polls);
    table.put(h, d);
    r
}

/// Reads the station address of the device of handle `h`.
pub fn i210_read_mac(table: &mut DeviceTable, h: usize) -> (r: Result<[u8; 6], DriverError>)
    requires
        old(table).wf(),
    ensures
        final(table).wf(),
        !live(old(table)@, h) || device(old(table)@, h).regs@.base == 0 ==> r == Err::<[u8; 6], DriverError>(
            DriverError::InvalidHandle,
        ),
        !live(old(table)@, h) ==> final(table)@ == old(table)@,
        live(old(table)@, h) ==> live(final(table)@, h) && others_unchanged(old(table)@, final(table)@, h)
            && device(final(table)@, h).regs@ == device(old(table)@, h).regs@,
        live(old(table)@, h) && device(old(table)@, h).regs@.base != 0 ==> r is Ok && r->Ok_0@
            == mac_bytes(
            reg(device(old(table)@, h).regs@, RA),
            reg(device(old(table)@, h).regs@, RAH),
        ) && device(final(table)@, h).mac_addr == r->Ok_0,
{
    let mut d = match table.take(h) {
        Ok(d) => d,
        Err(e) => return Err(e),
    };
    let r = d.read_mac_address();
    table.put(h, d);
    r
}

/// Reads the link state of the device of handle `h` from STATUS.
pub fn i210_check_link(table: &mut DeviceTable, h: usize) -> (r: Result<bool, DriverError>)
    requires
        old(table).wf(),
    ensures
        final(table).wf(),
        !live(old(table)@, h) || device(old(table)@, h).regs@.base == 0 ==> r == Err::<bool, DriverError>(
            DriverError::InvalidHandle,
        ),
        !live(old(table)@, h) ==> final(table)@ == old(table)@,
        live(old(table)@, h) ==> live(final(table)@, h) && others_unchanged(old(table)@, final(table)@, h)
            && device(final(table)@, h).regs@ == device(old(table)@, h).regs@,
        live(old(table)@, h) && device(old(table)@, h).regs@.base != 0 ==> r == Ok::<bool, DriverError>(
            link_bit(reg(device(old(table)@, h).regs@, STATUS)),
        ) && device(final(table)@, h).link_up == r->Ok_0,
{
    let mut d = match table.take(h) {
        Ok(d) => d,
        Err(e) => return Err(e),
    };
    let r = d.check_link_status(true);
    table.put(h, d);
    r
}

/// Programs and enables the receive ring of the device of handle `h`.
pub fn i210_enable_rx(table: &mut DeviceTable, h: usize, ring: RingConfig) -> (r: Result<(), DriverError>)
    requires
        old(table).wf(),
    ensures
        final(table).wf(),
        !live(old(table)@, h) ==> r == Err::<(), DriverError>(DriverError::InvalidHandle)
            && final(table)@ == old(table)@,
        live(old(table)@, h) ==> live(final(table)@, h) && others_unchanged(old(table)@, final(table)@, h)
            && r == ring_result(device(old(table)@, h).regs@, ring)
            && device(final(table)@, h).regs@ == (if r is Ok {
                receive_window(device(old(table)@, h).regs@, ring)
            } else {
                device(old(table)@, h).regs@
            }),
{
    let mut d = match table.take(h) {
        Ok(d) => d,
        Err(e) => return Err(e),
    };
    let r = d.init_receive(ring);
    table.put(h, d);
    r
}

/// Programs and enables the transmit ring of the device of handle `h`.
pub fn i210_enable_tx(table: &mut DeviceTable, h: usize, ring: RingConfig) -> (r: Result<(), DriverError>)
    requires
        old(table).wf(),
    ensures
        final(table).wf(),
        !live(old(table)@, h) ==> r == Err::<(), DriverError>(DriverError::InvalidHandle)
            && final(table)@ == old(table)@,
        live(old(table)@, h) ==> live(final(table)@, h) && others_unchanged(old(table)@, final(table)@, h)
            && r == ring_result(device(old(table)@, h).regs@, ring)
            && device(final(table)@, h).regs@ == (if r is Ok {
                transmit_window(device(old(table)@, h).regs@, ring)
            } else {
                device(old(table)@, h).regs@
            }),
{
    let mut d = match table.take(h) {
        Ok(d) => d,
        Err(e) => return Err(e),
    };
    let r = d.init_transmit(ring);
    table.put(h, d);
    r
}

/// Runs the full bring-up on the device of handle `h`.
pub fn i210_bringup(table: &mut DeviceTable, h: usize, cfg: BringupConfig) -> (r: Result<(), BringupFailure>)
    requires
        old(table).wf(),
    ensures
        final(table).wf(),
        !live(old(table)@, h) ==> r == Err::<(), BringupFailure>(
            BringupFailure { stage: Stage::Reset, error: DriverError::InvalidHandle },
        ) && final(table)@ == old(table)@,
        live(old(table)@, h) ==> live(final(table)@, h) && others_unchanged(old(table)@, final(table)@, h)
            && r == bringup_result(device(old(table)@, h).regs@, cfg)
            && device(final(table)@, h).regs@ == bringup_window(device(old(table)@, h).regs@, cfg),
{
    let mut d = match table.take(h) {
        Ok(d) => d,
        Err(e) => return Err(BringupFailure { stage: Stage::Reset, error: e }),
    };
    let r = d.init(cfg);
    table.put(h, d);
    r
}

} // verus!

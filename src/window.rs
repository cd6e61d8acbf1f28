use vstd::prelude::*;

use crate::registers::{valid_offset, word_of, CTRL, CTRL_RST, WINDOW_WORDS};

verus! {

/// What a register window holds, as the driver sees it.
pub ghost struct WindowModel {
    /// Base address of the window; zero when the window is not bound to a device.
    pub base: u64,
    /// One value per 32-bit register, indexed by word.
    pub regs: Seq<u32>,
    /// Number of CTRL reads after a reset request that still see the reset bit;
    /// `None` for a device that never completes a reset.
    pub reset_delay: Option<u32>,
    /// Reads left before a pending reset completes; `None` when none is pending.
    pub countdown: Option<u32>,
}

/// The value that a read of `offset` returns.
pub open spec fn read_value(m: WindowModel, offset: u32) -> u32 {
    if m.base == 0 {
        0
    } else if offset == CTRL && m.countdown == Some(0u32) {
        m.regs[0] & !CTRL_RST
    } else {
        m.regs[word_of(offset)]
    }
}

/// The window after a read of `offset`: a read of CTRL advances a pending reset.
pub open spec fn after_read(m: WindowModel, offset: u32) -> WindowModel {
    if m.base != 0 && offset == CTRL {
        match m.countdown {
            Some(k) => if k == 0 {
                WindowModel { regs: m.regs.update(0, m.regs[0] & !CTRL_RST), countdown: None, ..m }
            } else {
                WindowModel { countdown: Some((k - 1) as u32), ..m }
            },
            None => m,
        }
    } else {
        m
    }
}

/// The window after `value` is written at `offset`: a write of the reset bit to
/// CTRL starts a reset.
pub open spec fn after_write(m: WindowModel, offset: u32, value: u32) -> WindowModel {
    if m.base == 0 {
        m
    } else if offset == CTRL && value & CTRL_RST != 0 {
        WindowModel { regs: m.regs.update(0, value), countdown: m.reset_delay, ..m }
    } else {
        WindowModel { regs: m.regs.update(word_of(offset), value), ..m }
    }
}

/// The memory-mapped registers of one device, simulated as a register file.
pub struct RegisterWindow {
    base: u64,
    words: Vec<u32>,
    reset_delay: Option<u32>,
    countdown: Option<u32>,
}

impl View for RegisterWindow {
    type V = WindowModel;

    closed spec fn view(&self) -> WindowModel {
        WindowModel {
            base: self.base,
            regs: self.words@,
            reset_delay: self.reset_delay,
            countdown: self.countdown,
        }
    }
}

impl RegisterWindow {
    /// The window holds one word per register.
    pub open spec fn wf(&self) -> bool {
        self@.regs.len() == WINDOW_WORDS
    }

    /// A window at `base_addr` whose registers all read zero. A reset request
    /// completes after `reset_delay` further reads of CTRL, or never for `None`.
    pub fn new(base_addr: u64, reset_delay: Option<u32>) -> (w: Self)
        ensures
            w.wf(),
            w@.base == base_addr,
            w@.reset_delay == reset_delay,
            w@.countdown is None,
            forall|i: int| 0 <= i < WINDOW_WORDS ==> w@.regs[i] == 0,
    {
        let words = vec![0u32; WINDOW_WORDS];
        RegisterWindow { base: base_addr, words, reset_delay, countdown: None }
    }

    /// Base address of the window; zero when unbound.
    pub fn base_addr(&self) -> (r: u64)
        ensures
            r == self@.base,
    {
        self.base
    }

    /// One 32-bit load of the register at `offset`. An unbound window reads zero.
    pub fn read32(&mut self, offset: u32) -> (r: u32)
        requires
            old(self).wf(),
            valid_offset(offset),
        ensures
            final(self).wf(),
            r == read_value(old(self)@, offset),
            final(self)@ == after_read(old(self)@, offset),
    {
        if self.base == 0 {
            return 0;
        }
        let i = (offset / 4) as usize;
        if offset == CTRL {
            match self.countdown {
                Some(k) => {
                    if k == 0 {
                        let v = self.words[0] & !CTRL_RST;
                        self.words.set(0, v);
                        self.countdown = None;
                    } else {
                        self.countdown = Some(k - 1);
                    }
                },
                None => {},
            }
        }
        self.words[i]
    }

    /// One 32-bit store to the register at `offset`. An unbound window ignores it.
    pub fn write32(&mut self, offset: u32, value: u32)
        requires
            old(self).wf(),
            valid_offset(offset),
        ensures
            final(self).wf(),
            final(self)@ == after_write(old(self)@, offset, value),
    {
        if self.base == 0 {
            return;
        }
        let i = (offset / 4) as usize;
        self.words.set(i, value);
        if offset == CTRL && value & CTRL_RST != 0 {
            self.countdown = self.reset_delay;
        }
    }
}

/// A store to a register of a bound window followed by a load of it returns the
/// value stored, for every register and value, except where the store starts a
/// reset that the device completes at once and so clears the reset bit.
pub proof fn lemma_write_then_read(m: WindowModel, offset: u32, value: u32)
    requires
        m.regs.len() == WINDOW_WORDS,
        m.base != 0,
        valid_offset(offset),
        !(offset == CTRL && value & CTRL_RST != 0 && m.reset_delay == Some(0u32)),
    ensures
        read_value(after_write(m, offset, value), offset) == value,
{
    if offset == CTRL && value & CTRL_RST == 0 {
        assert(value & CTRL_RST == 0 ==> value & !CTRL_RST == value) by (bit_vector);
    }
}

} // verus!

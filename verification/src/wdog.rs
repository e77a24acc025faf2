//! The watchdog: its enable bit, and the unlock sequence that has to go before a write to
//! its control register.

use vstd::prelude::*;

verus! {

/// The first word of the unlock sequence.
pub const UNLOCK_FIRST: u16 = 0xC520;

/// The second word of the unlock sequence.
pub const UNLOCK_SECOND: u16 = 0xD928;

/// The fields of the watchdog status and control register high that the driver works on.
#[derive(Clone, Copy, Debug, PartialEq, Eq, Structural)]
pub struct WatchdogControl {
    /// `WDOGEN`: the watchdog is enabled.
    pub wdogen: bool,
    /// `ALLOWUPDATE`: the write-once registers can be unlocked for updating.
    pub allowupdate: bool,
}

/// The driver of the watchdog, over the contents of its control register.
pub struct Watchdog {
    /// The watchdog status and control register high.
    pub stctrlh: WatchdogControl,
}

impl Watchdog {
    pub fn new(stctrlh: WatchdogControl) -> (wdog: Watchdog)
        ensures
            wdog.stctrlh == stctrlh,
    {
        Watchdog { stctrlh }
    }

    /// Whether the watchdog is enabled.
    pub fn is_enabled(&self) -> (enabled: bool)
        ensures
            enabled == self.stctrlh.wdogen,
    {
        self.stctrlh.wdogen
    }

    /// Whether the write-once registers can be unlocked for updating.
    pub fn allow_update(&self) -> (allowed: bool)
        ensures
            allowed == self.stctrlh.allowupdate,
    {
        self.stctrlh.allowupdate
    }

    /// Enables the watchdog; the other field stays as it is.
    pub fn enable(&mut self)
        ensures
            final(self).stctrlh == (WatchdogControl { wdogen: true, ..old(self).stctrlh }),
    {
        self.stctrlh.wdogen = true;
    }

    /// Disables the watchdog; the other field stays as it is. The control register takes
    /// the write only after the unlock sequence, which is answered: its two words are to be
    /// written to the unlock register, first to last, before the control register is
    /// written.
    pub fn disable(&mut self) -> (unlock: [u16; 2])
        ensures
            unlock@ == seq![UNLOCK_FIRST, UNLOCK_SECOND],
            final(self).stctrlh == (WatchdogControl { wdogen: false, ..old(self).stctrlh }),
    {
        self.stctrlh.wdogen = false;
        let unlock = [UNLOCK_FIRST, UNLOCK_SECOND];
        assert(unlock@ =~= seq![UNLOCK_FIRST, UNLOCK_SECOND]);
        unlock
    }
}

} // verus!

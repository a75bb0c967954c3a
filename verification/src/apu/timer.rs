use vstd::prelude::*;

verus! {

/// A divider that counts down from its period and reloads at 0.
#[derive(Copy, Clone, Debug, PartialEq, Eq, Structural)]
pub struct Timer {
    pub current: u16,
    pub reload: u16,
    pub reload_now: bool,
}

impl Timer {
    /// A timer with period 0.
    pub fn new() -> (timer: Self)
        ensures
            timer == (Timer { current: 0, reload: 0, reload_now: false }),
    {
        Timer { current: 0, reload: 0, reload_now: false }
    }

    /// Whether the next tick reloads the timer: it stands at 0, or a reload
    /// was asked for.
    pub open spec fn expires(self) -> bool {
        self.current == 0 || self.reload_now
    }

    /// The timer one tick on.
    pub open spec fn ticked(self) -> Timer {
        if self.expires() {
            Timer { current: self.reload, reload_now: false, ..self }
        } else {
            Timer { current: (self.current - 1) as u16, ..self }
        }
    }

    /// Counts one tick and says whether the timer reloaded.
    pub fn tick(&mut self) -> (expired: bool)
        ensures
            expired == old(self).expires(),
            *final(self) == old(self).ticked(),
    {
        if self.current == 0 || self.reload_now {
            self.current = self.reload;
            self.reload_now = false;
            true
        } else {
            self.current = self.current - 1;
            false
        }
    }

    pub fn set_reload(&mut self)
        ensures
            *final(self) == (Timer { reload_now: true, ..*old(self) }),
    {
        self.reload_now = true;
    }

    pub fn set_period(&mut self, value: u16)
        ensures
            *final(self) == (Timer { reload: value, ..*old(self) }),
    {
        self.reload = value;
    }

    pub fn get_period(&self) -> (period: u16)
        ensures
            period == self.reload,
    {
        self.reload
    }
}

/// A timer with period `n` that was just reloaded expires again after
/// exactly `n` + 1 ticks.
pub proof fn lemma_timer_period(timer: Timer)
    requires
        !timer.reload_now,
        timer.current > 0,
    ensures
        !timer.expires(),
        timer.ticked().current == timer.current - 1,
        timer.ticked().reload == timer.reload,
{
}

} // verus!

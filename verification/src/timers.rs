use vstd::prelude::*;

verus! {

/// Which of the two countdown timers an operation addresses.
#[derive(Clone, Copy, Debug, PartialEq, Eq, Structural)]
pub enum Timer {
    Delay,
    Sound,
}

/// One 60 Hz decrement of a timer value: down by one, floored at zero.
pub open spec fn ticked(v: u8) -> u8 {
    if v > 0 {
        (v - 1) as u8
    } else {
        0
    }
}

/// The value of a timer after `n` decrements.
pub open spec fn ticked_n(v: u8, n: nat) -> u8
    decreases n,
{
    if n == 0 {
        v
    } else {
        ticked(ticked_n(v, (n - 1) as nat))
    }
}

/// A timer started at `v` counts down by exactly one per tick until it
/// reaches zero after `v` ticks, and every tick from then on leaves it
/// at zero; in particular a timer at zero never underflows.
pub proof fn lemma_timer_counts_down_to_zero(v: u8, n: nat)
    ensures
        ticked_n(v, n) == if n <= v { (v - n) as u8 } else { 0u8 },
    decreases n,
{
    if n > 0 {
        lemma_timer_counts_down_to_zero(v, (n - 1) as nat);
    }
}

/// The two independent 8-bit countdown timers: delay and sound. The host
/// drives `tick` at a fixed 60 Hz and treats a nonzero sound value as
/// "emit tone".
pub struct Timers {
    delay: u8,
    sound: u8,
}

impl Timers {
    pub closed spec fn spec_delay(&self) -> u8 {
        self.delay
    }

    pub closed spec fn spec_sound(&self) -> u8 {
        self.sound
    }

    pub open spec fn spec_get(&self, t: Timer) -> u8 {
        match t {
            Timer::Delay => self.spec_delay(),
            Timer::Sound => self.spec_sound(),
        }
    }

    pub fn new() -> (r: Self)
        ensures
            r.spec_delay() == 0u8,
            r.spec_sound() == 0u8,
    {
        Self { delay: 0, sound: 0 }
    }

    pub fn get(&self, t: Timer) -> (r: u8)
        ensures
            r == self.spec_get(t),
    {
        match t {
            Timer::Delay => self.delay,
            Timer::Sound => self.sound,
        }
    }

    pub fn set(&mut self, t: Timer, value: u8)
        ensures
            final(self).spec_get(t) == value,
            t is Delay ==> final(self).spec_sound() == old(self).spec_sound(),
            t is Sound ==> final(self).spec_delay() == old(self).spec_delay(),
    {
        match t {
            Timer::Delay => self.delay = value,
            Timer::Sound => self.sound = value,
        };
    }

    /// Decrement both counters independently, each floored at zero.
    pub fn tick(&mut self)
        ensures
            final(self).spec_delay() == ticked(old(self).spec_delay()),
            final(self).spec_sound() == ticked(old(self).spec_sound()),
    {
        if self.sound > 0 {
            self.sound = self.sound - 1;
        }
        if self.delay > 0 {
            self.delay = self.delay - 1;
        }
    }
}

} // verus!

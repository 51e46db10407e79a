//! Sprite-sheet frame advancement for animated layers.

use vstd::arithmetic::div_mod::{lemma_add_mod_noop, lemma_mod_division_less_than_divisor};
use vstd::prelude::*;

verus! {

/// A repeating timer counting elapsed microseconds toward a period.
#[derive(Clone, Copy, Debug, PartialEq, Eq, Structural)]
pub struct Timer {
    /// The period, in microseconds.
    pub duration_micros: u64,
    /// Time accumulated toward the next period boundary; kept below the
    /// period by `tick`.
    pub elapsed_micros: u64,
}

/// The timer state after advancing by `delta` microseconds.
pub open spec fn timer_after(t: Timer, delta: int) -> Timer {
    if t.duration_micros == 0 {
        Timer { duration_micros: 0, elapsed_micros: 0 }
    } else {
        Timer {
            duration_micros: t.duration_micros,
            elapsed_micros: ((t.elapsed_micros + delta) % (t.duration_micros as int)) as u64,
        }
    }
}

/// Whether advancing by `delta` microseconds crosses a period boundary.
/// A zero-period timer finishes on every tick.
pub open spec fn timer_finishes(t: Timer, delta: int) -> bool {
    t.duration_micros == 0 || t.elapsed_micros + delta >= t.duration_micros
}

impl Timer {
    /// A fresh repeating timer with the given period.
    pub fn new(duration_micros: u64) -> (r: Timer)
        ensures
            r == (Timer { duration_micros, elapsed_micros: 0u64 }),
    {
        Timer { duration_micros, elapsed_micros: 0 }
    }

    /// Advance the timer; the result says whether a period boundary was
    /// crossed during this tick.
    pub fn tick(&mut self, delta_micros: u64) -> (finished: bool)
        ensures
            finished == timer_finishes(*old(self), delta_micros as int),
            *final(self) == timer_after(*old(self), delta_micros as int),
    {
        if self.duration_micros == 0 {
            self.elapsed_micros = 0;
            return true;
        }
        let total: u128 = self.elapsed_micros as u128 + delta_micros as u128;
        let rem: u128 = total % (self.duration_micros as u128);
        proof {
            lemma_mod_division_less_than_divisor(total as int, self.duration_micros as int);
        }
        let finished: bool = total >= self.duration_micros as u128;
        self.elapsed_micros = rem as u64;
        finished
    }
}

/// Animation state attached to a tile of a sprite-sheet layer: the sub-frame
/// index advances by one each time the timer's period elapses, wrapping
/// modulo the frame count.
#[derive(Clone, Copy, Debug, PartialEq, Eq, Structural)]
pub struct SpriteFrameUpdate {
    /// Current sub-frame index.
    pub index: usize,
    /// Number of sub-frames in the sheet.
    pub total: usize,
    /// Timer measuring the per-frame duration.
    pub timer: Timer,
}

impl SpriteFrameUpdate {
    /// Advance the animation by `delta_micros` and return the sub-frame index
    /// to display, always below `total`.
    pub fn next_index(&mut self, delta_micros: u64) -> (r: usize)
        requires
            old(self).total > 0,
        ensures
            final(self).total == old(self).total,
            final(self).timer == timer_after(old(self).timer, delta_micros as int),
            r as int == if timer_finishes(old(self).timer, delta_micros as int) {
                (old(self).index + 1) % (old(self).total as int)
            } else {
                old(self).index as int % (old(self).total as int)
            },
            final(self).index as int == if timer_finishes(old(self).timer, delta_micros as int) {
                old(self).index as int % (old(self).total as int) + 1
            } else {
                old(self).index as int
            },
            r < old(self).total,
    {
        let finished: bool = self.timer.tick(delta_micros);
        proof {
            lemma_mod_division_less_than_divisor(self.index as int, self.total as int);
        }
        if finished {
            proof {
                let i: int = self.index as int;
                let t: int = self.total as int;
                if t == 1 {
                    lemma_mod_division_less_than_divisor(i % t + 1, t);
                    lemma_mod_division_less_than_divisor(i + 1, t);
                } else {
                    vstd::arithmetic::div_mod::lemma_small_mod(1nat, self.total as nat);
                    lemma_add_mod_noop(i, 1, t);
                }
                lemma_mod_division_less_than_divisor(i % t + 1, t);
            }
            self.index = self.index % self.total + 1;
        }
        self.index % self.total
    }
}

} // verus!

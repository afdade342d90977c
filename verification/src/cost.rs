//! The energy clock: cost accumulates over time and is spent to act.

use vstd::prelude::*;
use crate::fixed::{
    accrued, at_least_zero, clamp, difference, floor_zero, greater, larger, over_time, sum, Fixed,
    Millis,
};

verus! {

/// A player's accumulated cost.  It grows with time and is spent to draw and
/// to play cards.
#[derive(Debug, Clone, Copy, PartialEq, Eq, Structural)]
pub struct Cost {
    /// Current accumulated cost
    pub current: Fixed,
    /// Rate of cost accumulation per second
    pub rate: Fixed,
}

impl Cost {
    /// Whether `amount` can be paid.
    pub open spec fn affords(self, amount: Fixed) -> bool {
        self.current >= amount
    }

    /// The cost left after paying `amount`, unchanged where it cannot be paid.
    pub open spec fn spent(self, amount: Fixed) -> Cost {
        if self.affords(amount) {
            Cost { current: clamp(self.current - amount) as Fixed, rate: self.rate }
        } else {
            self
        }
    }

    /// The cost after `delta` has passed.
    pub open spec fn accumulated(self, delta: Millis) -> Cost {
        Cost {
            current: clamp(self.current + accrued(self.rate as int, delta as int)) as Fixed,
            rate: self.rate,
        }
    }

    pub fn new(rate: Fixed) -> (r: Self)
        ensures
            r == (Cost { current: 0, rate }),
    {
        Cost { current: 0, rate }
    }

    /// Try to spend cost. Returns true if successful; nothing is spent
    /// otherwise.
    pub fn try_spend(&mut self, amount: Fixed) -> (paid: bool)
        ensures
            paid == old(self).affords(amount),
            *final(self) == old(self).spent(amount),
            !paid ==> *final(self) == *old(self),
    {
        if self.current >= amount {
            self.current = difference(self.current, amount);
            true
        } else {
            false
        }
    }

    /// Check if we can afford a cost without spending.
    pub fn can_afford(&self, amount: Fixed) -> (r: bool)
        ensures
            r == self.affords(amount),
    {
        self.current >= amount
    }

    /// Let `delta` pass: `current` grows by `rate * delta`.
    pub fn accumulate(&mut self, delta: Millis)
        ensures
            *final(self) == old(self).accumulated(delta),
            old(self).rate >= 0 ==> final(self).current >= old(self).current,
    {
        let gain = over_time(self.rate, delta);
        assert(self.rate >= 0 ==> (self.rate * delta) / 1000 >= 0) by (nonlinear_arith)
            requires
                delta >= 0,
        ;
        self.current = sum(self.current, gain);
    }
}

impl Default for Cost {
    fn default() -> (r: Self)
        ensures
            r == (Cost { current: 0, rate: 0 }),
    {
        Cost { current: 0, rate: 0 }
    }
}

/// Temporary cost rate bonus.  While it lasts, `bonus_rate` is part of the
/// player's rate; when it runs out the bonus is taken out of the rate again.
#[derive(Debug, Clone, Copy, PartialEq, Eq, Structural)]
pub struct Acceleration {
    pub bonus_rate: Fixed,
    pub remaining: Fixed,
}

impl Acceleration {
    /// This acceleration with a further bonus added and its time raised to
    /// at least `duration`.
    pub open spec fn extended(self, bonus_rate: Fixed, duration: Fixed) -> Acceleration {
        Acceleration {
            bonus_rate: clamp(self.bonus_rate + bonus_rate) as Fixed,
            remaining: greater(self.remaining as int, duration as int) as Fixed,
        }
    }

    pub fn new(bonus_rate: Fixed, duration: Fixed) -> (r: Self)
        ensures
            r == (Acceleration { bonus_rate, remaining: at_least_zero(duration as int) as Fixed }),
    {
        Acceleration { bonus_rate, remaining: floor_zero(duration) }
    }

    pub fn extend(&mut self, bonus_rate: Fixed, duration: Fixed)
        ensures
            *final(self) == old(self).extended(bonus_rate, duration),
    {
        self.bonus_rate = sum(self.bonus_rate, bonus_rate);
        self.remaining = larger(self.remaining, duration);
    }
}

impl Default for Acceleration {
    fn default() -> (r: Self)
        ensures
            r == (Acceleration { bonus_rate: 0, remaining: 0 }),
    {
        Acceleration { bonus_rate: 0, remaining: 0 }
    }
}

/// A player's clock: the cost and the acceleration that may be running.
#[derive(Debug, Clone, Copy, PartialEq, Eq, Structural)]
pub struct Clock {
    pub cost: Cost,
    pub acceleration: Option<Acceleration>,
}

impl Clock {
    /// The clock after an acceleration of `bonus_rate` for `duration` is
    /// applied: the rate rises at once, and a running acceleration is extended.
    pub open spec fn accelerated(self, bonus_rate: Fixed, duration: Fixed) -> Clock {
        Clock {
            cost: Cost {
                current: self.cost.current,
                rate: clamp(self.cost.rate + bonus_rate) as Fixed,
            },
            acceleration: Some(
                match self.acceleration {
                    Some(running) => running.extended(bonus_rate, duration),
                    None => Acceleration {
                        bonus_rate,
                        remaining: at_least_zero(duration as int) as Fixed,
                    },
                },
            ),
        }
    }

    /// The clock after the acceleration has run for `delta`: once its time is
    /// up the bonus leaves the rate, which stops at zero, and the acceleration
    /// is removed.
    pub open spec fn acceleration_ticked(self, delta: Millis) -> Clock {
        match self.acceleration {
            None => self,
            Some(running) => {
                let remaining = clamp(running.remaining - delta);
                if remaining <= 0 {
                    Clock {
                        cost: Cost {
                            current: self.cost.current,
                            rate: at_least_zero(clamp(self.cost.rate - running.bonus_rate))
                                as Fixed,
                        },
                        acceleration: None,
                    }
                } else {
                    Clock {
                        cost: self.cost,
                        acceleration: Some(
                            Acceleration {
                                bonus_rate: running.bonus_rate,
                                remaining: remaining as Fixed,
                            },
                        ),
                    }
                }
            },
        }
    }

    /// The clock after `delta` has passed: the acceleration is ticked, then
    /// cost accumulates at the rate that is left.
    pub open spec fn ticked(self, delta: Millis) -> Clock {
        let after = self.acceleration_ticked(delta);
        Clock { cost: after.cost.accumulated(delta), acceleration: after.acceleration }
    }

    /// Raise the rate by `bonus_rate` for `duration`.
    pub fn accelerate(&mut self, bonus_rate: Fixed, duration: Fixed)
        ensures
            *final(self) == old(self).accelerated(bonus_rate, duration),
    {
        self.cost.rate = sum(self.cost.rate, bonus_rate);
        match self.acceleration {
            Some(running) => {
                let mut running = running;
                running.extend(bonus_rate, duration);
                self.acceleration = Some(running);
            },
            None => {
                self.acceleration = Some(Acceleration::new(bonus_rate, duration));
            },
        }
    }
}

/// Tick the acceleration down by `delta` and undo it when it has run out.
pub fn tick_acceleration_delta(delta: Millis, clock: &mut Clock)
    ensures
        *final(clock) == old(clock).acceleration_ticked(delta),
{
    match clock.acceleration {
        None => {},
        Some(running) => {
            let remaining = difference(running.remaining, delta as i64);
            if remaining <= 0 {
                clock.cost.rate = floor_zero(difference(clock.cost.rate, running.bonus_rate));
                clock.acceleration = None;
            } else {
                clock.acceleration = Some(
                    Acceleration { bonus_rate: running.bonus_rate, remaining },
                );
            }
        },
    }
}

/// Accumulate cost over `delta`.
pub fn accumulate_cost_delta(delta: Millis, clock: &mut Clock)
    ensures
        *final(clock) == (Clock {
            cost: old(clock).cost.accumulated(delta),
            acceleration: old(clock).acceleration,
        }),
{
    clock.cost.accumulate(delta);
}

/// While the rate is not negative, the clock never takes cost away, and the
/// rate stays that way.
pub proof fn lemma_cost_only_grows(clock: Clock, delta: Millis)
    requires
        clock.cost.rate >= 0,
    ensures
        clock.ticked(delta).cost.rate >= 0,
        clock.ticked(delta).cost.current >= clock.cost.current,
{
    let rate = clock.acceleration_ticked(delta).cost.rate;
    assert((rate * delta) / 1000 >= 0) by (nonlinear_arith)
        requires
            rate >= 0,
            delta >= 0,
    ;
}

/// An acceleration that runs its full time leaves the rate exactly where it
/// found it, and leaves no acceleration behind.
pub proof fn lemma_acceleration_runs_out(
    clock: Clock,
    bonus_rate: Fixed,
    duration: Fixed,
    delta: Millis,
)
    requires
        clock.acceleration.is_none(),
        clock.cost.rate >= 0,
        bonus_rate >= 0,
        clock.cost.rate + bonus_rate <= i64::MAX,
        delta >= duration,
    ensures
        clock.accelerated(bonus_rate, duration).cost.rate == clock.cost.rate + bonus_rate,
        clock.accelerated(bonus_rate, duration).acceleration_ticked(delta).cost.rate
            == clock.cost.rate,
        clock.accelerated(bonus_rate, duration).acceleration_ticked(delta).acceleration.is_none(),
{
}

/// An acceleration that is ticked in two steps ends as one ticked in a single
/// step of the same total length, as long as it has not run out.
pub proof fn lemma_acceleration_ticks_add_up(clock: Clock, first: Millis, second: Millis)
    requires
        first + second <= u32::MAX,
        clock.acceleration.is_some(),
        clock.acceleration.unwrap().remaining > first,
    ensures
        clock.acceleration_ticked(first).acceleration_ticked(second) == clock.acceleration_ticked(
            (first + second) as Millis,
        ),
{
}

} // verus!

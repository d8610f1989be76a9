//! Time-limited defender modifiers.
//!
//! Two independent modifiers — blast-size multiplier and projectile
//! speed — each hold a current value and an expiry countdown seeded
//! when the matching pickup is collected. A completing countdown
//! resets its modifier to baseline; leaving play force-resets both
//! regardless of remaining time.

use vstd::prelude::*;

use crate::consts::{
    BASE_EXPLOSION_MULT, DT_LIMIT, MAX_EXPLOSION_MULT, PLAYER_MISSILE_SPEED, POWERUP_TIME,
    VEL_LIMIT,
};
use crate::events::{SetPlayerExplosionSize, SetPlayerMissileSpeed};
use crate::timer::{timer_tick_spec, Timer};

verus! {

/// The defender's current modifiers and their expiry countdowns.
#[derive(Clone, Copy, PartialEq, Eq, Structural, Debug)]
pub struct PlayerStatus {
    /// Current blast-size multiplier (thousandths); 1000 is baseline.
    pub explosion_size: u32,
    /// Countdown until the blast-size bonus expires.
    pub explosion_timer: Timer,
    /// Current projectile launch speed (mu/ms).
    pub missile_speed: i64,
    /// Countdown until the speed bonus expires.
    pub missile_timer: Timer,
}

/// The status after both expiry countdowns advance by `dt`: a
/// countdown that has completed returns its modifier to baseline.
pub open spec fn run_timers_spec(ps: PlayerStatus, dt: u64) -> PlayerStatus {
    let et = timer_tick_spec(ps.explosion_timer, dt);
    let mt = timer_tick_spec(ps.missile_timer, dt);
    PlayerStatus {
        explosion_size: if et.finished {
            BASE_EXPLOSION_MULT
        } else {
            ps.explosion_size
        },
        explosion_timer: et,
        missile_speed: if mt.finished {
            PLAYER_MISSILE_SPEED as i64
        } else {
            ps.missile_speed
        },
        missile_timer: mt,
    }
}

/// The status after a queue of bonus events: each sets its modifier
/// and restarts that modifier's countdown, so the last event of each
/// kind wins.
pub open spec fn handle_events_spec(
    ps: PlayerStatus,
    blast: Seq<SetPlayerExplosionSize>,
    speed: Seq<SetPlayerMissileSpeed>,
) -> PlayerStatus {
    PlayerStatus {
        explosion_size: if blast.len() > 0 {
            blast.last().0
        } else {
            ps.explosion_size
        },
        explosion_timer: if blast.len() > 0 {
            Timer { elapsed: 0, finished: false, just_finished: false, ..ps.explosion_timer }
        } else {
            ps.explosion_timer
        },
        missile_speed: if speed.len() > 0 {
            speed.last().0
        } else {
            ps.missile_speed
        },
        missile_timer: if speed.len() > 0 {
            Timer { elapsed: 0, finished: false, just_finished: false, ..ps.missile_timer }
        } else {
            ps.missile_timer
        },
    }
}

impl PlayerStatus {
    pub open spec fn wf(self) -> bool {
        &&& 0 < self.explosion_size <= MAX_EXPLOSION_MULT
        &&& 0 < self.missile_speed <= VEL_LIMIT
        &&& self.explosion_timer.wf()
        &&& !self.explosion_timer.repeating
        &&& self.missile_timer.wf()
        &&& !self.missile_timer.repeating
    }

    /// Both modifiers at baseline with fresh countdowns.
    pub open spec fn spec_baseline() -> PlayerStatus {
        PlayerStatus {
            explosion_size: BASE_EXPLOSION_MULT,
            explosion_timer: Timer {
                duration: POWERUP_TIME,
                elapsed: 0,
                repeating: false,
                finished: false,
                just_finished: false,
            },
            missile_speed: PLAYER_MISSILE_SPEED,
            missile_timer: Timer {
                duration: POWERUP_TIME,
                elapsed: 0,
                repeating: false,
                finished: false,
                just_finished: false,
            },
        }
    }

    /// Whether both modifiers sit at their baseline values.
    pub open spec fn at_baseline(self) -> bool {
        self.explosion_size == BASE_EXPLOSION_MULT && self.missile_speed == PLAYER_MISSILE_SPEED
    }

    /// The defender's state when play begins.
    pub fn new() -> (s: PlayerStatus)
        ensures
            s == PlayerStatus::spec_baseline(),
            s.wf(),
            s.at_baseline(),
    {
        PlayerStatus {
            explosion_size: BASE_EXPLOSION_MULT,
            explosion_timer: Timer::new(POWERUP_TIME, false),
            missile_speed: PLAYER_MISSILE_SPEED,
            missile_timer: Timer::new(POWERUP_TIME, false),
        }
    }

    /// Hard reset, as leaving play performs it: both modifiers return
    /// to baseline and both countdowns restart, regardless of the
    /// time remaining on either bonus.
    pub fn reset(&mut self)
        ensures
            *final(self) == PlayerStatus::spec_baseline(),
            final(self).wf(),
            final(self).at_baseline(),
    {
        self.explosion_size = BASE_EXPLOSION_MULT;
        self.explosion_timer = Timer::new(POWERUP_TIME, false);
        self.missile_speed = PLAYER_MISSILE_SPEED;
        self.missile_timer = Timer::new(POWERUP_TIME, false);
    }

    /// Advances both expiry countdowns; a countdown that has completed
    /// returns its modifier to baseline.
    pub fn run_timers(&mut self, dt: u64)
        requires
            old(self).wf(),
            dt <= DT_LIMIT,
        ensures
            final(self).wf(),
            *final(self) == run_timers_spec(*old(self), dt),
            final(self).explosion_timer == timer_tick_spec(old(self).explosion_timer, dt),
            final(self).missile_timer == timer_tick_spec(old(self).missile_timer, dt),
            final(self).explosion_size == (if final(self).explosion_timer.finished {
                BASE_EXPLOSION_MULT
            } else {
                old(self).explosion_size
            }),
            final(self).missile_speed == (if final(self).missile_timer.finished {
                PLAYER_MISSILE_SPEED as i64
            } else {
                old(self).missile_speed
            }),
    {
        self.explosion_timer.tick(dt);
        if self.explosion_timer.finished {
            self.explosion_size = BASE_EXPLOSION_MULT;
        }
        self.missile_timer.tick(dt);
        if self.missile_timer.finished {
            self.missile_speed = PLAYER_MISSILE_SPEED;
        }
    }

    /// Applies queued bonus events in order: each sets its modifier to
    /// the event's value and restarts that modifier's countdown.
    pub fn handle_events(
        &mut self,
        blast: &Vec<SetPlayerExplosionSize>,
        speed: &Vec<SetPlayerMissileSpeed>,
    )
        requires
            old(self).wf(),
            forall|i: int| 0 <= i < blast@.len() ==> (#[trigger] blast@[i]).wf(),
            forall|i: int| 0 <= i < speed@.len() ==> (#[trigger] speed@[i]).wf(),
        ensures
            final(self).wf(),
            *final(self) == handle_events_spec(*old(self), blast@, speed@),
            final(self).explosion_size == (if blast@.len() > 0 {
                blast@.last().0
            } else {
                old(self).explosion_size
            }),
            final(self).explosion_timer == (if blast@.len() > 0 {
                Timer {
                    elapsed: 0,
                    finished: false,
                    just_finished: false,
                    ..old(self).explosion_timer
                }
            } else {
                old(self).explosion_timer
            }),
            final(self).missile_speed == (if speed@.len() > 0 {
                speed@.last().0
            } else {
                old(self).missile_speed
            }),
            final(self).missile_timer == (if speed@.len() > 0 {
                Timer {
                    elapsed: 0,
                    finished: false,
                    just_finished: false,
                    ..old(self).missile_timer
                }
            } else {
                old(self).missile_timer
            }),
    {
        let mut i: usize = 0;
        while i < blast.len()
            invariant
                i <= blast@.len(),
                self.wf(),
                forall|k: int| 0 <= k < blast@.len() ==> (#[trigger] blast@[k]).wf(),
                self.missile_speed == old(self).missile_speed,
                self.missile_timer == old(self).missile_timer,
                self.explosion_size == (if i > 0 {
                    blast@[i - 1].0
                } else {
                    old(self).explosion_size
                }),
                self.explosion_timer == (if i > 0 {
                    Timer {
                        elapsed: 0,
                        finished: false,
                        just_finished: false,
                        ..old(self).explosion_timer
                    }
                } else {
                    old(self).explosion_timer
                }),
            decreases blast@.len() - i,
        {
            proof {
                assert(blast@[i as int].wf());
            }
            self.explosion_size = blast[i].0;
            self.explosion_timer.reset();
            i += 1;
        }
        let mut i: usize = 0;
        while i < speed.len()
            invariant
                i <= speed@.len(),
                self.wf(),
                forall|k: int| 0 <= k < speed@.len() ==> (#[trigger] speed@[k]).wf(),
                self.explosion_size == (if blast@.len() > 0 {
                    blast@.last().0
                } else {
                    old(self).explosion_size
                }),
                self.explosion_timer == (if blast@.len() > 0 {
                    Timer {
                        elapsed: 0,
                        finished: false,
                        just_finished: false,
                        ..old(self).explosion_timer
                    }
                } else {
                    old(self).explosion_timer
                }),
                self.missile_speed == (if i > 0 {
                    speed@[i - 1].0
                } else {
                    old(self).missile_speed
                }),
                self.missile_timer == (if i > 0 {
                    Timer {
                        elapsed: 0,
                        finished: false,
                        just_finished: false,
                        ..old(self).missile_timer
                    }
                } else {
                    old(self).missile_timer
                }),
            decreases speed@.len() - i,
        {
            proof {
                assert(speed@[i as int].wf());
            }
            self.missile_speed = speed[i].0;
            self.missile_timer.reset();
            i += 1;
        }
    }
}

} // verus!

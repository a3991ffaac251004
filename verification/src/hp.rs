//! Hit-point pools and the shield.
//!
//! A pool carries two fixed contributions (ancestry and class), a derived
//! maximum, the current total and a temporary buffer. Damage is absorbed by
//! the temporary buffer first; whatever is left is applied to the current
//! total, clamped to the pool. The shield has its own pool plus a hardness
//! value that soaks damage and a raised stance read by the armor-class
//! formula.

use vstd::prelude::*;

verus! {

/// `v` clamped to `[lo, hi]`: the minimum with `hi` is taken first, then
/// the maximum with `lo`, so `lo` wins when the bounds cross.
pub open spec fn spec_clamp(v: int, lo: int, hi: int) -> int {
    let capped = if v < hi {
        v
    } else {
        hi
    };
    if capped > lo {
        capped
    } else {
        lo
    }
}

/// The maximum of a pool: the ancestry contribution plus the level-scaled
/// sum of the class contribution and the constitution contribution.
pub open spec fn spec_max_hp(ancestry: int, class_hp: int, con: int, level: int) -> int {
    ancestry + (class_hp + con) * level
}

/// The temporary buffer after a change: damage drains it toward zero,
/// healing and an empty buffer leave it alone.
pub open spec fn spec_temp_after(temp: int, delta: int) -> int {
    if temp > 0 && delta < 0 {
        if temp + delta > 0 {
            temp + delta
        } else {
            0
        }
    } else {
        temp
    }
}

/// The part of a change that the temporary buffer does not absorb: the
/// negative remainder when damage exceeds the buffer, zero when the buffer
/// swallows it, and the full delta when no absorption happens.
pub open spec fn spec_unabsorbed(temp: int, delta: int) -> int {
    if temp > 0 && delta < 0 {
        if temp + delta < 0 {
            temp + delta
        } else {
            0
        }
    } else {
        delta
    }
}

/// The current total after a change: the unabsorbed part is applied and
/// clamped to `[0, max]`; an unabsorbed part of exactly zero never touches
/// the total.
pub open spec fn spec_current_after(current: int, max: int, temp: int, delta: int) -> int {
    let eff = spec_unabsorbed(temp, delta);
    if eff == 0 {
        current
    } else {
        spec_clamp(current + eff, 0, max)
    }
}

/// One hit-point pool (the character's own, or its mount's).
#[derive(Clone, Copy, Debug, PartialEq, Eq, Structural)]
pub struct HpInfo {
    pub ancestry_hp: i32,
    pub class_hp: i32,
    pub max_hp: i32,
    pub current_hp: i32,
    pub temp_hp: i32,
}

impl HpInfo {
    /// The numeric invariant of a healthy pool. A maximum recomputation may
    /// leave the current total above the new maximum on purpose, so this is
    /// a predicate that mutations preserve, not an unconditional fact.
    pub open spec fn well_formed(&self) -> bool {
        &&& 0 <= self.current_hp <= self.max_hp
        &&& 0 <= self.temp_hp
    }

    /// A fresh pool at the given level: full, with no temporary buffer.
    pub fn new(ancestry_hp: i32, class_hp: i32, level: i32, con: i32) -> (r: HpInfo)
        requires
            i32::MIN as int <= spec_max_hp(
                ancestry_hp as int,
                class_hp as int,
                con as int,
                level as int,
            ) <= i32::MAX as int,
        ensures
            r.ancestry_hp == ancestry_hp,
            r.class_hp == class_hp,
            r.max_hp == spec_max_hp(ancestry_hp as int, class_hp as int, con as int, level as int),
            r.current_hp == r.max_hp,
            r.temp_hp == 0,
    {
        let max: i128 = ancestry_hp as i128 + (class_hp as i128 + con as i128) * level as i128;
        HpInfo {
            ancestry_hp,
            class_hp,
            max_hp: max as i32,
            current_hp: max as i32,
            temp_hp: 0,
        }
    }

    /// Recomputes the maximum for a new level or constitution contribution.
    /// The current total is deliberately not re-clamped: a change of the
    /// maximum neither heals nor harms by itself.
    pub fn calculate_max_hp(&mut self, level: i32, con: i32) -> (r: i32)
        requires
            i32::MIN as int <= spec_max_hp(
                old(self).ancestry_hp as int,
                old(self).class_hp as int,
                con as int,
                level as int,
            ) <= i32::MAX as int,
        ensures
            final(self).max_hp == spec_max_hp(
                old(self).ancestry_hp as int,
                old(self).class_hp as int,
                con as int,
                level as int,
            ),
            r == final(self).max_hp,
            final(self).ancestry_hp == old(self).ancestry_hp,
            final(self).class_hp == old(self).class_hp,
            final(self).current_hp == old(self).current_hp,
            final(self).temp_hp == old(self).temp_hp,
    {
        let max: i128 = self.ancestry_hp as i128 + (self.class_hp as i128 + con as i128)
            * level as i128;
        self.max_hp = max as i32;
        self.max_hp
    }

    /// The maximum of the pool.
    pub fn get_max_hp(&self) -> (r: i32)
        ensures
            r == self.max_hp,
    {
        self.max_hp
    }

    /// The current total of the pool.
    pub fn get_hp(&self) -> (r: i32)
        ensures
            r == self.current_hp,
    {
        self.current_hp
    }

    /// The temporary buffer of the pool.
    pub fn get_temp(&self) -> (r: i32)
        ensures
            r == self.temp_hp,
    {
        self.temp_hp
    }

    /// Overwrites the temporary buffer, flooring it at zero. It never
    /// stacks with the buffer already present.
    pub fn set_temp(&mut self, value: i32)
        ensures
            final(self).temp_hp == if value > 0 {
                value as int
            } else {
                0
            },
            final(self).ancestry_hp == old(self).ancestry_hp,
            final(self).class_hp == old(self).class_hp,
            final(self).max_hp == old(self).max_hp,
            final(self).current_hp == old(self).current_hp,
    {
        self.temp_hp = if value > 0 {
            value
        } else {
            0
        };
    }

    /// Applies a signed change. Damage is absorbed by the temporary buffer
    /// first; the unabsorbed remainder is applied to the current total,
    /// clamped to the pool. A remainder of exactly zero never touches the
    /// current total, and the result stays inside `[0, max_hp]` whenever it
    /// started there.
    pub fn change_hp(&mut self, value: i32)
        ensures
            final(self).temp_hp == spec_temp_after(old(self).temp_hp as int, value as int),
            final(self).current_hp == spec_current_after(
                old(self).current_hp as int,
                old(self).max_hp as int,
                old(self).temp_hp as int,
                value as int,
            ),
            final(self).ancestry_hp == old(self).ancestry_hp,
            final(self).class_hp == old(self).class_hp,
            final(self).max_hp == old(self).max_hp,
            old(self).well_formed() ==> final(self).well_formed(),
    {
        let mut change: i128 = value as i128;
        if self.temp_hp > 0 && value < 0 {
            let drained: i128 = self.temp_hp as i128 + value as i128;
            if drained < 0 {
                change = drained;
                self.temp_hp = 0;
            } else {
                change = 0;
                self.temp_hp = drained as i32;
            }
        }
        if change != 0 {
            let sum: i128 = self.current_hp as i128 + change;
            let hi: i128 = self.max_hp as i128;
            let mut clamped: i128 = if sum < hi {
                sum
            } else {
                hi
            };
            if clamped < 0 {
                clamped = 0;
            }
            self.current_hp = clamped as i32;
        }
    }
}

/// The effective change a shield sees: hardness soaks damage first (but
/// soaked damage never turns into healing); ignored hardness and healing
/// pass through untouched.
pub open spec fn spec_shield_delta(delta: int, hardness: int, ignore_hardness: bool) -> int {
    if !ignore_hardness && delta < 0 {
        if delta + hardness < 0 {
            delta + hardness
        } else {
            0
        }
    } else {
        delta
    }
}

/// The shield: its own hit-point pool, flat damage reduction, and whether
/// the bearer currently holds it raised.
#[derive(Clone, Copy, Debug, PartialEq, Eq, Structural)]
pub struct ShieldInfo {
    pub max_hp: i32,
    pub current_hp: i32,
    pub hardness: i32,
    pub raised: bool,
}

impl ShieldInfo {
    /// The numeric invariant of a healthy shield.
    pub open spec fn well_formed(&self) -> bool {
        0 <= self.current_hp <= self.max_hp
    }

    /// A shield with the given starting stats.
    pub fn new(max_hp: i32, current_hp: i32, hardness: i32, raised: bool) -> (r: ShieldInfo)
        ensures
            r.max_hp == max_hp,
            r.current_hp == current_hp,
            r.hardness == hardness,
            r.raised == raised,
    {
        ShieldInfo { max_hp, current_hp, hardness, raised }
    }

    /// The maximum of the shield's pool.
    pub fn get_max_hp(&self) -> (r: i32)
        ensures
            r == self.max_hp,
    {
        self.max_hp
    }

    /// The current total of the shield's pool.
    pub fn get_hp(&self) -> (r: i32)
        ensures
            r == self.current_hp,
    {
        self.current_hp
    }

    /// Applies a signed change. Unless hardness is ignored, damage is
    /// reduced by the hardness first, floored at zero absorbed damage; the
    /// effective change is applied to the current total, clamped to the
    /// pool. An effective change of exactly zero never touches the total.
    pub fn change_hp(&mut self, value: i32, ignore_hardness: bool)
        ensures
            final(self).current_hp == ({
                let eff = spec_shield_delta(
                    value as int,
                    old(self).hardness as int,
                    ignore_hardness,
                );
                if eff == 0 {
                    old(self).current_hp as int
                } else {
                    spec_clamp(old(self).current_hp + eff, 0, old(self).max_hp as int)
                }
            }),
            final(self).max_hp == old(self).max_hp,
            final(self).hardness == old(self).hardness,
            final(self).raised == old(self).raised,
            old(self).well_formed() ==> final(self).well_formed(),
    {
        let mut change: i128 = value as i128;
        if !ignore_hardness && value < 0 {
            let soaked: i128 = value as i128 + self.hardness as i128;
            change = if soaked < 0 {
                soaked
            } else {
                0
            };
        }
        if change != 0 {
            let sum: i128 = self.current_hp as i128 + change;
            let hi: i128 = self.max_hp as i128;
            let mut clamped: i128 = if sum < hi {
                sum
            } else {
                hi
            };
            if clamped < 0 {
                clamped = 0;
            }
            self.current_hp = clamped as i32;
        }
    }

    /// Adds a signed amount to the hardness. There is no floor or ceiling:
    /// equipment effects may push it negative.
    pub fn change_hardness(&mut self, value: i32)
        requires
            i32::MIN as int <= old(self).hardness + value <= i32::MAX as int,
        ensures
            final(self).hardness == old(self).hardness + value,
            final(self).max_hp == old(self).max_hp,
            final(self).current_hp == old(self).current_hp,
            final(self).raised == old(self).raised,
    {
        self.hardness = self.hardness + value;
    }

    /// Flips the raised stance. Raising the shield never changes its pool;
    /// the armor-class formula reads the flag.
    pub fn toggle_raised(&mut self)
        ensures
            final(self).raised == !old(self).raised,
            final(self).max_hp == old(self).max_hp,
            final(self).current_hp == old(self).current_hp,
            final(self).hardness == old(self).hardness,
    {
        self.raised = !self.raised;
    }

    /// Whether the shield is broken: at or below half its maximum,
    /// rounding the half down.
    pub fn is_broken(&self) -> (r: bool)
        requires
            self.max_hp >= 0,
        ensures
            r == (self.current_hp <= self.max_hp as int / 2),
    {
        self.current_hp <= self.max_hp / 2
    }
}

} // verus!

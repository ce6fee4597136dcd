//! Difficulty curve: spawn intervals, fall speeds and the share of big
//! enemies, all as functions of the difficulty level.

use vstd::prelude::*;

verus! {

/// Difficulty parameters, raised over time.
///
/// Intervals are in hundredths of a second, speeds in world units per second
/// and the big-enemy chance in percent.
#[derive(Clone, Copy, Debug)]
pub struct Difficulty {
    pub level: u32,
    /// Time between enemy spawns (hundredths of a second); falls with the level.
    pub enemy_interval: u32,
    /// Time between bomb spawns (hundredths of a second).
    pub bomb_interval: u32,
    /// Range of enemy fall speeds.
    pub enemy_speed_range: (u64, u64),
    /// Range of bomb fall speeds.
    pub bomb_speed_range: (u64, u64),
    /// Chance, in percent, that a spawned enemy is a big one.
    pub big_enemy_chance: u32,
}

/// Level from which fall speeds stop rising: the last level at which the
/// bomb speeds still form a non-empty range when they keep rising.
pub const MAX_SPEED_LEVEL: u32 = 15;

/// The level that sets the fall speeds: the difficulty level, capped at
/// `MAX_SPEED_LEVEL`.
pub open spec fn speed_level(level: int) -> int {
    if level <= MAX_SPEED_LEVEL {
        level
    } else {
        MAX_SPEED_LEVEL as int
    }
}

/// Enemy spawn interval at a level: 1.20 s minus 0.08 s per level, at least 0.30 s.
pub open spec fn enemy_interval_at(level: int) -> int {
    if 120 - 8 * level >= 30 {
        120 - 8 * level
    } else {
        30
    }
}

/// Bomb spawn interval at a level: 4.00 s minus 0.30 s per level, at least 1.50 s.
pub open spec fn bomb_interval_at(level: int) -> int {
    if 400 - 30 * level >= 150 {
        400 - 30 * level
    } else {
        150
    }
}

/// Big-enemy chance at a level: 20 % plus 5 % per level, at most 55 %.
pub open spec fn big_enemy_chance_at(level: int) -> int {
    if 20 + 5 * level <= 55 {
        20 + 5 * level
    } else {
        55
    }
}

impl Difficulty {
    /// All parameters are the ones the curve gives for `self.level`.
    pub open spec fn on_curve(self) -> bool {
        &&& self.enemy_interval == enemy_interval_at(self.level as int)
        &&& self.bomb_interval == bomb_interval_at(self.level as int)
        &&& self.enemy_speed_range.0 == 100 + 15 * speed_level(self.level as int)
        &&& self.enemy_speed_range.1 == 180 + 20 * speed_level(self.level as int)
        &&& self.bomb_speed_range.0 == 120 + 27 * speed_level(self.level as int)
        &&& self.bomb_speed_range.1 == 200 + 22 * speed_level(self.level as int)
        &&& self.big_enemy_chance == big_enemy_chance_at(self.level as int)
    }

    /// The parameters for a given level.
    pub fn at_level(level: u32) -> (r: Difficulty)
        ensures
            r.level == level,
            r.on_curve(),
            r.enemy_speed_range.0 < r.enemy_speed_range.1 <= 480,
            r.bomb_speed_range.0 < r.bomb_speed_range.1 <= 530,
            level <= 11 ==> r.enemy_interval == 120 - 8 * level,
            level >= 12 ==> r.enemy_interval == 30,
            level <= 8 ==> r.bomb_interval == 400 - 30 * level,
            level >= 9 ==> r.bomb_interval == 150,
            level <= 7 ==> r.big_enemy_chance == 20 + 5 * level,
            level >= 7 ==> r.big_enemy_chance == 55,
            level <= 15 ==> r.enemy_speed_range.0 == 100 + 15 * level
                && r.enemy_speed_range.1 == 180 + 20 * level,
            level <= 15 ==> r.bomb_speed_range.0 == 120 + 27 * level
                && r.bomb_speed_range.1 == 200 + 22 * level,
            level >= 15 ==> r.enemy_speed_range.0 == 325 && r.enemy_speed_range.1 == 480,
            level >= 15 ==> r.bomb_speed_range.0 == 525 && r.bomb_speed_range.1 == 530,
    {
        let l = level as u64;
        let sl: u64 = if level <= MAX_SPEED_LEVEL {
            level as u64
        } else {
            MAX_SPEED_LEVEL as u64
        };
        let enemy_interval: u32 = if 8 * l <= 90 {
            (120 - 8 * l) as u32
        } else {
            30
        };
        let bomb_interval: u32 = if 30 * l <= 250 {
            (400 - 30 * l) as u32
        } else {
            150
        };
        let big_enemy_chance: u32 = if 5 * l <= 35 {
            (20 + 5 * l) as u32
        } else {
            55
        };
        Difficulty {
            level,
            enemy_interval,
            bomb_interval,
            enemy_speed_range: (100 + 15 * sl, 180 + 20 * sl),
            bomb_speed_range: (120 + 27 * sl, 200 + 22 * sl),
            big_enemy_chance,
        }
    }

    /// Raises the difficulty by one level and recomputes every parameter.
    pub fn advance_difficulty(&mut self)
        requires
            old(self).level < u32::MAX,
        ensures
            final(self).level == old(self).level + 1,
            final(self).on_curve(),
            final(self).enemy_speed_range.0 < final(self).enemy_speed_range.1 <= 480,
            final(self).bomb_speed_range.0 < final(self).bomb_speed_range.1 <= 530,
            final(self).level <= 11 ==> final(self).enemy_interval == 120 - 8 * final(self).level,
            final(self).level >= 12 ==> final(self).enemy_interval == 30,
            final(self).level <= 8 ==> final(self).bomb_interval == 400 - 30 * final(self).level,
            final(self).level >= 9 ==> final(self).bomb_interval == 150,
            final(self).level <= 7 ==> final(self).big_enemy_chance == 20 + 5 * final(self).level,
            final(self).level >= 7 ==> final(self).big_enemy_chance == 55,
            final(self).level <= 15 ==> final(self).enemy_speed_range.0 == 100 + 15 * final(self).level
                && final(self).enemy_speed_range.1 == 180 + 20 * final(self).level,
            final(self).level <= 15 ==> final(self).bomb_speed_range.0 == 120 + 27 * final(self).level
                && final(self).bomb_speed_range.1 == 200 + 22 * final(self).level,
            final(self).level >= 15 ==> final(self).enemy_speed_range.0 == 325 && final(self).enemy_speed_range.1 == 480,
            final(self).level >= 15 ==> final(self).bomb_speed_range.0 == 525 && final(self).bomb_speed_range.1 == 530,
    {
        *self = Difficulty::at_level(self.level + 1);
    }
}

impl Default for Difficulty {
    /// The starting difficulty, level 0.
    fn default() -> (r: Self)
        ensures
            r.level == 0,
            r.on_curve(),
            r.enemy_interval == 120,
            r.bomb_interval == 400,
            r.enemy_speed_range == (100u64, 180u64),
            r.bomb_speed_range == (120u64, 200u64),
            r.big_enemy_chance == 20,
    {
        Difficulty::at_level(0)
    }
}

/// Difficulty only rises with the level: spawn intervals never grow, fall
/// speeds and the big-enemy chance never shrink.
pub proof fn lemma_difficulty_monotone(a: Difficulty, b: Difficulty)
    requires
        a.on_curve(),
        b.on_curve(),
        a.level <= b.level,
    ensures
        b.enemy_interval <= a.enemy_interval,
        b.bomb_interval <= a.bomb_interval,
        a.enemy_speed_range.0 <= b.enemy_speed_range.0,
        a.enemy_speed_range.1 <= b.enemy_speed_range.1,
        a.bomb_speed_range.0 <= b.bomb_speed_range.0,
        a.bomb_speed_range.1 <= b.bomb_speed_range.1,
        a.big_enemy_chance <= b.big_enemy_chance,
{
}

/// The curve is capped: enemies never come faster than every 0.30 s, bombs
/// never faster than every 1.50 s, at most 55 % of enemies are big, and fall
/// speeds stop rising at `MAX_SPEED_LEVEL` (enemies at most 480, bombs at
/// most 530 units per second).
pub proof fn lemma_difficulty_capped(d: Difficulty)
    requires
        d.on_curve(),
    ensures
        30 <= d.enemy_interval <= 120,
        150 <= d.bomb_interval <= 400,
        20 <= d.big_enemy_chance <= 55,
        d.level >= 12 ==> d.enemy_interval == 30,
        d.level >= 9 ==> d.bomb_interval == 150,
        d.level >= 7 ==> d.big_enemy_chance == 55,
        d.enemy_speed_range.1 <= 480,
        d.bomb_speed_range.1 <= 530,
        d.level >= MAX_SPEED_LEVEL ==> d.enemy_speed_range == (325u64, 480u64)
            && d.bomb_speed_range == (525u64, 530u64),
{
}

/// Both fall-speed ranges are non-empty at every level, so a speed can
/// always be drawn from them.
pub proof fn lemma_speed_ranges(d: Difficulty)
    requires
        d.on_curve(),
    ensures
        d.enemy_speed_range.0 < d.enemy_speed_range.1,
        d.bomb_speed_range.0 < d.bomb_speed_range.1,
{
}

/// The curve level by level: the enemy interval falls by 0.08 s per level
/// to 0.30 s, the bomb interval by 0.30 s per level to 1.50 s, the
/// big-enemy chance rises by 5 % per level to 55 %, and the fall speeds rise
/// by (15, 20) and (27, 22) per level up to `MAX_SPEED_LEVEL`, then stay.
pub proof fn lemma_curve_values(d: Difficulty)
    requires
        d.on_curve(),
    ensures
            d.level <= 11 ==> d.enemy_interval == 120 - 8 * d.level,
            d.level >= 12 ==> d.enemy_interval == 30,
            d.level <= 8 ==> d.bomb_interval == 400 - 30 * d.level,
            d.level >= 9 ==> d.bomb_interval == 150,
            d.level <= 7 ==> d.big_enemy_chance == 20 + 5 * d.level,
            d.level >= 7 ==> d.big_enemy_chance == 55,
            d.level <= 15 ==> d.enemy_speed_range.0 == 100 + 15 * d.level
                && d.enemy_speed_range.1 == 180 + 20 * d.level,
            d.level <= 15 ==> d.bomb_speed_range.0 == 120 + 27 * d.level
                && d.bomb_speed_range.1 == 200 + 22 * d.level,
            d.level >= 15 ==> d.enemy_speed_range.0 == 325 && d.enemy_speed_range.1 == 480,
            d.level >= 15 ==> d.bomb_speed_range.0 == 525 && d.bomb_speed_range.1 == 530,
{
}

} // verus!

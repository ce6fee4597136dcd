//! Which enemy appears when the enemy timer fires, and the collision radii.

use rand::Rng;
use vstd::prelude::*;
use crate::plane_war::difficulty::Difficulty;

verus! {

/// Collision radius of the player's fighter.
pub const FIGHTER_RADIUS: u32 = 25;

/// Collision radius of a bullet.
pub const BULLET_RADIUS: u32 = 5;

/// Collision radius of a small (64×64) enemy.
pub const ENEMY_64_RADIUS: u32 = 28;

/// Collision radius of a big (100×100) enemy.
pub const ENEMY_100_RADIUS: u32 = 44;

/// Collision radius of a bomb.
pub const BOMB_RADIUS: u32 = 30;

/// The two enemy sizes.
#[derive(Clone, Copy, Debug, PartialEq, Eq, Structural)]
pub enum EnemySize {
    /// 64×64, worth one point.
    Small,
    /// 100×100, worth two points.
    Big,
}

/// An enemy to spawn: its size, which picture of that size, its value and
/// its collision radius.
#[derive(Clone, Copy, Debug, PartialEq, Eq, Structural)]
pub struct EnemySpawn {
    pub size: EnemySize,
    pub image_index: usize,
    pub score: u32,
    pub radius: u32,
}

/// Value and radius of an enemy of the given size.
pub open spec fn enemy_profile(size: EnemySize) -> (u32, u32) {
    match size {
        EnemySize::Small => (1, ENEMY_64_RADIUS),
        EnemySize::Big => (2, ENEMY_100_RADIUS),
    }
}

/// A uniformly drawn number below `n`, from the thread-local generator.
///
/// Calls `rand::Rng::random_range(0..n)` on `rand::rng()`. The rand
/// documentation promises a value inside the range and a panic on an empty
/// range; which value comes out is left to chance.
#[verifier::external_body]
fn random_below(n: usize) -> (r: usize)
    requires
        n > 0,
    ensures
        r < n,
{
    rand::rng().random_range(0..n)
}

/// Whether the enemy is big, given a roll in `0..100`: big when the roll is
/// below the big-enemy chance (in percent) and there are big pictures.
pub fn is_big_enemy(big_enemy_chance: u32, roll: usize, n_big: usize) -> (r: bool)
    ensures
        r == (roll < big_enemy_chance && n_big > 0),
        r ==> roll < big_enemy_chance,
        r ==> n_big > 0,
        roll < big_enemy_chance && n_big > 0 ==> r,
{
    (roll as u64) < (big_enemy_chance as u64) && n_big > 0
}

/// The enemy of the given size showing picture `image_index`.
pub fn enemy_spawn(size: EnemySize, image_index: usize) -> (r: EnemySpawn)
    ensures
        r.size == size,
        r.image_index == image_index,
        (r.score, r.radius) == enemy_profile(size),
        size == EnemySize::Small ==> r.score == 1 && r.radius == 28,
        size == EnemySize::Big ==> r.score == 2 && r.radius == 44,
{
    match size {
        EnemySize::Small => EnemySpawn { size, image_index, score: 1, radius: ENEMY_64_RADIUS },
        EnemySize::Big => EnemySpawn { size, image_index, score: 2, radius: ENEMY_100_RADIUS },
    }
}

/// The enemy for a given size roll in `0..100`: big exactly when the roll is
/// below the big-enemy chance (in percent) and big pictures exist, small
/// otherwise; then a picture of that size, drawn uniformly.
pub fn enemy_for_roll(difficulty: &Difficulty, roll: usize, n_big: usize, n_small: usize) -> (r:
    EnemySpawn)
    requires
        n_small > 0 || (roll < difficulty.big_enemy_chance && n_big > 0),
    ensures
        r.size == EnemySize::Big <==> (roll < difficulty.big_enemy_chance && n_big > 0),
        r.size == EnemySize::Big ==> r.image_index < n_big && r.score == 2 && r.radius == 44,
        r.size == EnemySize::Small ==> r.image_index < n_small && r.score == 1 && r.radius == 28,
        (r.score, r.radius) == enemy_profile(r.size),
{
    if is_big_enemy(difficulty.big_enemy_chance, roll, n_big) {
        let idx = random_below(n_big);
        enemy_spawn(EnemySize::Big, idx)
    } else {
        let idx = random_below(n_small);
        enemy_spawn(EnemySize::Small, idx)
    }
}

/// Draws the next enemy: a size roll in `0..100` decides, through
/// `enemy_for_roll`, big with the difficulty's chance when big pictures
/// exist, otherwise small; then a picture of that size, uniformly. There must
/// be small pictures unless every draw is sure to pick a big enemy.
pub fn choose_enemy(difficulty: &Difficulty, n_big: usize, n_small: usize) -> (r: EnemySpawn)
    requires
        n_small > 0 || (difficulty.big_enemy_chance >= 100 && n_big > 0),
    ensures
        (r.score, r.radius) == enemy_profile(r.size),
        r.size == EnemySize::Big ==> n_big > 0 && r.image_index < n_big
            && difficulty.big_enemy_chance > 0,
        r.size == EnemySize::Small ==> r.image_index < n_small,
        difficulty.big_enemy_chance >= 100 && n_big > 0 ==> r.size == EnemySize::Big,
        difficulty.big_enemy_chance == 0 || n_big == 0 ==> r.size == EnemySize::Small,
        r.size == EnemySize::Big ==> r.score == 2 && r.radius == 44,
        r.size == EnemySize::Small ==> r.score == 1 && r.radius == 28,
{
    let roll = random_below(100);
    enemy_for_roll(difficulty, roll, n_big, n_small)
}

/// A small enemy is worth one point with radius 28, a big one two points
/// with radius 44.
pub proof fn lemma_enemy_profile()
    ensures
        enemy_profile(EnemySize::Small) == (1u32, 28u32),
        enemy_profile(EnemySize::Big) == (2u32, 44u32),
{
}

} // verus!

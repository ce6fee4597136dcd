//! Game flow: states, input intent, firing, the fighter's explosion and the
//! game-over screen.

use vstd::prelude::*;
use crate::control::{flag, DirectionState};

verus! {

/// Global state of the game.
#[derive(Clone, Copy, Debug, PartialEq, Eq, Hash, Structural)]
pub enum GameState {
    Loading,
    Playing,
    GameOver,
}

impl Default for GameState {
    /// The game starts by loading its assets.
    fn default() -> (r: Self)
        ensures
            r == GameState::Loading,
    {
        GameState::Loading
    }
}

/// Which source drives the player's intent.
#[derive(Clone, Copy, Debug, PartialEq, Eq, Structural)]
pub enum InputMode {
    Keyboard,
    Dora,
}

impl Default for InputMode {
    /// The keyboard drives the game unless told otherwise.
    fn default() -> (r: Self)
        ensures
            r == InputMode::Keyboard,
    {
        InputMode::Keyboard
    }
}

/// Score of the current round.
#[derive(Clone, Copy, Debug, PartialEq, Eq, Structural)]
pub struct Score(pub u32);

/// Best score so far.
#[derive(Clone, Copy, Debug, PartialEq, Eq, Structural)]
pub struct HighScore(pub u32);

impl Default for Score {
    /// A round starts at zero.
    fn default() -> (r: Self)
        ensures
            r.0 == 0,
    {
        Score(0)
    }
}

impl Default for HighScore {
    /// No best score yet.
    fn default() -> (r: Self)
        ensures
            r.0 == 0,
    {
        HighScore(0)
    }
}

/// New movement axes and fire request taken from the keyboard.
#[derive(Clone, Copy, Debug, PartialEq, Eq, Structural)]
pub struct IntentUpdate {
    /// `-1` left, `1` right.
    pub move_x: i8,
    /// `-1` down, `1` up.
    pub move_y: i8,
    /// Whether a shot is requested.
    pub fire: bool,
}

/// Keyboard input for one step. `keys.fire` stands for the fire key having
/// been pressed during this step; a pending request (`fire_pending`) stays
/// until a shot consumes it. In dora mode the keyboard is ignored (`None`).
pub fn keyboard_intent(mode: InputMode, keys: DirectionState, fire_pending: bool) -> (r: Option<
    IntentUpdate,
>)
    ensures
        r is None <==> mode == InputMode::Dora,
        r matches Some(u) ==> {
            &&& u.move_x == flag(keys.right) - flag(keys.left)
            &&& u.move_y == flag(keys.up) - flag(keys.down)
            &&& u.fire == (fire_pending || keys.fire)
        },
{
    match mode {
        InputMode::Dora => None,
        InputMode::Keyboard => {
            let mut mx: i8 = 0;
            let mut my: i8 = 0;
            if keys.left {
                mx = mx - 1;
            }
            if keys.right {
                mx = mx + 1;
            }
            if keys.up {
                my = my + 1;
            }
            if keys.down {
                my = my - 1;
            }
            Some(IntentUpdate { move_x: mx, move_y: my, fire: fire_pending || keys.fire })
        },
    }
}

/// Result of the firing step.
#[derive(Clone, Copy, Debug, PartialEq, Eq, Structural)]
pub struct FireOutcome {
    /// Spawn a bullet above the fighter.
    pub shoot: bool,
    /// Whether a shot is still requested afterwards.
    pub fire_pending: bool,
    /// Restart the cooldown timer.
    pub reset_cooldown: bool,
}

/// A bullet is fired when the cooldown has just elapsed, a shot is requested
/// and the fighter exists; firing consumes the request and restarts the
/// cooldown.
pub fn player_fire(cooldown_finished: bool, fire_pending: bool, fighter_present: bool) -> (r:
    FireOutcome)
    ensures
        r.shoot == (cooldown_finished && fire_pending && fighter_present),
        r.fire_pending == (fire_pending && !r.shoot),
        r.reset_cooldown == r.shoot,
{
    if !cooldown_finished || !fire_pending {
        return FireOutcome { shoot: false, fire_pending, reset_cooldown: false };
    }
    if !fighter_present {
        return FireOutcome { shoot: false, fire_pending, reset_cooldown: false };
    }
    FireOutcome { shoot: true, fire_pending: false, reset_cooldown: true }
}

/// Whether any entry of `overlaps` is set.
pub fn any_overlap(overlaps: &Vec<bool>) -> (r: bool)
    ensures
        r <==> exists|i: int| 0 <= i < overlaps@.len() && #[trigger] overlaps@[i],
{
    let mut i: usize = 0;
    while i < overlaps.len()
        invariant
            i <= overlaps@.len(),
            forall|j: int| 0 <= j < i ==> !#[trigger] overlaps@[j],
        decreases overlaps@.len() - i,
    {
        if overlaps[i] {
            return true;
        }
        i = i + 1;
    }
    false
}

/// Whether the fighter's explosion starts: it touches an enemy
/// (`enemy_overlaps`) or a bomb (`bomb_overlaps`) and no explosion is running
/// yet, so only the first hit counts.
pub fn player_collision(enemy_overlaps: &Vec<bool>, bomb_overlaps: &Vec<bool>, exploding: bool) -> (r: bool)
    ensures
        r == (!exploding && ((exists|i: int|
            0 <= i < enemy_overlaps@.len() && #[trigger] enemy_overlaps@[i]) || (exists|i: int|
            0 <= i < bomb_overlaps@.len() && #[trigger] bomb_overlaps@[i]))),
{
    let hit = any_overlap(enemy_overlaps) || any_overlap(bomb_overlaps);
    hit && !exploding
}

/// Result of the explosion check.
#[derive(Clone, Copy, Debug, PartialEq, Eq, Structural)]
pub struct ExplosionOutcome {
    /// Whether the explosion is still running.
    pub exploding: bool,
    /// Switch to this state, if any.
    pub next_state: Option<GameState>,
    /// Remove the explosion sprites.
    pub clear_explosion: bool,
}

/// When the explosion delay elapses the explosion ends and the game is over.
pub fn check_explosion_done(exploding: bool, timer_finished: bool) -> (r: ExplosionOutcome)
    ensures
        exploding && timer_finished ==> r == (ExplosionOutcome {
            exploding: false,
            next_state: Some(GameState::GameOver),
            clear_explosion: true,
        }),
        !(exploding && timer_finished) ==> r == (ExplosionOutcome {
            exploding,
            next_state: None,
            clear_explosion: false,
        }),
{
    if exploding && timer_finished {
        ExplosionOutcome {
            exploding: false,
            next_state: Some(GameState::GameOver),
            clear_explosion: true,
        }
    } else {
        ExplosionOutcome { exploding, next_state: None, clear_explosion: false }
    }
}

/// Result of the game-over screen input.
#[derive(Clone, Copy, Debug, PartialEq, Eq, Structural)]
pub struct GameOverOutcome {
    /// Best score after this input.
    pub high: HighScore,
    /// Start a new round.
    pub restart: bool,
    /// Quit the application.
    pub exit: bool,
    /// Write the best score to the local save.
    pub save_high: bool,
}

/// The best score after a round ends with `score`.
pub open spec fn recorded_high(score: u32, high: u32) -> u32 {
    if score > high {
        score
    } else {
        high
    }
}

/// Game-over screen: retry starts a new round, exit quits; either one first
/// records the round's score as the best score when it beats it, and has the
/// best score written to the local save.
pub fn game_over_input(retry: bool, exit: bool, score: Score, high: HighScore) -> (r:
    GameOverOutcome)
    ensures
        r.restart == retry,
        r.exit == exit,
        r.save_high == (retry || exit),
        (retry || exit) && score.0 > high.0 ==> r.high.0 == score.0,
        (retry || exit) && score.0 <= high.0 ==> r.high.0 == high.0,
        !(retry || exit) ==> r.high.0 == high.0,
        r.high.0 == (if retry || exit {
            recorded_high(score.0, high.0)
        } else {
            high.0
        }),
{
    let mut best = high.0;
    if retry {
        if score.0 > best {
            best = score.0;
        }
    }
    if exit {
        if score.0 > best {
            best = score.0;
        }
    }
    GameOverOutcome { high: HighScore(best), restart: retry, exit, save_high: retry || exit }
}

/// The best score never goes down, and once the player leaves the game-over
/// screen it is at least the round's score.
pub proof fn lemma_high_score_monotone(retry: bool, exit: bool, score: u32, high: u32)
    ensures
        high <= (if retry || exit {
            recorded_high(score, high)
        } else {
            high
        }),
        retry || exit ==> score <= recorded_high(score, high),
        retry || exit ==> (recorded_high(score, high) == score || recorded_high(score, high)
            == high),
{
}

} // verus!

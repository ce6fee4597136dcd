//! Four-way directional input and the control factors derived from it.

use vstd::prelude::*;

verus! {

/// `1` for a pressed key, `0` otherwise.
pub open spec fn flag(b: bool) -> int {
    if b {
        1
    } else {
        0
    }
}

/// The buttons of the controller window.
#[derive(Clone, Copy, Debug, PartialEq, Eq, Structural)]
pub enum DirButton {
    Up,
    Down,
    Left,
    Right,
    Fire,
}

/// State of the direction keys and the action keys.
#[derive(Clone, Copy, Debug, PartialEq, Eq, Structural)]
pub struct DirectionState {
    pub up: bool,
    pub down: bool,
    pub left: bool,
    pub right: bool,
    pub fire: bool,
    pub retry: bool,
    pub exit: bool,
}

/// The five components sent by the controller on each tick:
/// rotation, movement, fire, retry, exit.
#[derive(Clone, Copy, Debug, PartialEq, Eq, Structural)]
pub struct ControlCommand {
    pub rotation: i8,
    pub movement: i8,
    pub fire: i8,
    pub retry: i8,
    pub exit: i8,
}

impl Default for DirectionState {
    /// The neutral state: nothing pressed.
    fn default() -> (r: Self)
        ensures
            !r.up && !r.down && !r.left && !r.right && !r.fire && !r.retry && !r.exit,
    {
        DirectionState {
            up: false,
            down: false,
            left: false,
            right: false,
            fire: false,
            retry: false,
            exit: false,
        }
    }
}

impl DirectionState {
    /// Whether any key or button is active, as a spec value.
    pub open spec fn any_pressed(self) -> bool {
        self.up || self.down || self.left || self.right || self.fire || self.retry || self.exit
    }

    /// Whether the key matching `button` is active, as a spec value.
    pub open spec fn button_active(self, button: DirButton) -> bool {
        match button {
            DirButton::Up => self.up,
            DirButton::Down => self.down,
            DirButton::Left => self.left,
            DirButton::Right => self.right,
            DirButton::Fire => self.fire,
        }
    }

    /// Rotation factor: left is positive (counter-clockwise), right negative.
    pub fn rotation_factor(self) -> (r: i8)
        ensures
            r == flag(self.left) - flag(self.right),
            -1 <= r <= 1,
            self.left && !self.right ==> r == 1,
            !self.left && self.right ==> r == -1,
            self.left == self.right ==> r == 0,
    {
        let l: i8 = if self.left {
            1
        } else {
            0
        };
        let rt: i8 = if self.right {
            1
        } else {
            0
        };
        l - rt
    }

    /// Movement factor: up is positive (forward), down negative.
    pub fn movement_factor(self) -> (r: i8)
        ensures
            r == flag(self.up) - flag(self.down),
            -1 <= r <= 1,
            self.up && !self.down ==> r == 1,
            !self.up && self.down ==> r == -1,
            self.up == self.down ==> r == 0,
    {
        let u: i8 = if self.up {
            1
        } else {
            0
        };
        let d: i8 = if self.down {
            1
        } else {
            0
        };
        u - d
    }

    /// `1` while fire is held, `0` otherwise.
    pub fn fire_factor(self) -> (r: i8)
        ensures
            r == flag(self.fire),
            r == (if self.fire {
                1i8
            } else {
                0i8
            }),
    {
        if self.fire {
            1
        } else {
            0
        }
    }

    /// `1` while retry is held, `0` otherwise.
    pub fn retry_factor(self) -> (r: i8)
        ensures
            r == flag(self.retry),
            r == (if self.retry {
                1i8
            } else {
                0i8
            }),
    {
        if self.retry {
            1
        } else {
            0
        }
    }

    /// `1` while exit is held, `0` otherwise.
    pub fn exit_factor(self) -> (r: i8)
        ensures
            r == flag(self.exit),
            r == (if self.exit {
                1i8
            } else {
                0i8
            }),
    {
        if self.exit {
            1
        } else {
            0
        }
    }

    /// Whether any direction or action key is active.
    pub fn is_any_pressed(self) -> (r: bool)
        ensures
            r == self.any_pressed(),
            r == (self.up || self.down || self.left || self.right || self.fire || self.retry
                || self.exit),
    {
        self.up || self.down || self.left || self.right || self.fire || self.retry || self.exit
    }

    /// Marks the key of a pressed on-screen button as active; the other keys
    /// keep their state.
    pub fn press(&mut self, button: DirButton)
        ensures
            final(self).button_active(button),
            final(self).up == (old(self).up || button == DirButton::Up),
            final(self).down == (old(self).down || button == DirButton::Down),
            final(self).left == (old(self).left || button == DirButton::Left),
            final(self).right == (old(self).right || button == DirButton::Right),
            final(self).fire == (old(self).fire || button == DirButton::Fire),
            final(self).retry == old(self).retry,
            final(self).exit == old(self).exit,
            forall|b: DirButton|
                b != button ==> #[trigger] final(self).button_active(b) == old(self).button_active(
                    b,
                ),
    {
        match button {
            DirButton::Up => self.up = true,
            DirButton::Down => self.down = true,
            DirButton::Left => self.left = true,
            DirButton::Right => self.right = true,
            DirButton::Fire => self.fire = true,
        }
    }

    /// Whether the on-screen button should be drawn as active.
    pub fn is_active(self, button: DirButton) -> (r: bool)
        ensures
            r == self.button_active(button),
            button == DirButton::Up ==> r == self.up,
            button == DirButton::Down ==> r == self.down,
            button == DirButton::Left ==> r == self.left,
            button == DirButton::Right ==> r == self.right,
            button == DirButton::Fire ==> r == self.fire,
    {
        match button {
            DirButton::Up => self.up,
            DirButton::Down => self.down,
            DirButton::Left => self.left,
            DirButton::Right => self.right,
            DirButton::Fire => self.fire,
        }
    }

    /// What the controller sends on a tick: the five factors while anything
    /// is pressed, nothing when all keys are released (so the aircraft stops).
    pub fn tick_command(self) -> (r: Option<ControlCommand>)
        ensures
            r is None <==> !self.any_pressed(),
            r is None <==> !(self.up || self.down || self.left || self.right || self.fire
                || self.retry || self.exit),
            r matches Some(c) ==> {
                &&& c.rotation == flag(self.left) - flag(self.right)
                &&& c.movement == flag(self.up) - flag(self.down)
                &&& c.fire == flag(self.fire)
                &&& c.retry == flag(self.retry)
                &&& c.exit == flag(self.exit)
                &&& c.rotation == (if self.left == self.right {
                    0i8
                } else if self.left {
                    1i8
                } else {
                    -1i8
                })
                &&& c.movement == (if self.up == self.down {
                    0i8
                } else if self.up {
                    1i8
                } else {
                    -1i8
                })
                &&& c.fire == (if self.fire {
                    1i8
                } else {
                    0i8
                })
                &&& c.retry == (if self.retry {
                    1i8
                } else {
                    0i8
                })
                &&& c.exit == (if self.exit {
                    1i8
                } else {
                    0i8
                })
            },
    {
        if self.is_any_pressed() {
            Some(
                ControlCommand {
                    rotation: self.rotation_factor(),
                    movement: self.movement_factor(),
                    fire: self.fire_factor(),
                    retry: self.retry_factor(),
                    exit: self.exit_factor(),
                },
            )
        } else {
            None
        }
    }
}

/// A held key counts as `1`, a released one as `0`.
pub proof fn lemma_flag_values()
    ensures
        flag(true) == 1,
        flag(false) == 0,
{
}

/// A state counts as pressed exactly when at least one of its seven keys is
/// held; any single held key is enough.
pub proof fn lemma_any_pressed_keys(s: DirectionState)
    ensures
        s.up ==> s.any_pressed(),
        s.down ==> s.any_pressed(),
        s.left ==> s.any_pressed(),
        s.right ==> s.any_pressed(),
        s.fire ==> s.any_pressed(),
        s.retry ==> s.any_pressed(),
        s.exit ==> s.any_pressed(),
        !s.up && !s.down && !s.left && !s.right && !s.fire && !s.retry && !s.exit
            ==> !s.any_pressed(),
{
}

/// Each on-screen button stands for the key of the same name.
pub proof fn lemma_button_keys(s: DirectionState)
    ensures
        s.button_active(DirButton::Up) == s.up,
        s.button_active(DirButton::Down) == s.down,
        s.button_active(DirButton::Left) == s.left,
        s.button_active(DirButton::Right) == s.right,
        s.button_active(DirButton::Fire) == s.fire,
{
}

} // verus!

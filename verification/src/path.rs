//! The flight trail: a bounded list of recorded positions.

use vstd::prelude::*;

verus! {

/// Upper bound on the number of trail points; the oldest are dropped beyond it.
pub const MAX_PATH_POINTS: usize = 4096;

/// The trail after appending `point` to `points` under the bound `max_points`
/// (`0` means unbounded): the newest `max_points` entries are kept.
pub open spec fn pushed_path<T>(points: Seq<T>, point: T, max_points: nat) -> Seq<T> {
    let s = points.push(point);
    if max_points > 0 && s.len() > max_points {
        s.subrange(s.len() - max_points, s.len() as int)
    } else {
        s
    }
}

/// Appends a trail point and drops the oldest points while the trail is
/// longer than `max_points` (a bound of `0` keeps every point).
pub fn push_path_point<T>(points: &mut Vec<T>, point: T, max_points: usize)
    ensures
        final(points)@ == pushed_path(old(points)@, point, max_points as nat),
{
    points.push(point);
    if max_points > 0 && points.len() > max_points {
        let overflow = points.len() - max_points;
        let kept = points.split_off(overflow);
        *points = kept;
    }
}

/// The trail never exceeds its bound, ends with the newest point, and is the
/// newest part of the previous trail followed by that point (older points
/// are dropped first, the order of the kept ones is unchanged).
pub proof fn lemma_pushed_path<T>(points: Seq<T>, point: T, max_points: nat)
    ensures
        max_points > 0 ==> pushed_path(points, point, max_points).len() <= max_points,
        pushed_path(points, point, max_points).len() >= 1,
        pushed_path(points, point, max_points).last() == point,
        ({
            let r = pushed_path(points, point, max_points);
            let s = points.push(point);
            r =~= s.subrange(s.len() - r.len(), s.len() as int)
        }),
        max_points == 0 || points.len() < max_points ==> pushed_path(points, point, max_points)
            == points.push(point),
        max_points > 0 && points.len() + 1 > max_points ==> pushed_path(points, point, max_points).len()
            == max_points,
        max_points == 0 ==> pushed_path(points, point, max_points).len() == points.len() + 1,
{
}

/// How a pointer currently interacts with the clear-trail button.
#[derive(Clone, Copy, Debug, PartialEq, Eq, Structural)]
pub enum ButtonInteraction {
    Pressed,
    Hovered,
    Idle,
}

/// Which of the three button colours to show.
#[derive(Clone, Copy, Debug, PartialEq, Eq, Structural)]
pub enum ButtonLook {
    Normal,
    Hovered,
    Pressed,
}

/// The colour that matches an interaction.
pub fn button_look(interaction: ButtonInteraction) -> (r: ButtonLook)
    ensures
        r == (match interaction {
            ButtonInteraction::Pressed => ButtonLook::Pressed,
            ButtonInteraction::Hovered => ButtonLook::Hovered,
            ButtonInteraction::Idle => ButtonLook::Normal,
        }),
{
    match interaction {
        ButtonInteraction::Pressed => ButtonLook::Pressed,
        ButtonInteraction::Hovered => ButtonLook::Hovered,
        ButtonInteraction::Idle => ButtonLook::Normal,
    }
}

/// The trail is cleared when at least one clear button is being pressed.
pub fn clear_requested(interactions: &Vec<ButtonInteraction>) -> (r: bool)
    ensures
        r <==> exists|i: int|
            0 <= i < interactions@.len() && #[trigger] interactions@[i]
                == ButtonInteraction::Pressed,
{
    let mut requested = false;
    let mut i: usize = 0;
    while i < interactions.len()
        invariant
            i <= interactions@.len(),
            requested <==> exists|j: int|
                0 <= j < i && #[trigger] interactions@[j] == ButtonInteraction::Pressed,
        decreases interactions@.len() - i,
    {
        if interactions[i] == ButtonInteraction::Pressed {
            requested = true;
        }
        i = i + 1;
    }
    requested
}

} // verus!

use aviation::path::{
    button_look, clear_requested, push_path_point, ButtonInteraction, ButtonLook,
    MAX_PATH_POINTS,
};
use bevy::math::Vec2;

#[test]
fn push_point_appends_normally() {
    let mut points = vec![Vec2::ZERO];
    push_path_point(&mut points, Vec2::new(1.0, 1.0), 8);
    assert_eq!(points, vec![Vec2::ZERO, Vec2::new(1.0, 1.0)]);
}

#[test]
fn push_point_drops_oldest_when_over_capacity() {
    let mut points = vec![
        Vec2::new(0.0, 0.0),
        Vec2::new(1.0, 0.0),
        Vec2::new(2.0, 0.0),
    ];
    push_path_point(&mut points, Vec2::new(3.0, 0.0), 3);
    assert_eq!(points.len(), 3);
    assert_eq!(points.first().copied(), Some(Vec2::new(1.0, 0.0)));
    assert_eq!(points.last().copied(), Some(Vec2::new(3.0, 0.0)));
}

#[test]
fn push_point_without_bound_keeps_everything() {
    let mut points: Vec<u32> = (0..10).collect();
    push_path_point(&mut points, 10, 0);
    assert_eq!(points, (0..11).collect::<Vec<u32>>());
}

#[test]
fn push_point_trims_a_trail_already_over_the_bound() {
    let mut points: Vec<u32> = vec![1, 2, 3, 4, 5];
    push_path_point(&mut points, 6, 2);
    assert_eq!(points, vec![5, 6]);
}

#[test]
fn trail_stays_at_its_bound() {
    let mut points: Vec<u32> = Vec::new();
    for i in 0..(MAX_PATH_POINTS as u32 + 10) {
        push_path_point(&mut points, i, MAX_PATH_POINTS);
        assert!(points.len() <= MAX_PATH_POINTS);
        assert_eq!(points.last().copied(), Some(i));
    }
    assert_eq!(points.len(), 4096);
    assert_eq!(points[0], 10);
}

#[test]
fn clear_button_reacts_to_a_press() {
    assert!(!clear_requested(&vec![]));
    assert!(!clear_requested(&vec![
        ButtonInteraction::Hovered,
        ButtonInteraction::Idle
    ]));
    assert!(clear_requested(&vec![
        ButtonInteraction::Idle,
        ButtonInteraction::Pressed
    ]));
}

#[test]
fn clear_button_colours() {
    assert_eq!(button_look(ButtonInteraction::Pressed), ButtonLook::Pressed);
    assert_eq!(button_look(ButtonInteraction::Hovered), ButtonLook::Hovered);
    assert_eq!(button_look(ButtonInteraction::Idle), ButtonLook::Normal);
}

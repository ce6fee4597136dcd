use aviation::control::DirectionState;
use aviation::plane_war::combat::{
    award_points, bullet_enemy_collision, bullet_hits, first_free_hit,
};
use aviation::plane_war::difficulty::{Difficulty, MAX_SPEED_LEVEL};
use aviation::plane_war::flow::{
    check_explosion_done, game_over_input, keyboard_intent, player_collision, player_fire,
    FireOutcome, GameState, HighScore, InputMode, IntentUpdate, Score,
};
use aviation::plane_war::hud::score_line;
use aviation::plane_war::record::{parse_saved_high, save_text};
use aviation::plane_war::spawn::{
    choose_enemy, enemy_spawn, is_big_enemy, EnemySize, ENEMY_100_RADIUS, ENEMY_64_RADIUS,
};

#[test]
fn default_difficulty_is_level_zero() {
    let d = Difficulty::default();
    assert_eq!(d.level, 0);
    assert_eq!(d.enemy_interval, 120);
    assert_eq!(d.bomb_interval, 400);
    assert_eq!(d.enemy_speed_range, (100, 180));
    assert_eq!(d.bomb_speed_range, (120, 200));
    assert_eq!(d.big_enemy_chance, 20);
}

#[test]
fn difficulty_advances_one_level() {
    let mut d = Difficulty::default();
    d.advance_difficulty();
    assert_eq!(d.level, 1);
    assert_eq!(d.enemy_interval, 112);
    assert_eq!(d.bomb_interval, 370);
    assert_eq!(d.enemy_speed_range, (115, 200));
    assert_eq!(d.bomb_speed_range, (147, 222));
    assert_eq!(d.big_enemy_chance, 25);
}

#[test]
fn difficulty_reaches_its_caps() {
    let d = Difficulty::at_level(11);
    assert_eq!(d.enemy_interval, 32);
    let d = Difficulty::at_level(12);
    assert_eq!(d.enemy_interval, 30);
    assert_eq!(d.bomb_interval, 150);
    assert_eq!(d.big_enemy_chance, 55);
    let d = Difficulty::at_level(u32::MAX);
    assert_eq!(d.enemy_interval, 30);
    assert_eq!(d.bomb_interval, 150);
    assert_eq!(d.big_enemy_chance, 55);
    assert_eq!(d.enemy_speed_range, (325, 480));
    assert_eq!(d.bomb_speed_range, (525, 530));
}

#[test]
fn fall_speeds_stop_rising_at_the_last_tier() {
    let before = Difficulty::at_level(MAX_SPEED_LEVEL - 1);
    assert_eq!(before.enemy_speed_range, (310, 460));
    assert_eq!(before.bomb_speed_range, (498, 508));
    let top = Difficulty::at_level(MAX_SPEED_LEVEL);
    assert_eq!(top.enemy_speed_range, (325, 480));
    assert_eq!(top.bomb_speed_range, (525, 530));
    for level in [MAX_SPEED_LEVEL + 1, 16, 17, 100, 100_000] {
        let d = Difficulty::at_level(level);
        assert_eq!(d.enemy_speed_range, top.enemy_speed_range);
        assert_eq!(d.bomb_speed_range, top.bomb_speed_range);
    }
}

#[test]
fn difficulty_never_eases() {
    let mut prev = Difficulty::default();
    for _ in 0..40 {
        let mut next = prev;
        next.advance_difficulty();
        assert!(next.enemy_interval <= prev.enemy_interval);
        assert!(next.bomb_interval <= prev.bomb_interval);
        assert!(next.big_enemy_chance >= prev.big_enemy_chance);
        assert!(next.enemy_speed_range.1 >= prev.enemy_speed_range.1);
        assert!(next.bomb_speed_range.0 >= prev.bomb_speed_range.0);
        prev = next;
    }
}

#[test]
fn speed_ranges_never_close() {
    let mut d = Difficulty::default();
    for _ in 0..200 {
        assert!(d.enemy_speed_range.0 < d.enemy_speed_range.1);
        assert!(d.bomb_speed_range.0 < d.bomb_speed_range.1);
        d.advance_difficulty();
    }
    assert_eq!(d.level, 200);
}

#[test]
fn first_free_hit_skips_destroyed_enemies() {
    assert_eq!(first_free_hit(&vec![false, true, true], &vec![]), Some(1));
    assert_eq!(first_free_hit(&vec![false, true, true], &vec![None, Some(1)]), Some(2));
    assert_eq!(first_free_hit(&vec![true, false], &vec![Some(0)]), None);
    assert_eq!(first_free_hit(&vec![false, false], &vec![]), None);
    assert_eq!(first_free_hit(&vec![], &vec![]), None);
}

#[test]
fn bullets_hit_at_most_one_enemy_each() {
    let overlaps = vec![vec![true, true], vec![false, false], vec![false, true]];
    assert_eq!(bullet_hits(&overlaps), vec![Some(0), None, Some(1)]);
}

#[test]
fn an_enemy_is_destroyed_and_scored_once() {
    let overlaps = vec![vec![true], vec![true]];
    let (hits, score) = bullet_enemy_collision(Score(4), &overlaps, &vec![2]);
    assert_eq!(hits, vec![Some(0), None]);
    assert_eq!(score, Some(Score(6)));
}

#[test]
fn hits_add_enemy_values() {
    let overlaps = vec![vec![false, true], vec![false, true], vec![true, false]];
    let (hits, score) = bullet_enemy_collision(Score(5), &overlaps, &vec![1, 2]);
    assert_eq!(hits, vec![Some(1), None, Some(0)]);
    assert_eq!(score, Some(Score(8)));
    let overlaps = vec![vec![true, true], vec![true, true]];
    let (hits, score) = bullet_enemy_collision(Score(0), &overlaps, &vec![1, 2]);
    assert_eq!(hits, vec![Some(0), Some(1)]);
    assert_eq!(score, Some(Score(3)));
}

#[test]
fn score_overflow_is_reported() {
    assert_eq!(award_points(u32::MAX - 1, &vec![Some(0)], &vec![2]), None);
    assert_eq!(award_points(u32::MAX - 2, &vec![Some(0)], &vec![2]), Some(u32::MAX));
    assert_eq!(award_points(7, &vec![None, None], &vec![]), Some(7));
    let (hits, score) = bullet_enemy_collision(Score(u32::MAX), &vec![vec![true]], &vec![1]);
    assert_eq!(hits, vec![Some(0)]);
    assert!(score.is_none());
}

#[test]
fn keyboard_drives_intent_only_in_keyboard_mode() {
    let keys = DirectionState {
        left: true,
        up: true,
        fire: true,
        ..Default::default()
    };
    assert_eq!(keyboard_intent(InputMode::Dora, keys, false), None);
    assert_eq!(
        keyboard_intent(InputMode::Keyboard, keys, false),
        Some(IntentUpdate {
            move_x: -1,
            move_y: 1,
            fire: true
        })
    );
    assert_eq!(InputMode::default(), InputMode::Keyboard);
}

#[test]
fn fire_request_waits_for_the_cooldown() {
    assert_eq!(
        keyboard_intent(InputMode::Keyboard, DirectionState::default(), true)
            .unwrap()
            .fire,
        true
    );
    assert_eq!(
        player_fire(false, true, true),
        FireOutcome {
            shoot: false,
            fire_pending: true,
            reset_cooldown: false
        }
    );
    assert_eq!(
        player_fire(true, true, true),
        FireOutcome {
            shoot: true,
            fire_pending: false,
            reset_cooldown: true
        }
    );
    assert!(!player_fire(true, true, false).shoot);
    assert!(!player_fire(true, false, true).shoot);
}

#[test]
fn explosion_starts_once_and_ends_the_round() {
    assert!(player_collision(&vec![false, true], &vec![], false));
    assert!(player_collision(&vec![false], &vec![false, true], false));
    assert!(!player_collision(&vec![true], &vec![true], true));
    assert!(!player_collision(&vec![false, false], &vec![false], false));
    assert!(!player_collision(&vec![], &vec![], false));
    let waiting = check_explosion_done(true, false);
    assert!(waiting.exploding && waiting.next_state.is_none());
    let done = check_explosion_done(true, true);
    assert!(!done.exploding && done.clear_explosion);
    assert_eq!(done.next_state, Some(GameState::GameOver));
    assert_eq!(check_explosion_done(false, true).next_state, None);
}

#[test]
fn game_over_records_the_best_score() {
    let o = game_over_input(true, false, Score(12), HighScore(7));
    assert!(o.save_high);
    assert!(o.restart && !o.exit);
    assert_eq!(o.high, HighScore(12));
    let o = game_over_input(false, true, Score(3), HighScore(7));
    assert!(o.save_high);
    assert!(o.exit && !o.restart);
    assert_eq!(o.high, HighScore(7));
    let o = game_over_input(false, false, Score(30), HighScore(7));
    assert!(!o.save_high);
    assert_eq!(o.high, HighScore(7));
    assert_eq!(GameState::default(), GameState::Loading);
    assert_eq!(Score::default(), Score(0));
    assert_eq!(HighScore::default(), HighScore(0));
}

#[test]
fn enemy_sizes_have_their_values() {
    let s = enemy_spawn(EnemySize::Small, 4);
    assert_eq!((s.score, s.radius, s.image_index), (1, ENEMY_64_RADIUS, 4));
    let b = enemy_spawn(EnemySize::Big, 2);
    assert_eq!((b.score, b.radius), (2, ENEMY_100_RADIUS));
    assert!(is_big_enemy(20, 19, 5));
    assert!(!is_big_enemy(20, 20, 5));
    assert!(!is_big_enemy(100, 0, 0));
}

#[test]
fn drawn_enemies_stay_in_their_pools() {
    let d = Difficulty::default();
    let mut saw_big = false;
    let mut saw_small = false;
    for _ in 0..2000 {
        let e = choose_enemy(&d, 5, 13);
        match e.size {
            EnemySize::Big => {
                saw_big = true;
                assert!(e.image_index < 5);
                assert_eq!(e.score, 2);
            }
            EnemySize::Small => {
                saw_small = true;
                assert!(e.image_index < 13);
                assert_eq!(e.score, 1);
            }
        }
    }
    assert!(saw_big && saw_small);
    for _ in 0..200 {
        assert_eq!(choose_enemy(&d, 0, 13).size, EnemySize::Small);
    }
    let mut always_big = d;
    always_big.big_enemy_chance = 100;
    for _ in 0..200 {
        assert_eq!(choose_enemy(&always_big, 5, 13).size, EnemySize::Big);
        let e = choose_enemy(&always_big, 5, 0);
        assert_eq!(e.size, EnemySize::Big);
        assert!(e.image_index < 5);
    }
}

#[test]
fn hud_shows_score_and_best() {
    assert_eq!(score_line(Score(12), HighScore(30)), "Score: 12  Best: 30");
    assert_eq!(score_line(Score(0), HighScore(0)), "Score: 0  Best: 0");
    assert_eq!(
        score_line(Score(u32::MAX), HighScore(105)),
        "Score: 4294967295  Best: 105"
    );
}

fn chars(s: &str) -> Vec<char> {
    s.chars().collect()
}

#[test]
fn best_score_save_round_trips() {
    for high in [0u32, 7, 10, 4096, u32::MAX] {
        let text = save_text(HighScore(high));
        assert_eq!(text, high.to_string());
        assert_eq!(parse_saved_high(&chars(&text)), Some(HighScore(high)));
    }
}

#[test]
fn malformed_saves_are_rejected() {
    assert_eq!(parse_saved_high(&chars("")), None);
    assert_eq!(parse_saved_high(&chars("12a")), None);
    assert_eq!(parse_saved_high(&chars("-3")), None);
    assert_eq!(parse_saved_high(&chars(" 5")), None);
    assert_eq!(parse_saved_high(&chars("4294967296")), None);
    assert_eq!(parse_saved_high(&chars("99999999999999999999x")), None);
    assert_eq!(parse_saved_high(&chars("007")), Some(HighScore(7)));
}

use space_shooter::components::{GameState, HighScore, POINTS_PER_HIT, SCORE_PER_LEVEL};
use space_shooter::game::{
    bullet_asteroid_collision, first_hit_index, horizontal_direction, player_asteroid_collision,
    player_shoot,
};
use space_shooter::score::{check_and_save_high_score, load_high_score};
use space_shooter::text::{labelled_number, push_decimal};
use space_shooter::ui::{
    check_game_over, play_again, reset_game, restart_game, score_text, spawn_score_text,
    update_score_text, ButtonInteraction, GameOverAction,
};

fn state(score: u32, speed_level: u32, game_over: bool) -> GameState {
    GameState { score, speed_level, game_over }
}

#[test]
fn default_game_state_starts_at_level_one() {
    let s = GameState::default();
    assert_eq!(s.score, 0);
    assert_eq!(s.speed_level, 1);
    assert!(!s.game_over);
}

#[test]
fn default_high_score_is_zero() {
    let h = HighScore::default();
    assert_eq!(h.score, 0);
    assert!(!h.is_new_record);
}

#[test]
fn constants_of_the_rules() {
    assert_eq!(POINTS_PER_HIT, 10);
    assert_eq!(SCORE_PER_LEVEL, 100);
}

#[test]
fn register_hit_adds_ten_points() {
    let mut s = GameState::default();
    s.register_hit();
    assert_eq!(s.score, 10);
    assert_eq!(s.speed_level, 1);
}

#[test]
fn register_hit_climbs_a_level_at_one_hundred() {
    let mut s = state(90, 1, false);
    s.register_hit();
    assert_eq!(s.score, 100);
    assert_eq!(s.speed_level, 2);
}

#[test]
fn register_hit_never_lowers_the_level() {
    let mut s = state(0, 5, false);
    s.register_hit();
    assert_eq!(s.score, 10);
    assert_eq!(s.speed_level, 5);
}

#[test]
fn speed_steps_is_level_minus_one() {
    assert_eq!(state(0, 1, false).speed_steps(), 0);
    assert_eq!(state(250, 3, false).speed_steps(), 2);
}

#[test]
fn asteroids_stop_when_the_run_is_over() {
    assert!(state(0, 1, false).asteroids_active());
    assert!(!state(0, 1, true).asteroids_active());
}

#[test]
fn first_hit_index_finds_the_first_overlap() {
    assert_eq!(first_hit_index(&vec![false, true, true]), 1);
    assert_eq!(first_hit_index(&vec![true]), 0);
    assert_eq!(first_hit_index(&vec![false, false]), 2);
    assert_eq!(first_hit_index(&vec![]), 0);
}

#[test]
fn each_bullet_takes_the_first_asteroid_it_overlaps() {
    let mut s = GameState::default();
    let hits = vec![
        vec![false, true, true],
        vec![false, false, false],
        vec![true, false, false],
    ];
    let out = bullet_asteroid_collision(&hits, &mut s);
    assert_eq!(out.bullets, vec![0, 2]);
    assert_eq!(out.asteroids, vec![1, 0]);
    assert_eq!(s.score, 20);
    assert_eq!(s.speed_level, 1);
    assert!(!s.game_over);
}

#[test]
fn an_asteroid_hit_by_two_bullets_scores_twice() {
    let mut s = GameState::default();
    let hits = vec![vec![false, true], vec![false, true]];
    let out = bullet_asteroid_collision(&hits, &mut s);
    assert_eq!(out.bullets, vec![0, 1]);
    assert_eq!(out.asteroids, vec![1, 1]);
    assert_eq!(s.score, 20);
}

#[test]
fn no_collision_changes_nothing() {
    let mut s = state(40, 1, false);
    let hits = vec![vec![false, false], vec![]];
    let out = bullet_asteroid_collision(&hits, &mut s);
    assert!(out.bullets.is_empty());
    assert!(out.asteroids.is_empty());
    assert_eq!(s.score, 40);
    assert_eq!(s.speed_level, 1);
}

#[test]
fn collisions_across_a_level_boundary_raise_the_level() {
    let mut s = state(180, 2, false);
    let hits = vec![vec![true], vec![true], vec![true]];
    bullet_asteroid_collision(&hits, &mut s);
    assert_eq!(s.score, 210);
    assert_eq!(s.speed_level, 3);
    assert_eq!(s.speed_level, s.score / SCORE_PER_LEVEL + 1);
}

#[test]
fn scoring_keeps_the_level_in_step_with_the_score() {
    let mut s = GameState::default();
    for _ in 0..37 {
        bullet_asteroid_collision(&vec![vec![false, true]], &mut s);
        assert_eq!(s.speed_level, s.score / SCORE_PER_LEVEL + 1);
        assert_eq!(s.score % POINTS_PER_HIT, 0);
    }
    assert_eq!(s.score, 370);
    assert_eq!(s.speed_level, 4);
}

#[test]
fn bullets_keep_scoring_after_the_run_is_over() {
    let mut s = state(30, 1, true);
    bullet_asteroid_collision(&vec![vec![true]], &mut s);
    assert_eq!(s.score, 40);
    assert!(s.game_over);
}

#[test]
fn the_player_hitting_an_asteroid_ends_the_run() {
    let mut s = state(50, 1, false);
    let hit = player_asteroid_collision(&vec![false, true, true], &mut s);
    assert_eq!(hit, Some(1));
    assert!(s.game_over);
    assert_eq!(s.score, 50);
    assert_eq!(s.speed_level, 1);
}

#[test]
fn a_near_miss_leaves_the_run_going() {
    let mut s = state(50, 1, false);
    assert_eq!(player_asteroid_collision(&vec![false, false], &mut s), None);
    assert!(!s.game_over);
}

#[test]
fn an_ended_run_stays_ended_without_a_hit() {
    let mut s = state(50, 1, true);
    assert_eq!(player_asteroid_collision(&vec![], &mut s), None);
    assert!(s.game_over);
}

#[test]
fn direction_from_the_arrow_keys() {
    assert_eq!(horizontal_direction(false, false), 0);
    assert_eq!(horizontal_direction(true, false), -1);
    assert_eq!(horizontal_direction(false, true), 1);
    assert_eq!(horizontal_direction(true, true), 0);
}

#[test]
fn firing_needs_the_key_a_finished_cooldown_and_a_ship() {
    assert!(player_shoot(true, true, true));
    assert!(!player_shoot(true, true, false));
    assert!(!player_shoot(true, false, true));
    assert!(!player_shoot(false, true, true));
    assert!(!player_shoot(false, false, false));
}

#[test]
fn load_high_score_takes_the_saved_score() {
    let h = load_high_score(Some(420));
    assert_eq!(h.score, 420);
    assert!(!h.is_new_record);
    let h = load_high_score(None);
    assert_eq!(h.score, 0);
    assert!(!h.is_new_record);
}

#[test]
fn a_better_run_sets_a_new_record_to_save() {
    let s = state(150, 2, true);
    let mut h = HighScore { score: 100, is_new_record: false };
    assert_eq!(check_and_save_high_score(true, &s, &mut h), Some(150));
    assert_eq!(h.score, 150);
    assert!(h.is_new_record);
}

#[test]
fn an_equal_run_is_no_record() {
    let s = state(100, 2, true);
    let mut h = HighScore { score: 100, is_new_record: true };
    assert_eq!(check_and_save_high_score(true, &s, &mut h), None);
    assert_eq!(h.score, 100);
    assert!(!h.is_new_record);
}

#[test]
fn a_running_game_does_not_touch_the_high_score() {
    let s = state(500, 6, false);
    let mut h = HighScore { score: 100, is_new_record: false };
    assert_eq!(check_and_save_high_score(true, &s, &mut h), None);
    assert_eq!(h.score, 100);
    assert!(!h.is_new_record);
}

#[test]
fn an_unchanged_state_does_not_touch_the_high_score() {
    let s = state(500, 6, true);
    let mut h = HighScore { score: 100, is_new_record: false };
    assert_eq!(check_and_save_high_score(false, &s, &mut h), None);
    assert_eq!(h.score, 100);
    assert!(!h.is_new_record);
}

#[test]
fn the_saved_record_reloads_as_the_high_score() {
    let s = state(770, 8, true);
    let mut h = load_high_score(Some(700));
    let saved = check_and_save_high_score(true, &s, &mut h);
    let reloaded = load_high_score(saved);
    assert_eq!(reloaded.score, h.score);
    assert_eq!(reloaded.score, 770);
}

#[test]
fn decimal_digits_of_numbers() {
    let mut t = String::from("n=");
    push_decimal(&mut t, 0);
    assert_eq!(t, "n=0");
    assert_eq!(labelled_number("", 7), "7");
    assert_eq!(labelled_number("x", 10), "x10");
    assert_eq!(labelled_number("", 1234567890), "1234567890");
    assert_eq!(labelled_number("", u32::MAX), "4294967295");
}

#[test]
fn score_text_shows_the_score() {
    assert_eq!(score_text(0), "Score: 0");
    assert_eq!(score_text(120), "Score: 120");
    assert_eq!(score_text(u32::MAX), format!("Score: {}", u32::MAX));
    for n in [1u32, 9, 10, 99, 100, 101, 65535, 100000] {
        assert_eq!(score_text(n), format!("Score: {}", n));
    }
}

#[test]
fn the_first_score_text_is_zero() {
    assert_eq!(spawn_score_text(), "Score: 0");
}

#[test]
fn score_text_follows_changes_only() {
    let s = state(30, 1, false);
    assert_eq!(update_score_text(true, &s), Some("Score: 30".to_string()));
    assert_eq!(update_score_text(false, &s), None);
}

#[test]
fn no_game_over_screen_while_playing() {
    let s = state(30, 1, false);
    let h = HighScore::default();
    assert!(matches!(check_game_over(&s, &h, false), GameOverAction::KeepPlaying));
    assert!(matches!(check_game_over(&s, &h, true), GameOverAction::KeepPlaying));
}

#[test]
fn game_over_screen_once() {
    let s = state(30, 1, true);
    let h = HighScore { score: 90, is_new_record: false };
    assert!(matches!(check_game_over(&s, &h, true), GameOverAction::ClearField));
    match check_game_over(&s, &h, false) {
        GameOverAction::ShowScreen(screen) => {
            assert_eq!(screen.title, "Game Over");
            assert_eq!(screen.record_banner, None);
            assert_eq!(screen.final_score, "Final Score: 30");
            assert_eq!(screen.high_score, "High Score: 90");
            assert_eq!(screen.restart_label, "Restart");
            assert_eq!(screen.play_again_label, "Play Again");
        }
        _ => panic!("the game-over screen should be shown"),
    }
}

#[test]
fn game_over_screen_announces_a_new_record() {
    let s = state(130, 2, true);
    let h = HighScore { score: 130, is_new_record: true };
    match check_game_over(&s, &h, false) {
        GameOverAction::ShowScreen(screen) => {
            assert_eq!(screen.record_banner, Some("New Record!".to_string()));
            assert_eq!(screen.final_score, "Final Score: 130");
            assert_eq!(screen.high_score, "High Score: 130");
        }
        _ => panic!("the game-over screen should be shown"),
    }
}

#[test]
fn reset_starts_a_fresh_run_and_keeps_the_high_score() {
    let mut s = state(260, 3, true);
    let mut h = HighScore { score: 260, is_new_record: true };
    reset_game(&mut s, &mut h);
    assert_eq!(s.score, 0);
    assert_eq!(s.speed_level, 1);
    assert!(!s.game_over);
    assert_eq!(h.score, 260);
    assert!(!h.is_new_record);
}

#[test]
fn restart_only_on_a_press() {
    for interaction in [None, Some(ButtonInteraction::Hovered), Some(ButtonInteraction::Idle)] {
        let mut s = state(260, 3, true);
        let mut h = HighScore { score: 260, is_new_record: true };
        assert!(!restart_game(interaction, &mut s, &mut h));
        assert_eq!(s.score, 260);
        assert!(s.game_over);
        assert!(h.is_new_record);
    }
    let mut s = state(260, 3, true);
    let mut h = HighScore { score: 260, is_new_record: true };
    assert!(restart_game(Some(ButtonInteraction::Pressed), &mut s, &mut h));
    assert_eq!(s.score, 0);
    assert_eq!(s.speed_level, 1);
    assert!(!s.game_over);
    assert_eq!(h.score, 260);
    assert!(!h.is_new_record);
}

#[test]
fn play_again_only_on_a_press() {
    let mut s = state(40, 1, true);
    let mut h = HighScore { score: 90, is_new_record: false };
    assert!(!play_again(Some(ButtonInteraction::Hovered), &mut s, &mut h));
    assert!(s.game_over);
    assert!(play_again(Some(ButtonInteraction::Pressed), &mut s, &mut h));
    assert!(!s.game_over);
    assert_eq!(s.score, 0);
    assert_eq!(h.score, 90);
}

#[test]
fn settling_the_same_run_twice_saves_once() {
    let s = state(300, 4, true);
    let mut h = HighScore { score: 200, is_new_record: false };
    assert_eq!(check_and_save_high_score(true, &s, &mut h), Some(300));
    assert_eq!(check_and_save_high_score(true, &s, &mut h), None);
    assert_eq!(h.score, 300);
}

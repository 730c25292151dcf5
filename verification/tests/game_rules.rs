use bevy_shooter::game::{
    first_touch, GameState, BITE_DAMAGE, ENEMY_START_HEALTH, KILL_POINTS, PLAYER_START_HEALTH,
};

#[test]
fn new_game_is_fresh_and_running() {
    let game = GameState::new();
    assert_eq!(game.score, 0);
    assert!(!game.game_over);
    assert_eq!(game.player_health, PLAYER_START_HEALTH);
    assert_eq!(game.player_health, 100);
    assert!(game.is_running());
}

#[test]
fn restart_ignored_while_running() {
    let mut game = GameState::new();
    game.score = 30;
    assert!(!game.restart(true));
    assert_eq!(game.score, 30);
    assert!(!game.game_over);
}

#[test]
fn restart_needs_the_key() {
    let mut game = GameState { score: 40, game_over: true, player_health: -8 };
    assert!(!game.restart(false));
    assert!(game.game_over);
    assert_eq!(game.score, 40);
    assert_eq!(game.player_health, -8);
}

#[test]
fn restart_after_game_over_starts_fresh() {
    let mut game = GameState { score: 120, game_over: true, player_health: -8 };
    assert!(game.restart(true));
    assert_eq!(game.score, 0);
    assert!(!game.game_over);
    assert_eq!(game.player_health, 100);
    assert!(game.is_running());
}

#[test]
fn firing_needs_trigger_timer_and_running_game() {
    let game = GameState::new();
    assert!(game.may_fire(true, true));
    assert!(!game.may_fire(false, true));
    assert!(!game.may_fire(true, false));
    let over = GameState { score: 0, game_over: true, player_health: -8 };
    assert!(!over.may_fire(true, true));
    assert!(!over.is_running());
}

#[test]
fn bite_needs_reach_and_ready_timer() {
    let mut game = GameState::new();
    assert!(!game.enemy_contact(true, false));
    assert!(!game.enemy_contact(false, true));
    assert_eq!(game.player_health, 100);
    assert!(game.enemy_contact(true, true));
    assert_eq!(game.player_health, 100 - BITE_DAMAGE);
    assert_eq!(game.player_health, 88);
    assert!(!game.game_over);
}

#[test]
fn ninth_bite_ends_the_game() {
    let mut game = GameState::new();
    for _ in 0..8 {
        assert!(game.enemy_contact(true, true));
        assert!(!game.game_over);
    }
    assert_eq!(game.player_health, 4);
    assert!(game.enemy_contact(true, true));
    assert_eq!(game.player_health, -8);
    assert!(game.game_over);
    assert!(!game.is_running());
}

#[test]
fn bites_after_game_over_in_the_same_frame_keep_counting() {
    let mut game = GameState { score: 10, game_over: true, player_health: -8 };
    assert!(game.enemy_contact(true, true));
    assert_eq!(game.player_health, -20);
    assert!(game.game_over);
    assert_eq!(game.score, 10);
}

#[test]
fn first_touch_picks_the_earliest() {
    assert_eq!(first_touch(&vec![]), None);
    assert_eq!(first_touch(&vec![false, false]), None);
    assert_eq!(first_touch(&vec![false, true, true]), Some(1));
    assert_eq!(first_touch(&vec![true, true]), Some(0));
}

#[test]
fn spent_bullet_strikes_nothing() {
    let mut game = GameState::new();
    let mut health = vec![2, 2];
    for (expired, out, wall) in [(true, false, false), (false, true, false), (false, false, true)] {
        let outcome = game.resolve_bullet(expired, out, wall, &vec![true, true], &mut health);
        assert!(outcome.despawn);
        assert_eq!(outcome.hit, None);
        assert!(!outcome.killed);
    }
    assert_eq!(health, vec![2, 2]);
    assert_eq!(game.score, 0);
}

#[test]
fn bullet_touching_nothing_flies_on() {
    let mut game = GameState::new();
    let mut health = vec![2, 1];
    let outcome = game.resolve_bullet(false, false, false, &vec![false, false], &mut health);
    assert!(!outcome.despawn);
    assert_eq!(outcome.hit, None);
    assert!(!outcome.killed);
    assert_eq!(health, vec![2, 1]);
    assert_eq!(game.score, 0);
}

#[test]
fn bullet_strikes_only_the_first_enemy_it_touches() {
    let mut game = GameState::new();
    let mut health = vec![2, 2, 2];
    let outcome = game.resolve_bullet(false, false, false, &vec![false, true, true], &mut health);
    assert!(outcome.despawn);
    assert_eq!(outcome.hit, Some(1));
    assert!(!outcome.killed);
    assert_eq!(health, vec![2, 1, 2]);
    assert_eq!(game.score, 0);
}

#[test]
fn fresh_enemy_dies_at_the_second_hit() {
    let mut game = GameState::new();
    let mut health = vec![ENEMY_START_HEALTH];
    let first = game.resolve_bullet(false, false, false, &vec![true], &mut health);
    assert!(!first.killed);
    assert_eq!(health, vec![1]);
    assert_eq!(game.score, 0);
    let second = game.resolve_bullet(false, false, false, &vec![true], &mut health);
    assert!(second.killed);
    assert_eq!(second.hit, Some(0));
    assert_eq!(health, vec![0]);
    assert_eq!(game.score, KILL_POINTS);
    assert_eq!(game.score, 10);
}

#[test]
fn enemy_killed_this_frame_still_scores_when_struck_again() {
    let mut game = GameState { score: 20, game_over: false, player_health: 76 };
    let mut health = vec![0];
    let outcome = game.resolve_bullet(false, false, false, &vec![true], &mut health);
    assert!(outcome.killed);
    assert_eq!(health, vec![-1]);
    assert_eq!(game.score, 30);
    assert_eq!(game.player_health, 76);
}

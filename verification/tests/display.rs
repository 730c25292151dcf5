use bevy_shooter::hud::{hud_text, push_decimal};

#[test]
fn hud_at_start() {
    assert_eq!(
        hud_text(0, 100, false),
        "WASD move  Mouse aim  Hold LMB shoot  Shift sprint\nScore: 0  Health: 100"
    );
}

#[test]
fn hud_after_game_over_clamps_health() {
    assert_eq!(
        hud_text(130, -8, true),
        "WASD move  Mouse aim  Hold LMB shoot  Shift sprint\nScore: 130  Health: 0\nGAME OVER - press R to restart"
    );
}

#[test]
fn hud_matches_format() {
    for (score, health, over) in [(0u32, 88i32, false), (4294967290, 4, true), (10, 0, false)] {
        let shown = if health < 0 { 0 } else { health };
        let end = if over { "\nGAME OVER - press R to restart" } else { "" };
        let expected = format!(
            "WASD move  Mouse aim  Hold LMB shoot  Shift sprint\nScore: {}  Health: {}{}",
            score, shown, end
        );
        assert_eq!(hud_text(score, health, over), expected);
    }
}

#[test]
fn decimal_writing() {
    for n in [0u32, 7, 10, 99, 100, 1234567890, u32::MAX] {
        let mut text = String::from("x");
        push_decimal(&mut text, n);
        assert_eq!(text, format!("x{}", n));
    }
}

//! The heads-up display: the controls line, the score, the player's health and
//! the game-over notice.
use vstd::prelude::*;

verus! {

/// The first part of the display: the controls, then the score label.
pub open spec fn hud_head() -> Seq<char> {
    "WASD move  Mouse aim  Hold LMB shoot  Shift sprint\nScore: "@
}

/// The label between the score and the health.
pub open spec fn hud_health_label() -> Seq<char> {
    "  Health: "@
}

/// The line added once the game is over.
pub open spec fn hud_game_over_notice() -> Seq<char> {
    "\nGAME OVER - press R to restart"@
}

/// The character of a decimal digit.
pub open spec fn digit_char(d: nat) -> char {
    (48 + d) as char
}

/// The decimal writing of a natural number, without sign or leading zeros.
pub open spec fn decimal(n: nat) -> Seq<char>
    decreases n,
{
    if n < 10 {
        seq![digit_char(n)]
    } else {
        decimal(n / 10).push(digit_char(n % 10))
    }
}

/// The health as shown: never below zero.
pub open spec fn shown_health(health: int) -> nat {
    if health < 0 {
        0
    } else {
        health as nat
    }
}

/// The whole text of the display.
pub open spec fn hud_spec(score: u32, health: i32, game_over: bool) -> Seq<char> {
    hud_head() + decimal(score as nat) + hud_health_label() + decimal(shown_health(health as int))
        + if game_over {
        hud_game_over_notice()
    } else {
        Seq::<char>::empty()
    }
}

/// The one-character string of a decimal digit.
fn digit_str(d: u32) -> (s: &'static str)
    requires
        d < 10,
    ensures
        s@ == seq![digit_char(d as nat)],
{
    if d == 0 {
        proof {
            reveal_strlit("0");
        }
        "0"
    } else if d == 1 {
        proof {
            reveal_strlit("1");
        }
        "1"
    } else if d == 2 {
        proof {
            reveal_strlit("2");
        }
        "2"
    } else if d == 3 {
        proof {
            reveal_strlit("3");
        }
        "3"
    } else if d == 4 {
        proof {
            reveal_strlit("4");
        }
        "4"
    } else if d == 5 {
        proof {
            reveal_strlit("5");
        }
        "5"
    } else if d == 6 {
        proof {
            reveal_strlit("6");
        }
        "6"
    } else if d == 7 {
        proof {
            reveal_strlit("7");
        }
        "7"
    } else if d == 8 {
        proof {
            reveal_strlit("8");
        }
        "8"
    } else {
        proof {
            reveal_strlit("9");
        }
        "9"
    }
}

/// Appends the decimal writing of `n` to `text`.
pub fn push_decimal(text: &mut String, n: u32)
    ensures
        final(text)@ == old(text)@ + decimal(n as nat),
        final(text)@.len() > old(text)@.len(),
        final(text)@.subrange(0, old(text)@.len() as int) == old(text)@,
        all_digits(final(text)@.subrange(old(text)@.len() as int, final(text)@.len() as int)),
        digits_value(final(text)@.subrange(old(text)@.len() as int, final(text)@.len() as int)) == n,
        n > 0 ==> final(text)@[old(text)@.len() as int] != '0',
    decreases n,
{
    if n >= 10 {
        push_decimal(text, n / 10);
    }
    text.append(digit_str(n % 10));
    proof {
        lemma_decimal_reads_back(n as nat);
        let whole = text@;
        assert(whole.subrange(0, old(text)@.len() as int) =~= old(text)@);
        assert(whole.subrange(old(text)@.len() as int, whole.len() as int) =~= decimal(n as nat));
    }
}

/// The text of the display for a score, the player's health and whether the
/// game is over. Health below zero shows as zero.
pub fn hud_text(score: u32, health: i32, game_over: bool) -> (text: String)
    ensures
        text@ == hud_spec(score, health, game_over),
        ends_with(text@, "\nGAME OVER - press R to restart"@) <==> game_over,
        game_over ==> text@ == hud_spec(score, health, false) + "\nGAME OVER - press R to restart"@,
        starts_with(text@, "WASD move  Mouse aim  Hold LMB shoot  Shift sprint\nScore: "@),
        health < 0 ==> text@ == hud_spec(score, 0, game_over),
{
    let mut text = String::from_str("WASD move  Mouse aim  Hold LMB shoot  Shift sprint\nScore: ");
    push_decimal(&mut text, score);
    text.append("  Health: ");
    let shown: u32 = if health < 0 {
        0
    } else {
        health as u32
    };
    push_decimal(&mut text, shown);
    if game_over {
        text.append("\nGAME OVER - press R to restart");
    }
    proof {
        assert(shown as nat == shown_health(health as int));
    }
    assert(text@ =~= hud_spec(score, health, game_over));
    proof {
        lemma_hud_layout(score, health, game_over);
    }
    text
}

/// The number a string of decimal digits stands for, read left to right.
pub open spec fn digits_value(s: Seq<char>) -> int
    decreases s.len(),
{
    if s.len() == 0 {
        0
    } else {
        digits_value(s.drop_last()) * 10 + (s.last() as int - 48)
    }
}

/// Every character is a decimal digit.
pub open spec fn all_digits(s: Seq<char>) -> bool {
    forall|i: int| 0 <= i < s.len() ==> 48 <= #[trigger] (s[i] as int) <= 57
}

/// What the display writes for a number reads back as that number: it is made
/// of decimal digits only, with no leading zero, and its value is the number.
pub proof fn lemma_decimal_reads_back(n: nat)
    ensures
        all_digits(decimal(n)),
        decimal(n).len() >= 1,
        n > 0 ==> decimal(n)[0] != '0',
        digits_value(decimal(n)) == n,
    decreases n,
{
    if n >= 10 {
        lemma_decimal_reads_back(n / 10);
        let s = decimal(n);
        assert(s.drop_last() =~= decimal(n / 10));
        assert(s.last() == digit_char(n % 10));
        assert(s[0] == decimal(n / 10)[0]);
        assert(s.last() as int - 48 == n % 10);
        vstd::arithmetic::div_mod::lemma_fundamental_div_mod(n as int, 10);
        assert(digits_value(s) == digits_value(s.drop_last()) * 10 + (s.last() as int - 48));
    } else {
        let s = decimal(n);
        assert(s.drop_last() =~= Seq::<char>::empty());
        assert(digits_value(s.drop_last()) == 0);
    }
}

/// `suffix` is how `s` ends.
pub open spec fn ends_with(s: Seq<char>, suffix: Seq<char>) -> bool {
    suffix.len() <= s.len() && s.subrange(s.len() - suffix.len(), s.len() as int) == suffix
}

/// `prefix` is how `s` begins.
pub open spec fn starts_with(s: Seq<char>, prefix: Seq<char>) -> bool {
    prefix.len() <= s.len() && s.subrange(0, prefix.len() as int) == prefix
}

/// How the display is laid out, for every score and health:
/// - it begins with the controls line and the score label;
/// - it ends with the game-over notice exactly when the game is over, whatever
///   the score and the health, and the notice is then all that is added to the
///   text of a running game;
/// - health below zero shows as zero.
pub proof fn lemma_hud_layout(score: u32, health: i32, game_over: bool)
    ensures
        starts_with(
            hud_spec(score, health, game_over),
            "WASD move  Mouse aim  Hold LMB shoot  Shift sprint\nScore: "@,
        ),
        ends_with(hud_spec(score, health, game_over), "\nGAME OVER - press R to restart"@)
            <==> game_over,
        hud_spec(score, health, true) == hud_spec(score, health, false)
            + "\nGAME OVER - press R to restart"@,
        health < 0 ==> hud_spec(score, health, game_over) == hud_spec(score, 0, game_over),
        exists|a: Seq<char>, b: Seq<char>|
            #![trigger digits_value(a), digits_value(b)]
            {
                &&& all_digits(a) && a.len() >= 1 && digits_value(a) == score
                &&& all_digits(b) && b.len() >= 1 && digits_value(b) == if health < 0 {
                    0
                } else {
                    health as int
                }
                &&& hud_spec(score, health, game_over) == "WASD move  Mouse aim  Hold LMB shoot  Shift sprint\nScore: "@
                    + a + "  Health: "@ + b + if game_over {
                    "\nGAME OVER - press R to restart"@
                } else {
                    Seq::<char>::empty()
                }
            },
{
    let notice = "\nGAME OVER - press R to restart"@;
    let head = "WASD move  Mouse aim  Hold LMB shoot  Shift sprint\nScore: "@;
    reveal_strlit("\nGAME OVER - press R to restart");
    let shown = shown_health(health as int);
    lemma_decimal_reads_back(shown);
    let running = hud_head() + decimal(score as nat) + hud_health_label() + decimal(shown);
    assert(hud_spec(score, health, false) =~= running);
    assert(hud_spec(score, health, true) =~= running + notice);
    assert(hud_spec(score, health, game_over).subrange(0, head.len() as int) =~= head);
    assert((running + notice).subrange(running.len() as int, (running + notice).len() as int)
        =~= notice);
    if !game_over {
        let d = decimal(shown);
        assert(running.last() == d.last());
        assert(48 <= (d[d.len() - 1] as int) <= 57);
        assert(notice.last() == 't');
        if ends_with(running, notice) {
            assert(running.subrange(running.len() - notice.len(), running.len() as int).last()
                == running.last());
        }
    }
    lemma_decimal_reads_back(score as nat);
    let a = decimal(score as nat);
    let b = decimal(shown);
    assert(digits_value(a) == score && digits_value(b) == shown);
    if health < 0 {
        assert(shown_health(0) == shown);
        assert(hud_spec(score, health, game_over) =~= hud_spec(score, 0, game_over));
    }
}

} // verus!

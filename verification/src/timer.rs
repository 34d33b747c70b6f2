//! The game clock and its display.
//!
//! The clock counts the seconds of play since the last point. Its display
//! shows them with one decimal place and is rewritten only once the clock
//! has run more than a tenth of a second ahead of it.

use vstd::prelude::*;
use crate::fixed::Fixed;
use crate::state::Pause;

verus! {

/// Raw steps in a tenth of a unit.
pub const TENTH: i64 = 100_000;

/// The clock: the seconds counted so far, and what the display shows, if
/// there is a display.
#[derive(Clone, Copy, Debug, PartialEq, Eq)]
pub struct TimerText {
    pub game_time: Fixed,
    pub timer: Option<Fixed>,
}

impl Default for TimerText {
    /// A clock at zero without a display.
    fn default() -> (r: TimerText)
        ensures
            r == (TimerText { game_time: Fixed { raw: 0 }, timer: None }),
    {
        TimerText { game_time: Fixed { raw: 0 }, timer: None }
    }
}

/// Number of tenths nearest to the magnitude of `t`; a value halfway between
/// two tenths goes to the even one.
pub open spec fn tenths_of(t: Fixed) -> int {
    let whole = t.abs()@ / (TENTH as int);
    let rest = t.abs()@ % (TENTH as int);
    if rest > TENTH / 2 || (rest == TENTH / 2 && whole % 2 == 1) {
        whole + 1
    } else {
        whole
    }
}

pub open spec fn spec_round_to_tenth(t: Fixed) -> Fixed {
    let rounded = Fixed { raw: tenths_of(t) as i64 }.scaled(TENTH, 1);
    if t.raw < 0 {
        rounded.negated()
    } else {
        rounded
    }
}

/// Number of tenths nearest to the magnitude of `t`.
fn count_tenths(t: Fixed) -> (n: i64)
    ensures
        n == tenths_of(t),
        0 <= n <= 92_233_720_368_548,
{
    let a = t.abs().raw;
    let whole = a / TENTH;
    let rest = a % TENTH;
    if rest > TENTH / 2 || (rest == TENTH / 2 && whole % 2 == 1) {
        whole + 1
    } else {
        whole
    }
}

/// The multiple of a tenth nearest to `t`, as the display shows it.
#[verifier::when_used_as_spec(spec_round_to_tenth)]
pub fn round_to_tenth(t: Fixed) -> (r: Fixed)
    ensures
        r == spec_round_to_tenth(t),
{
    let rounded = Fixed { raw: count_tenths(t) }.scaled(TENTH, 1);
    if t.raw < 0 {
        rounded.negated()
    } else {
        rounded
    }
}

/// The character of a decimal digit.
pub open spec fn digit(d: int) -> char {
    if d == 0 {
        '0'
    } else if d == 1 {
        '1'
    } else if d == 2 {
        '2'
    } else if d == 3 {
        '3'
    } else if d == 4 {
        '4'
    } else if d == 5 {
        '5'
    } else if d == 6 {
        '6'
    } else if d == 7 {
        '7'
    } else if d == 8 {
        '8'
    } else {
        '9'
    }
}

/// The decimal digits of `n`, most significant first, without leading
/// zeros.
pub open spec fn decimal(n: nat) -> Seq<char>
    decreases n,
{
    if n < 10 {
        seq![digit(n as int)]
    } else {
        decimal(n / 10).push(digit((n % 10) as int))
    }
}

/// `t` rounded to tenths and written with one decimal place; a negative
/// `t` keeps its sign even where it rounds to zero.
pub open spec fn one_decimal(t: Fixed) -> Seq<char> {
    let sign = if t.raw < 0 {
        seq!['-']
    } else {
        Seq::<char>::empty()
    };
    sign + decimal((tenths_of(t) / 10) as nat) + seq!['.', digit(tenths_of(t) % 10)]
}

/// The text of one decimal digit.
fn digit_text(d: i64) -> (s: &'static str)
    requires
        0 <= d < 10,
    ensures
        s@ == seq![digit(d as int)],
{
    proof {
        reveal_strlit("0");
        reveal_strlit("1");
        reveal_strlit("2");
        reveal_strlit("3");
        reveal_strlit("4");
        reveal_strlit("5");
        reveal_strlit("6");
        reveal_strlit("7");
        reveal_strlit("8");
        reveal_strlit("9");
    }
    let s = if d == 0 {
        "0"
    } else if d == 1 {
        "1"
    } else if d == 2 {
        "2"
    } else if d == 3 {
        "3"
    } else if d == 4 {
        "4"
    } else if d == 5 {
        "5"
    } else if d == 6 {
        "6"
    } else if d == 7 {
        "7"
    } else if d == 8 {
        "8"
    } else {
        "9"
    };
    s
}

/// Appends the decimal digits of `n` to `text`.
fn append_decimal(text: &mut String, n: i64)
    requires
        n >= 0,
    ensures
        final(text)@ == old(text)@ + decimal(n as nat),
    decreases n,
{
    if n >= 10 {
        append_decimal(text, n / 10);
    }
    text.append(digit_text(n % 10));
}

/// Writes `t` as the display shows it: rounded to tenths, with one decimal
/// place.
pub fn format_seconds(t: Fixed) -> (text: String)
    ensures
        text@ == one_decimal(t),
{
    let tenths = count_tenths(t);
    let mut text = String::new();
    proof {
        reveal_strlit("-");
        reveal_strlit(".");
    }
    if t.raw < 0 {
        text.append("-");
    }
    append_decimal(&mut text, tenths / 10);
    text.append(".");
    text.append(digit_text(tenths % 10));
    text
}

/// The clock after a frame of `dt` seconds. A clock without a display does
/// not count; one with a display counts, and the display follows once it is
/// more than a tenth behind.
pub open spec fn ticked(timer: TimerText, dt: Fixed) -> TimerText {
    match timer.timer {
        Some(shown) => {
            let now = timer.game_time.plus(dt);
            TimerText {
                game_time: now,
                timer: if now.minus(shown).raw > TENTH {
                    Some(round_to_tenth(now))
                } else {
                    Some(shown)
                },
            }
        },
        None => timer,
    }
}

/// The clock after a point: back at zero, and so is the display.
pub open spec fn restarted(timer: TimerText) -> TimerText {
    TimerText {
        game_time: Fixed { raw: 0 },
        timer: match timer.timer {
            Some(_) => Some(Fixed { raw: 0 }),
            None => None,
        },
    }
}

impl TimerText {
    /// The text on the display, if there is a display.
    pub fn text(&self) -> (r: Option<String>)
        ensures
            match self.timer {
                Some(shown) => r is Some && r->0@ == one_decimal(shown),
                None => r is None,
            },
    {
        match self.timer {
            Some(shown) => Some(format_seconds(shown)),
            None => None,
        }
    }

    /// Sets clock and display back to zero.
    pub fn restart(&mut self)
        ensures
            *final(self) == restarted(*old(self)),
    {
        self.game_time = Fixed { raw: 0 };
        if self.timer.is_some() {
            self.timer = Some(Fixed { raw: 0 });
        }
    }
}

/// The stage of a frame that runs the clock.
pub struct TimerSystem;

impl TimerSystem {
    /// Counts `dt` seconds, unless the game is paused.
    pub fn run(&mut self, timer_text: &mut TimerText, dt: Fixed, pause: &Pause)
        ensures
            *final(timer_text) == if pause.paused {
                *old(timer_text)
            } else {
                ticked(*old(timer_text), dt)
            },
    {
        if pause.paused {
            return ;
        }
        if let Some(shown) = timer_text.timer {
            let now = timer_text.game_time.plus(dt);
            timer_text.game_time = now;
            if now.minus(shown).raw > TENTH {
                timer_text.timer = Some(round_to_tenth(now));
            }
        }
    }
}

} // verus!

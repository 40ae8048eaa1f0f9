//! Text for a terminal: a time as minutes and seconds, and progress bars of a
//! hundred cells.

use crate::integer::toward_zero;
use vstd::prelude::*;
use vstd::string::*;

verus! {

/// The left end of a bar in the glyphs of the Fira Code font, empty.
pub const FIRA_LEFT_EMPTY: char = '\u{ee00}';

/// A middle cell of such a bar, empty.
pub const FIRA_MIDDLE_EMPTY: char = '\u{ee01}';

/// The right end of such a bar, empty.
pub const FIRA_RIGHT_EMPTY: char = '\u{ee02}';

/// The left end of such a bar, filled.
pub const FIRA_LEFT_FILLED: char = '\u{ee03}';

/// A middle cell of such a bar, filled.
pub const FIRA_MIDDLE_FILLED: char = '\u{ee04}';

/// The right end of such a bar, filled.
pub const FIRA_RIGHT_FILLED: char = '\u{ee05}';

/// The character of a decimal digit.
pub open spec fn digit(value: int) -> char
    recommends
        0 <= value < 10,
{
    if value == 0 {
        '0'
    } else if value == 1 {
        '1'
    } else if value == 2 {
        '2'
    } else if value == 3 {
        '3'
    } else if value == 4 {
        '4'
    } else if value == 5 {
        '5'
    } else if value == 6 {
        '6'
    } else if value == 7 {
        '7'
    } else if value == 8 {
        '8'
    } else {
        '9'
    }
}

/// The decimal digits of a natural number, without leading zeros.
pub open spec fn digits(n: nat) -> Seq<char>
    decreases n,
{
    if n < 10 {
        seq![digit(n as int)]
    } else {
        digits(n / 10).push(digit((n % 10) as int))
    }
}

/// An integer in decimal, with a minus sign where it is negative.
pub open spec fn decimal(n: int) -> Seq<char> {
    if n < 0 {
        seq!['-'] + digits((-n) as nat)
    } else {
        digits(n as nat)
    }
}

/// An integer in decimal, at least two characters wide: a single digit gets a
/// zero in front.
pub open spec fn two_wide(n: int) -> Seq<char> {
    if 0 <= n < 10 {
        seq!['0'] + decimal(n)
    } else {
        decimal(n)
    }
}

/// A time in microseconds as minutes, a colon and seconds: whole seconds only,
/// the seconds two digits wide.
pub open spec fn human_time_spec(microsecs: int) -> Seq<char> {
    let secs = toward_zero(microsecs, 1_000_000);
    let minutes = toward_zero(secs, 60);
    decimal(minutes) + seq![':'] + two_wide(secs - 60 * minutes)
}

/// `count` times the character `cell`.
pub open spec fn repeated(cell: char, count: nat) -> Seq<char> {
    Seq::new(count, |i: int| cell)
}

/// The bar in plain characters: a bracket, an equals sign for each hundredth
/// that has played, a blank for each that has not, a bracket.
pub open spec fn progress_bar_ascii_spec(pos_percent: nat) -> Seq<char>
    recommends
        pos_percent <= 100,
{
    seq!['['] + repeated('=', pos_percent) + repeated(' ', (100 - pos_percent) as nat) + seq![']']
}

/// `n` less two, or nothing where that is less than nothing.
pub open spec fn less_two(n: int) -> nat {
    if n >= 2 {
        (n - 2) as nat
    } else {
        0
    }
}

/// The bar in the glyphs of Fira Code: a left end that is filled from the
/// first hundredth on, a right end that is filled at a hundred, and between
/// them filled cells for the hundredths played, less two, and empty cells for
/// those not played, less two.
pub open spec fn progress_bar_fira_spec(pos_percent: nat) -> Seq<char> {
    seq![if pos_percent >= 1 {
        FIRA_LEFT_FILLED
    } else {
        FIRA_LEFT_EMPTY
    }] + repeated(FIRA_MIDDLE_FILLED, less_two(pos_percent as int)) + repeated(
        FIRA_MIDDLE_EMPTY,
        less_two(100 - pos_percent),
    ) + seq![if pos_percent >= 100 {
        FIRA_RIGHT_FILLED
    } else {
        FIRA_RIGHT_EMPTY
    }]
}

/// The text of one decimal digit.
fn digit_text(value: u64) -> (text: &'static str)
    requires
        value < 10,
    ensures
        text@ == seq![digit(value as int)],
{
    proof {
        reveal_strlit("0");
        reveal_strlit("1");
        reveal_strlit("2");
        reveal_strlit("3");
        reveal_strlit("4");
        reveal_strlit("5");
        reveal_strlit("6");
        reveal_strlit("7");
        reveal_strlit("8");
        reveal_strlit("9");
    }
    let text: &'static str = if value == 0 {
        "0"
    } else if value == 1 {
        "1"
    } else if value == 2 {
        "2"
    } else if value == 3 {
        "3"
    } else if value == 4 {
        "4"
    } else if value == 5 {
        "5"
    } else if value == 6 {
        "6"
    } else if value == 7 {
        "7"
    } else if value == 8 {
        "8"
    } else {
        "9"
    };
    assert(text@ =~= seq![digit(value as int)]);
    text
}

/// A natural number in decimal.
fn natural_text(n: u64) -> (text: String)
    ensures
        text@ == digits(n as nat),
    decreases n,
{
    if n < 10 {
        digit_text(n).to_owned()
    } else {
        let mut text: String = natural_text(n / 10);
        text.append(digit_text(n % 10));
        assert(text@ =~= digits(n as nat));
        text
    }
}

/// An integer in decimal.
pub fn integer_text(n: i64) -> (text: String)
    ensures
        text@ == decimal(n as int),
{
    if n < 0 {
        let magnitude: u64 = (-(n + 1)) as u64 + 1;
        proof {
            reveal_strlit("-");
        }
        let text: String = "-".to_owned().concat(natural_text(magnitude).as_str());
        assert(text@ =~= decimal(n as int));
        text
    } else {
        natural_text(n as u64)
    }
}

/// A time in microseconds as minutes and seconds.
pub fn human_time(microsecs: i64) -> (text: String)
    ensures
        text@ == human_time_spec(microsecs as int),
{
    let secs: i64 = microsecs / 1_000_000;
    let minutes: i64 = secs / 60;
    let seconds: i64 = secs - 60 * minutes;
    proof {
        reveal_strlit(":");
        reveal_strlit("0");
    }
    let mut text: String = integer_text(minutes);
    text.append(":");
    if 0 <= seconds && seconds < 10 {
        text.append("0");
    }
    text.append(integer_text(seconds).as_str());
    assert(text@ =~= human_time_spec(microsecs as int));
    text
}

/// `count` times the one character of `cell`, after `text`.
fn append_repeated(text: &mut String, cell: &str, count: usize)
    requires
        cell@.len() == 1,
    ensures
        final(text)@ == old(text)@ + repeated(cell@[0], count as nat),
{
    let mut i: usize = 0;
    assert(text@ =~= old(text)@ + repeated(cell@[0], 0));
    while i < count
        invariant
            i <= count,
            cell@.len() == 1,
            text@ == old(text)@ + repeated(cell@[0], i as nat),
        decreases count - i,
    {
        text.append(cell);
        i = i + 1;
        assert(text@ =~= old(text)@ + repeated(cell@[0], i as nat));
    }
}

/// The progress bar in plain characters for a share played of `pos_percent`
/// hundredths.
pub fn progress_bar_ascii(pos_percent: usize) -> (bar: String)
    requires
        pos_percent <= 100,
    ensures
        bar@ == progress_bar_ascii_spec(pos_percent as nat),
{
    proof {
        reveal_strlit("[");
        reveal_strlit("=");
        reveal_strlit(" ");
        reveal_strlit("]");
    }
    let mut bar: String = "[".to_owned();
    append_repeated(&mut bar, "=", pos_percent);
    append_repeated(&mut bar, " ", 100 - pos_percent);
    bar.append("]");
    assert(bar@ =~= progress_bar_ascii_spec(pos_percent as nat));
    bar
}

/// The progress bar in the glyphs of Fira Code for a share played of
/// `pos_percent` hundredths.
pub fn progress_bar_fira(pos_percent: usize) -> (bar: String)
    requires
        pos_percent <= i64::MAX,
    ensures
        bar@ == progress_bar_fira_spec(pos_percent as nat),
{
    proof {
        reveal_strlit("\u{ee00}");
        reveal_strlit("\u{ee01}");
        reveal_strlit("\u{ee02}");
        reveal_strlit("\u{ee03}");
        reveal_strlit("\u{ee04}");
        reveal_strlit("\u{ee05}");
    }
    let mut bar: String = if pos_percent >= 1 {
        "\u{ee03}".to_owned()
    } else {
        "\u{ee00}".to_owned()
    };
    let filled: usize = if pos_percent >= 2 {
        pos_percent - 2
    } else {
        0
    };
    let empty: usize = if pos_percent <= 98 {
        98 - pos_percent
    } else {
        0
    };
    append_repeated(&mut bar, "\u{ee04}", filled);
    append_repeated(&mut bar, "\u{ee01}", empty);
    if pos_percent >= 100 {
        bar.append("\u{ee05}");
    } else {
        bar.append("\u{ee02}");
    }
    assert(bar@ =~= progress_bar_fira_spec(pos_percent as nat));
    bar
}

} // verus!

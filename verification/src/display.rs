//! What the user is shown: the time left as clock text, and the caption and
//! the message of the button that starts and stops the countdown.

use vstd::prelude::*;
use vstd::string::StringExecFns;
use crate::span::Span;
use crate::timer::Message;
use crate::timer::TickState;
use crate::timer::HOUR;
use crate::timer::MINUTE;

verus! {

/// The character of the decimal digit `d`.
pub open spec fn digit_char(d: nat) -> char
    recommends
        d < 10,
{
    if d == 0 {
        '0'
    } else if d == 1 {
        '1'
    } else if d == 2 {
        '2'
    } else if d == 3 {
        '3'
    } else if d == 4 {
        '4'
    } else if d == 5 {
        '5'
    } else if d == 6 {
        '6'
    } else if d == 7 {
        '7'
    } else if d == 8 {
        '8'
    } else {
        '9'
    }
}

/// `n` in decimal, without leading zeros.
pub open spec fn decimal(n: nat) -> Seq<char>
    decreases n,
{
    if n < 10 {
        seq![digit_char(n)]
    } else {
        decimal(n / 10).push(digit_char(n % 10))
    }
}

/// `n` in decimal, with a leading zero where it has one digit only.
pub open spec fn two_digits(n: nat) -> Seq<char> {
    if n < 10 {
        seq!['0', digit_char(n)]
    } else {
        decimal(n)
    }
}

/// A span of `nanos` nanoseconds as hours, minutes, seconds and hundredths
/// of a second: `HH:MM:SS.cc`. The hundredths are the whole milliseconds of
/// the second begun, divided by ten.
pub open spec fn clock_text(nanos: nat) -> Seq<char> {
    let secs = nanos / 1_000_000_000;
    let millis = (nanos % 1_000_000_000) / 1_000_000;
    two_digits(secs / 3600) + seq![':'] + two_digits((secs % 3600) / 60) + seq![':'] + two_digits(
        secs % 60,
    ) + seq!['.'] + two_digits(millis / 10)
}

/// The caption of the start and stop button in each phase.
pub open spec fn label_of(state: TickState) -> Seq<char> {
    match state {
        TickState::Stopped => "Start"@,
        TickState::Ticking => "Stop"@,
        TickState::Alert => "Alert"@,
    }
}

fn digit_str(d: u64) -> (r: &'static str)
    requires
        d < 10,
    ensures
        r@ == seq![digit_char(d as nat)],
{
    proof {
        reveal_strlit("0");
        reveal_strlit("1");
        reveal_strlit("2");
        reveal_strlit("3");
        reveal_strlit("4");
        reveal_strlit("5");
        reveal_strlit("6");
        reveal_strlit("7");
        reveal_strlit("8");
        reveal_strlit("9");
    }
    let r = match d {
        0 => "0",
        1 => "1",
        2 => "2",
        3 => "3",
        4 => "4",
        5 => "5",
        6 => "6",
        7 => "7",
        8 => "8",
        _ => "9",
    };
    assert(r@ =~= seq![digit_char(d as nat)]);
    r
}

fn push_decimal(text: &mut String, n: u64)
    ensures
        final(text)@ == old(text)@ + decimal(n as nat),
    decreases n,
{
    if n >= 10 {
        push_decimal(text, n / 10);
    }
    text.append(digit_str(n % 10));
    assert(final(text)@ =~= old(text)@ + decimal(n as nat));
}

fn push_two_digits(text: &mut String, n: u64)
    ensures
        final(text)@ == old(text)@ + two_digits(n as nat),
{
    if n < 10 {
        proof {
            reveal_strlit("0");
        }
        text.append("0");
    }
    push_decimal(text, n);
    assert(final(text)@ =~= old(text)@ + two_digits(n as nat));
}

/// The time left as clock text, `HH:MM:SS.cc`.
pub fn duration_text(duration: Span) -> (text: String)
    ensures
        text@ == clock_text(duration@),
{
    let seconds: u64 = duration.as_secs();
    let millis: u32 = duration.subsec_millis();
    let mut text = String::new();
    proof {
        reveal_strlit(":");
        reveal_strlit(".");
    }
    push_two_digits(&mut text, seconds / HOUR);
    text.append(":");
    push_two_digits(&mut text, (seconds % HOUR) / MINUTE);
    text.append(":");
    push_two_digits(&mut text, seconds % MINUTE);
    text.append(".");
    push_two_digits(&mut text, (millis / 10) as u64);
    assert(text@ =~= clock_text(duration@));
    text
}

/// A number below one hundred is written with exactly two digits.
pub proof fn lemma_two_digits_below_hundred(n: nat)
    requires
        n < 100,
    ensures
        two_digits(n) =~= seq![digit_char(n / 10), digit_char(n % 10)],
{
    reveal_with_fuel(decimal, 2);
}

/// Below one hundred hours the clock text has eleven characters: two digits
/// each for the hours, the minutes, the seconds and the hundredths, with a
/// colon after the hours and after the minutes and a point after the seconds.
pub proof fn lemma_clock_text_shape(nanos: nat)
    requires
        nanos < 360_000_000_000_000,
    ensures
        clock_text(nanos).len() == 11,
        clock_text(nanos)[2] == ':',
        clock_text(nanos)[5] == ':',
        clock_text(nanos)[8] == '.',
{
    let secs = nanos / 1_000_000_000;
    let millis = (nanos % 1_000_000_000) / 1_000_000;
    lemma_two_digits_below_hundred(secs / 3600);
    lemma_two_digits_below_hundred((secs % 3600) / 60);
    lemma_two_digits_below_hundred(secs % 60);
    lemma_two_digits_below_hundred(millis / 10);
}

/// The caption of the start and stop button: what pressing it does in the
/// phase `state`.
pub fn start_stop_label(state: TickState) -> (label: &'static str)
    ensures
        label@ == label_of(state),
{
    match state {
        TickState::Stopped => "Start",
        TickState::Ticking => "Stop",
        TickState::Alert => "Alert",
    }
}

/// The message that the start and stop button sends in the phase `state`.
pub fn start_stop_message(state: TickState) -> (message: Message)
    ensures
        message == match state {
            TickState::Stopped => Message::Start,
            TickState::Ticking => Message::Stop,
            TickState::Alert => Message::AlertStop,
        },
{
    match state {
        TickState::Stopped => Message::Start,
        TickState::Ticking => Message::Stop,
        TickState::Alert => Message::AlertStop,
    }
}

} // verus!

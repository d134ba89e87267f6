//! Text that the notifications are made of: decimal numbers, clock times,
//! places, and the sentences themselves.

use crate::time::Span;
use vstd::prelude::*;
use vstd::string::StringExecFns;

verus! {

/// Somebody opens a race in a channel that has none.
pub const OPENED: &'static str = " opened a race! Anyone who wants to play please !enter the race";

/// Somebody opens a race where one is open already.
pub const ALREADY_OPENED: &'static str = "already opened!";

/// Somebody opens a race while one is running.
pub const OPEN_WHILE_RUNNING: &'static str = "race already in progress!";

/// Somebody enters, gets ready or leaves where no race is open.
pub const NONE_OPEN: &'static str = "Can't enter race, none are open!";

/// Somebody enters an open race.
pub const ENTERED: &'static str =
    " entered the race! Please !ready when you're ready to start, !leave if you change your mind.";

/// Somebody enters an open race a second time.
pub const ALREADY_ENTERED: &'static str = " has already entered the race.";

/// Somebody enters while the race is running.
pub const ENTER_WHILE_RUNNING: &'static str = "Can't enter race, it's already in progress!";

/// An entrant gets ready.
pub const IS_READY: &'static str = " is ready to play!";

/// An entrant gets ready a second time.
pub const ALREADY_READY: &'static str = " was already ready.";

/// The last entrant is ready: the race starts.
pub const ALL_READY: &'static str = "All players ready, starting race!";

/// Somebody gets ready or leaves while the race is running.
pub const READY_WHILE_RUNNING: &'static str = "Can't ready up, game in progress.";

/// Somebody leaves an open race.
pub const LEFT: &'static str = " left the race.";

/// Somebody finishes where no race is open.
pub const DONE_WHILE_CLOSED: &'static str = "Can't finish race, it's not open yet!";

/// Somebody finishes before the race has started.
pub const DONE_WHILE_OPEN: &'static str = "Can't finish race, it's not started yet!";

/// A racer finishes: between the racer and the place.
pub const FINISHED_IN: &'static str = " finished in ";

/// A racer finishes: between the place and the time.
pub const PLACE_WITH_TIME: &'static str = " place with a time of ";

/// The end of a sentence that ends with a time.
pub const BANG: &'static str = "!";

/// A racer who has finished finishes or forfeits again.
pub const ALREADY_FINISHED: &'static str = " was already finished.";

/// A racer who has forfeited finishes or forfeits again.
pub const ALREADY_FORFEITED: &'static str = " was already forfeited.";

/// The last racer has finished or forfeited: the race is over.
pub const ALL_FINISHED: &'static str = "All players finished, race is over!";

/// Somebody forfeits where no race is open.
pub const FORFEIT_WHILE_CLOSED: &'static str = "Can't forfeit from race, it's not open yet!";

/// Somebody forfeits before the race has started.
pub const FORFEIT_WHILE_OPEN: &'static str = "Can't forfeit from race, it's not started yet!";

/// A racer forfeits: between the racer and the time.
pub const FORFEIT_AT: &'static str = " forfeit at ";

/// The character that stands for the digit `d`.
pub open spec fn digit_char(d: nat) -> char
    recommends
        d < 10,
{
    (d + 48) as u8 as char
}

/// `n` written in base ten, without leading zeros.
pub open spec fn decimal(n: nat) -> Seq<char>
    decreases n,
{
    if n < 10 {
        seq![digit_char(n)]
    } else {
        decimal(n / 10).push(digit_char(n % 10))
    }
}

/// `n` written in base ten, with a leading zero where it has one digit only.
pub open spec fn two_digits(n: nat) -> Seq<char> {
    if n < 10 {
        seq!['0'] + decimal(n)
    } else {
        decimal(n)
    }
}

/// A span of `secs` whole seconds as hours, minutes and seconds. The hours
/// are not reduced modulo a day.
pub open spec fn nice_time(secs: nat) -> Seq<char> {
    two_digits(secs / 3600) + seq![':'] + two_digits((secs / 60) % 60) + seq![':'] + two_digits(
        secs % 60,
    )
}

/// The English ending of the ordinal of `n`: "th" from eleven to thirteen in
/// every hundred, else by the last digit.
pub open spec fn ordinal_suffix(n: nat) -> Seq<char> {
    if 11 <= n % 100 <= 13 {
        "th"@
    } else if n % 10 == 1 {
        "st"@
    } else if n % 10 == 2 {
        "nd"@
    } else if n % 10 == 3 {
        "rd"@
    } else {
        "th"@
    }
}

/// The ordinal of `n`: its digits and its ending.
pub open spec fn ordinal_text(n: nat) -> Seq<char> {
    decimal(n) + ordinal_suffix(n)
}

/// What is said when `who` finishes in place `place` after `secs` seconds.
pub open spec fn finished_text(who: Seq<char>, place: nat, secs: nat) -> Seq<char> {
    who + FINISHED_IN@ + ordinal_text(place) + PLACE_WITH_TIME@ + nice_time(secs) + BANG@
}

/// What is said when `who` forfeits after `secs` seconds.
pub open spec fn forfeited_text(who: Seq<char>, secs: nat) -> Seq<char> {
    who + FORFEIT_AT@ + nice_time(secs) + BANG@
}

/// `String::push` appends one character.
pub assume_specification[ String::push ](s: &mut String, c: char)
    ensures
        final(s)@ == old(s)@.push(c),
;

/// `Ordinal`'s `Display` from the crate `ordinal`, on a `usize`: the number
/// as `usize` prints it, in base ten, and after it the ending that `suffix`
/// picks by the number's last two digits.
#[verifier::external_body]
fn ordinal_of(n: usize) -> (text: String)
    ensures
        text@ == ordinal_text(n as nat),
{
    ordinal::Ordinal::from(n).to_string()
}

fn digit(d: u128) -> (c: char)
    requires
        d < 10,
    ensures
        c == digit_char(d as nat),
{
    (d as u8 + 48) as char
}

/// Appends `n` in base ten to `s`.
pub fn push_decimal(s: &mut String, n: u128)
    ensures
        final(s)@ == old(s)@ + decimal(n as nat),
    decreases n,
{
    if n >= 10 {
        push_decimal(s, n / 10);
    }
    s.push(digit(n % 10));
}

fn push_two_digits(s: &mut String, n: u128)
    ensures
        final(s)@ == old(s)@ + two_digits(n as nat),
{
    if n < 10 {
        s.push('0');
    }
    push_decimal(s, n);
}

/// Renders a span as `HH:MM:SS`. What is left of a second is dropped, and
/// the hours run on past a day.
pub fn make_nice_time(elapsed: Span) -> (text: String)
    ensures
        text@ == nice_time(elapsed.secs()),
{
    let secs: u128 = elapsed.whole_secs();
    let mut text = String::new();
    push_two_digits(&mut text, secs / 3600);
    text.push(':');
    push_two_digits(&mut text, (secs / 60) % 60);
    text.push(':');
    push_two_digits(&mut text, secs % 60);
    text
}

/// Renders a place with its English ending: 1st, 2nd, 3rd, 4th, 11th, 21st.
pub fn nth(place: usize) -> (text: String)
    ensures
        text@ == ordinal_text(place as nat),
{
    ordinal_of(place)
}

/// A sentence about `who`: the name, then `rest`.
pub fn sentence(who: &str, rest: &str) -> (text: String)
    ensures
        text@ == who@ + rest@,
{
    let mut text = who.to_owned();
    text.append(rest);
    text
}

/// The sentence for a racer who finishes.
pub fn finished_notice(who: &str, place: usize, elapsed: Span) -> (text: String)
    ensures
        text@ == finished_text(who@, place as nat, elapsed.secs()),
{
    let mut text = sentence(who, FINISHED_IN);
    text.append(nth(place).as_str());
    text.append(PLACE_WITH_TIME);
    text.append(make_nice_time(elapsed).as_str());
    text.append(BANG);
    text
}

/// The sentence for a racer who forfeits.
pub fn forfeited_notice(who: &str, elapsed: Span) -> (text: String)
    ensures
        text@ == forfeited_text(who@, elapsed.secs()),
{
    let mut text = sentence(who, FORFEIT_AT);
    text.append(make_nice_time(elapsed).as_str());
    text.append(BANG);
    text
}

} // verus!

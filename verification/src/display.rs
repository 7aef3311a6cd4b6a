//! How indexes, activity and durations are shown.

use vstd::prelude::*;
use crate::text::{decimal, push_decimal, push_signed_decimal, signed_decimal};

verus! {

/// The code that ends a colour.
pub const RESET: &'static str = "\x1b[0m";

/// The code for white.
pub const WHITE: &'static str = "\x1b[37m";

/// The code for green.
pub const GREEN: &'static str = "\x1b[32m";

/// The code for yellow.
pub const YELLOW: &'static str = "\x1b[33m";

/// The code for magenta.
pub const MAGENTA: &'static str = "\x1b[35m";

/// The code for gray.
pub const GRAY: &'static str = "\x1b[90m";

/// A display index between the codes for gray.
pub open spec fn index_text(idx: nat) -> Seq<char> {
    "\x1b[90m"@ + decimal(idx) + "\x1b[0m"@
}

/// A display index in gray.
pub fn colored_index(idx: usize) -> (r: String)
    ensures
        r@ == index_text(idx as nat),
{
    let mut r = String::from_str(GRAY);
    push_decimal(&mut r, idx as u64);
    r.append(RESET);
    r
}

/// The symbol and colour of a running task: a yellow warning where its window is known
/// to be closed, else a dot, yellow where the task is known to be idle and green
/// otherwise.
pub open spec fn running_look(tmux_alive: Option<bool>, active: Option<bool>) -> (
    Seq<char>,
    Seq<char>,
) {
    if tmux_alive == Some(false) {
        ("⚠"@, "\x1b[33m"@)
    } else if active == Some(false) {
        ("●"@, "\x1b[33m"@)
    } else {
        ("●"@, "\x1b[32m"@)
    }
}

/// The symbol and colour of a running task.
pub fn running_icon(tmux_alive: Option<bool>, active: Option<bool>) -> (r: (
    &'static str,
    &'static str,
))
    ensures
        (r.0@, r.1@) == running_look(tmux_alive, active),
{
    match tmux_alive {
        Some(false) => ("⚠", YELLOW),
        _ => match active {
            Some(false) => ("●", YELLOW),
            _ => ("●", GREEN),
        },
    }
}

/// A duration in words: seconds below a minute, minutes and seconds below an hour,
/// hours and minutes from there; a part that is zero is left out, but for `0s`.
pub open spec fn duration_text(secs: int) -> Seq<char> {
    if secs < 60 {
        signed_decimal(secs) + "s"@
    } else if secs < 3600 {
        if secs % 60 == 0 {
            decimal((secs / 60) as nat) + "m"@
        } else {
            decimal((secs / 60) as nat) + "m "@ + decimal((secs % 60) as nat) + "s"@
        }
    } else {
        if (secs % 3600) / 60 == 0 {
            decimal((secs / 3600) as nat) + "h"@
        } else {
            decimal((secs / 3600) as nat) + "h "@ + decimal(((secs % 3600) / 60) as nat) + "m"@
        }
    }
}

/// A duration in words, such as `45s`, `1m 30s` or `2h`.
pub fn format_duration(secs: i64) -> (r: String)
    ensures
        r@ == duration_text(secs as int),
{
    let mut r = String::new();
    if secs < 60 {
        push_signed_decimal(&mut r, secs);
        r.append("s");
        assert(r@ =~= signed_decimal(secs as int) + "s"@);
    } else if secs < 3600 {
        let mins: u64 = (secs / 60) as u64;
        let rest: u64 = (secs % 60) as u64;
        push_decimal(&mut r, mins);
        if rest == 0 {
            r.append("m");
            assert(r@ =~= decimal(mins as nat) + "m"@);
        } else {
            r.append("m ");
            push_decimal(&mut r, rest);
            r.append("s");
            assert(r@ =~= decimal(mins as nat) + "m "@ + decimal(rest as nat) + "s"@);
        }
    } else {
        let hours: u64 = (secs / 3600) as u64;
        let mins: u64 = ((secs % 3600) / 60) as u64;
        push_decimal(&mut r, hours);
        if mins == 0 {
            r.append("h");
            assert(r@ =~= decimal(hours as nat) + "h"@);
        } else {
            r.append("h ");
            push_decimal(&mut r, mins);
            r.append("m");
            assert(r@ =~= decimal(hours as nat) + "h "@ + decimal(mins as nat) + "m"@);
        }
    }
    r
}

} // verus!

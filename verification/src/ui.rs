//! In-game UI: the virtual-time clock and its display text.

use vstd::prelude::*;
use crate::registry::{ObjectEntry, ScopedRegistry};

verus! {

/// The plugin that installs the in-game UI.
pub struct UiPlugin;

/// Virtual time: advances with the frames only while unpaused, in whole
/// seconds here since only seconds are displayed.
#[derive(Debug, PartialEq, Eq, Structural, Clone, Copy)]
pub struct VirtualClock {
    pub elapsed_seconds: u64,
    pub paused: bool,
}

impl VirtualClock {
    pub fn new() -> (r: VirtualClock)
        ensures
            r.elapsed_seconds == 0,
            !r.paused,
    {
        VirtualClock { elapsed_seconds: 0, paused: false }
    }

    /// Advance virtual time by one frame's delta; a paused clock stands
    /// still.
    pub fn tick(&mut self, delta_seconds: u64)
        requires
            old(self).elapsed_seconds + delta_seconds <= u64::MAX,
        ensures
            final(self).paused == old(self).paused,
            final(self).elapsed_seconds == if old(self).paused {
                old(self).elapsed_seconds as int
            } else {
                old(self).elapsed_seconds + delta_seconds
            },
    {
        if !self.paused {
            self.elapsed_seconds = self.elapsed_seconds + delta_seconds;
        }
    }

    pub fn pause(&mut self)
        ensures
            final(self).paused,
            final(self).elapsed_seconds == old(self).elapsed_seconds,
    {
        self.paused = true;
    }

    pub fn unpause(&mut self)
        ensures
            !final(self).paused,
            final(self).elapsed_seconds == old(self).elapsed_seconds,
    {
        self.paused = false;
    }
}

/// The live objects of the virtual-time display: the anchored container and
/// the text inside it. Neither is scoped: the display persists like the
/// clock it shows.
#[derive(Debug, PartialEq, Eq, Structural, Clone, Copy)]
pub struct TimerUi {
    pub root: u64,
    pub text: u64,
}

/// Spawn the virtual-time display.
pub fn spawn_timer(registry: &mut ScopedRegistry) -> (ui: TimerUi)
    requires
        old(registry).next_id + 2 <= u64::MAX,
    ensures
        final(registry).next_id == old(registry).next_id + 2,
        final(registry).entries@ == old(registry).entries@.push(
            ObjectEntry { id: ui.root, scope: None },
        ).push(ObjectEntry { id: ui.text, scope: None }),
        ui.root == old(registry).next_id,
        ui.text == old(registry).next_id + 1,
{
    let root = registry.register(None);
    let text = registry.register(None);
    TimerUi { root, text }
}

/// The decimal digit character of a value below ten.
pub open spec fn dec_digit(d: int) -> char {
    if d == 0 {
        '0'
    } else if d == 1 {
        '1'
    } else if d == 2 {
        '2'
    } else if d == 3 {
        '3'
    } else if d == 4 {
        '4'
    } else if d == 5 {
        '5'
    } else if d == 6 {
        '6'
    } else if d == 7 {
        '7'
    } else if d == 8 {
        '8'
    } else {
        '9'
    }
}

/// The decimal digits of a non-negative value, most significant first.
pub open spec fn spec_decimal(n: int) -> Seq<char>
    decreases n,
{
    if n < 10 {
        seq![dec_digit(n)]
    } else {
        spec_decimal(n / 10).push(dec_digit(n % 10))
    }
}

/// The decimal digits padded to at least two places with a leading zero.
pub open spec fn spec_two_digits(n: int) -> Seq<char> {
    if n < 10 {
        seq!['0'].push(dec_digit(n))
    } else {
        spec_decimal(n)
    }
}

fn digit_str(d: u64) -> (s: &'static str)
    requires
        d < 10,
    ensures
        s@ == seq![dec_digit(d as int)],
{
    proof {
        reveal_strlit("0");
        reveal_strlit("1");
        reveal_strlit("2");
        reveal_strlit("3");
        reveal_strlit("4");
        reveal_strlit("5");
        reveal_strlit("6");
        reveal_strlit("7");
        reveal_strlit("8");
        reveal_strlit("9");
    }
    let s: &'static str = if d == 0 {
        "0"
    } else if d == 1 {
        "1"
    } else if d == 2 {
        "2"
    } else if d == 3 {
        "3"
    } else if d == 4 {
        "4"
    } else if d == 5 {
        "5"
    } else if d == 6 {
        "6"
    } else if d == 7 {
        "7"
    } else if d == 8 {
        "8"
    } else {
        "9"
    };
    proof {
        assert(s@ =~= seq![dec_digit(d as int)]);
    }
    s
}

/// The decimal text of a value, no padding.
pub fn decimal_string(n: u64) -> (s: String)
    ensures
        s@ == spec_decimal(n as int),
    decreases n,
{
    if n < 10 {
        let s = String::from_str(digit_str(n));
        s
    } else {
        let mut s = decimal_string(n / 10);
        s.append(digit_str(n % 10));
        proof {
            assert(s@ =~= spec_decimal((n / 10) as int).push(dec_digit((n % 10) as int)));
        }
        s
    }
}

/// The decimal text of a value, zero-padded to at least two places.
pub fn two_digit_string(n: u64) -> (s: String)
    ensures
        s@ == spec_two_digits(n as int),
{
    if n < 10 {
        let mut s = String::from_str("0");
        s.append(digit_str(n));
        proof {
            reveal_strlit("0");
            assert(s@ =~= seq!['0'].push(dec_digit(n as int)));
        }
        s
    } else {
        decimal_string(n)
    }
}

/// The virtual-time info text for an elapsed time: hours, minutes and
/// seconds, each zero-padded to two places.
pub open spec fn spec_time_text(total_seconds: int) -> Seq<char> {
    "virtual: "@ + spec_two_digits(total_seconds / 3600) + ":"@ + spec_two_digits(
        (total_seconds % 3600) / 60,
    ) + ":"@ + spec_two_digits(total_seconds % 60)
}

/// Render the virtual-time info text shown in the corner of the screen.
pub fn update_virtual_time_info_text(clock: &VirtualClock) -> (s: String)
    ensures
        s@ == spec_time_text(clock.elapsed_seconds as int),
{
    let total = clock.elapsed_seconds;
    let hours = total / 3600;
    let minutes = (total % 3600) / 60;
    let seconds = total % 60;
    let mut s = String::from_str("virtual: ");
    s.append(two_digit_string(hours).as_str());
    s.append(":");
    s.append(two_digit_string(minutes).as_str());
    s.append(":");
    s.append(two_digit_string(seconds).as_str());
    proof {
        assert(s@ =~= spec_time_text(clock.elapsed_seconds as int));
    }
    s
}

} // verus!

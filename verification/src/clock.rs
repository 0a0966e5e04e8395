//! The countdown clock: minutes and seconds, decremented one second at a
//! time, with a `MM:SS` rendering.

use vstd::prelude::*;
use vstd::arithmetic::div_mod::{
    lemma_div_by_multiple, lemma_div_denominator, lemma_div_is_ordered, lemma_fundamental_div_mod,
    lemma_mod_multiples_basic,
};

verus! {

/// Milliseconds in one logical second, the countdown's tick size.
pub const SECOND_MS: u64 = 1000;

/// Milliseconds in one minute.
pub const MINUTE_MS: u64 = 60000;

/// Largest minute count a phase may be configured with.  The bound leaves
/// headroom so that every millisecond computation of the countdown loop stays
/// inside `u64`.
pub const MAX_MINUTES: u64 = u64::MAX / 60000 - 1;

/// Largest millisecond total the clock can hold: `MAX_MINUTES` whole minutes.
pub const MAX_MS: u64 = MAX_MINUTES * 60000;

/// Maps a decimal digit to its character.
pub open spec fn digit_char(d: int) -> char {
    if d == 0 { '0' }
    else if d == 1 { '1' }
    else if d == 2 { '2' }
    else if d == 3 { '3' }
    else if d == 4 { '4' }
    else if d == 5 { '5' }
    else if d == 6 { '6' }
    else if d == 7 { '7' }
    else if d == 8 { '8' }
    else { '9' }
}

/// The decimal rendering of `n`, most significant digit first.
pub open spec fn dec_rep(n: nat) -> Seq<char>
    decreases n,
{
    if n < 10 {
        seq![digit_char(n as int)]
    } else {
        dec_rep(n / 10).push(digit_char((n % 10) as int))
    }
}

/// The decimal rendering of `n`, zero-padded on the left to two digits.
pub open spec fn pad2(n: nat) -> Seq<char> {
    if n < 10 {
        seq!['0', digit_char(n as int)]
    } else {
        dec_rep(n)
    }
}

/// The `MM:SS` rendering of a minute and second count.
pub open spec fn time_display(m: nat, s: nat) -> Seq<char> {
    pad2(m) + seq![':'] + pad2(s)
}

/// The string for a single decimal digit.
pub(crate) fn digit_str(d: u64) -> (r: &'static str)
    requires
        d <= 9,
    ensures
        r@ == seq![digit_char(d as int)],
{
    match d {
        0 => {
            proof { reveal_strlit("0"); assert("0"@ =~= seq![digit_char(0)]); }
            "0"
        },
        1 => {
            proof { reveal_strlit("1"); assert("1"@ =~= seq![digit_char(1)]); }
            "1"
        },
        2 => {
            proof { reveal_strlit("2"); assert("2"@ =~= seq![digit_char(2)]); }
            "2"
        },
        3 => {
            proof { reveal_strlit("3"); assert("3"@ =~= seq![digit_char(3)]); }
            "3"
        },
        4 => {
            proof { reveal_strlit("4"); assert("4"@ =~= seq![digit_char(4)]); }
            "4"
        },
        5 => {
            proof { reveal_strlit("5"); assert("5"@ =~= seq![digit_char(5)]); }
            "5"
        },
        6 => {
            proof { reveal_strlit("6"); assert("6"@ =~= seq![digit_char(6)]); }
            "6"
        },
        7 => {
            proof { reveal_strlit("7"); assert("7"@ =~= seq![digit_char(7)]); }
            "7"
        },
        8 => {
            proof { reveal_strlit("8"); assert("8"@ =~= seq![digit_char(8)]); }
            "8"
        },
        _ => {
            proof { reveal_strlit("9"); assert("9"@ =~= seq![digit_char(9)]); }
            "9"
        },
    }
}

/// Renders `n` in decimal.
fn dec_string(n: u64) -> (r: String)
    ensures
        r@ == dec_rep(n as nat),
    decreases n,
{
    if n < 10 {
        let r = digit_str(n).to_owned();
        r
    } else {
        let s = dec_string(n / 10);
        let r = s.concat(digit_str(n % 10));
        proof {
            assert(r@ =~= dec_rep((n / 10) as nat).push(digit_char((n % 10) as int)));
        }
        r
    }
}

/// Renders `n` in decimal, zero-padded on the left to two digits.
fn pad2_string(n: u64) -> (r: String)
    ensures
        r@ == pad2(n as nat),
{
    if n < 10 {
        let r = String::from_str("0").concat(digit_str(n));
        proof {
            reveal_strlit("0");
            assert(r@ =~= pad2(n as nat));
        }
        r
    } else {
        dec_string(n)
    }
}

/// A simple clock value showing minutes and seconds.  The session sets it to
/// a phase's length and decrements it once per tick; it never goes below
/// zero.
pub struct Clock {
    minutes: u64,
    seconds: u64,
}

impl Clock {
    /// The displayed minutes.
    pub closed spec fn spec_minutes(&self) -> u64 {
        self.minutes
    }

    /// The displayed seconds; at most 59 in a well-formed clock.
    pub closed spec fn spec_seconds(&self) -> u64 {
        self.seconds
    }

    /// Well-formedness: seconds are normalized and the minutes leave the
    /// millisecond total representable.
    pub open spec fn wf(&self) -> bool {
        self.spec_minutes() <= MAX_MINUTES && self.spec_seconds() <= 59
    }

    /// The remaining time in milliseconds; always a multiple of 1000.
    pub open spec fn spec_total_ms(&self) -> int {
        self.spec_minutes() * 60000 + self.spec_seconds() * 1000
    }

    /// Instantiates a new clock at `00:00`.
    pub fn new() -> (r: Clock)
        ensures
            r.spec_minutes() == 0,
            r.spec_seconds() == 0,
            r.wf(),
    {
        Clock { minutes: 0, seconds: 0 }
    }

    /// Sets the clock from an absolute duration in milliseconds, normalizing
    /// into minutes and seconds (sub-second remainders are dropped).
    pub fn set_time_ms(&mut self, ms: u64)
        requires
            ms <= MAX_MS + 59999,
        ensures
            final(self).spec_minutes() == ms as int / 60000,
            final(self).spec_seconds() == (ms as int / 1000) % 60,
            final(self).spec_total_ms() == (ms as int / 1000) * 1000,
            final(self).wf(),
    {
        self.minutes = ms / MINUTE_MS;
        self.seconds = (ms / SECOND_MS) % 60;
        proof {
            let m = ms as int;
            lemma_div_is_ordered(m, MAX_MS as int + 59999, 60000);
            lemma_div_by_multiple(MAX_MINUTES as int + 1, 60000);
            lemma_div_is_ordered(m, MAX_MS as int + 59999, 1000);
            // minutes relate to the per-second count: (ms / 1000) / 60 == ms / 60000
            lemma_div_denominator(m, 1000, 60);
            // total: 60000 * (x / 60) + 1000 * (x % 60) == 1000 * x for x = ms / 1000
            lemma_fundamental_div_mod(m / 1000, 60);
        }
    }

    /// Sets the clock from an absolute duration in minutes.
    pub fn set_time_minutes(&mut self, minutes: u64)
        requires
            minutes <= MAX_MINUTES,
        ensures
            final(self).spec_minutes() == minutes,
            final(self).spec_seconds() == 0,
            final(self).spec_total_ms() == minutes * 60000,
            final(self).wf(),
    {
        proof {
            lemma_div_by_multiple(minutes as int, 60000);
            lemma_div_by_multiple(minutes as int * 60, 1000);
            lemma_mod_multiples_basic(minutes as int, 60);
        }
        self.set_time_ms(minutes * MINUTE_MS);
    }

    /// Decrements the clock by one full second.  At zero this is a no-op
    /// rather than an underflow.
    pub fn decrement_one_second(&mut self)
        requires
            old(self).wf(),
        ensures
            final(self).wf(),
            old(self).spec_total_ms() >= 1000 ==> final(self).spec_total_ms() == old(
                self,
            ).spec_total_ms() - 1000,
            old(self).spec_total_ms() < 1000 ==> *final(self) == *old(self),
    {
        if self.seconds > 0 {
            self.seconds = self.seconds - 1;
        } else if self.minutes > 0 {
            self.minutes = self.minutes - 1;
            self.seconds = 59;
        }
    }

    /// Translates the current clock time back into milliseconds.
    pub fn get_ms_from_time(&mut self) -> (r: u64)
        requires
            old(self).wf(),
        ensures
            r == old(self).spec_total_ms(),
            *final(self) == *old(self),
    {
        self.minutes * MINUTE_MS + self.seconds * SECOND_MS
    }

    /// The `MM:SS` rendering of this clock.
    pub open spec fn spec_display(&self) -> Seq<char> {
        time_display(self.spec_minutes() as nat, self.spec_seconds() as nat)
    }

    /// Translates the clock into a human readable `MM:SS` string, each part
    /// zero-padded to at least two digits.
    pub fn get_time(&self) -> (r: String)
        ensures
            r@ == self.spec_display(),
    {
        let m = pad2_string(self.minutes);
        let s = pad2_string(self.seconds);
        let r = m.concat(":").concat(s.as_str());
        proof {
            reveal_strlit(":");
            assert(r@ =~= self.spec_display());
        }
        r
    }

    /// Given a message, generates the nicely framed clock display as a block
    /// of lines: a border, a blank line, the message line, the time line,
    /// another blank line and the closing border.
    pub fn gen_clock(&self, message: &str) -> (r: Vec<String>)
        ensures
            r@.len() == 6,
            r@[0]@ == "╭───────────────────────────────────────╮"@,
            r@[1]@ == "│                                       │"@,
            r@[1]@.len() == 41,
            r@[2]@ == "│             "@ + message@ + "             │"@,
            r@[3]@ == "│                 "@ + self.spec_display() + "                 │"@,
            r@[4]@ == r@[1]@,
            r@[5]@ == "╰───────────────────────────────────────╯"@,
    {
        let mut v: Vec<String> = Vec::new();
        v.push(String::from_str("╭───────────────────────────────────────╮"));
        v.push(String::from_str("│                                       │"));
        v.push(String::from_str("│             ").concat(message).concat("             │"));
        v.push(String::from_str("│                 ").concat(self.get_time().as_str()).concat("                 │"));
        v.push(String::from_str("│                                       │"));
        v.push(String::from_str("╰───────────────────────────────────────╯"));
        proof {
            reveal_strlit("│                                       │");
            assert(v@[2]@ =~= "│             "@ + message@ + "             │"@);
            assert(v@[3]@ =~= "│                 "@ + self.spec_display() + "                 │"@);
        }
        v
    }
}

/// Law: after `set_time_minutes(m)` the clock reads back exactly `m` whole
/// minutes in milliseconds -- the minutes-to-milliseconds round trip is
/// lossless for every admissible `m`.
pub proof fn lemma_set_minutes_round_trip(c: Clock, m: u64)
    requires
        c.spec_minutes() == m,
        c.spec_seconds() == 0,
    ensures
        c.spec_total_ms() == m * 60000,
{
}

/// Law: for every `m` under an hour, a clock set to `m` minutes renders as
/// the two-digit, zero-padded minute count followed by `:00`.
pub proof fn lemma_format_after_set_minutes(c: Clock, m: u64)
    requires
        c.spec_minutes() == m,
        c.spec_seconds() == 0,
        m < 60,
    ensures
        m < 10 ==> c.spec_display() == seq!['0', digit_char(m as int), ':', '0', '0'],
        m >= 10 ==> c.spec_display() == seq![
            digit_char(m as int / 10),
            digit_char(m as int % 10),
            ':',
            '0',
            '0',
        ],
{
    assert(pad2(0) =~= seq!['0', '0']);
    if m < 10 {
        assert(c.spec_display() =~= seq!['0', digit_char(m as int), ':', '0', '0']);
    } else {
        assert(10 <= (m as nat) && (m as nat) < 100);
        assert((m as nat) / 10 < 10);
        assert(dec_rep(m as nat) == dec_rep(m as nat / 10).push(digit_char((m as nat % 10) as int)));
        assert(dec_rep(m as nat / 10) == seq![digit_char(m as int / 10)]);
        assert(dec_rep(m as nat) =~= seq![digit_char(m as int / 10), digit_char(m as int % 10)]);
        assert(c.spec_display() =~= seq![
            digit_char(m as int / 10),
            digit_char(m as int % 10),
            ':',
            '0',
            '0',
        ]);
    }
}

} // verus!

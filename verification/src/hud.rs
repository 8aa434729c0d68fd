//! The status text: the figures it shows and how they are written out.

use crate::scoring::Stats;
use vstd::prelude::*;
use vstd::string::StringExecFns;

verus! {

/// Milliseconds between two compositions of the status text.
pub const HUD_PERIOD_MS: u64 = 50;

/// The figures of the status text.
#[derive(Clone, Copy, Debug, PartialEq, Eq, Structural)]
pub struct Readout {
    /// The session has no time limit.
    pub practice: bool,
    /// Tenths of a second that are left of a timed session.
    pub time_left_ds: u64,
    /// Points so far.
    pub score: u64,
    /// Targets hit.
    pub kills: u32,
    /// Targets that died unhit.
    pub expired: u32,
    /// Shots fired.
    pub shots: u32,
    /// Hits per hundred shots.
    pub shot_acc: u64,
    /// Hits per hundred targets that were hit or died.
    pub target_acc: u64,
    /// Mean age, in milliseconds, at which the targets were hit.
    pub avg_rt_ms: u64,
    /// Frames per second, as the host reports them.
    pub fps: u32,
}

/// `part / whole` rounded to the nearest whole number, halves upwards;
/// zero where `whole` is zero.
pub open spec fn rounded_ratio(part: int, whole: int) -> int {
    if whole == 0 {
        0
    } else {
        (2 * part + whole) / (2 * whole)
    }
}

/// Tenths of a second left at the clock reading `now` of a session of
/// `duration_ms` milliseconds that started at `start_ms`, to the nearest
/// tenth; zero once the time is up.
pub open spec fn time_left_spec(duration_ms: u64, start_ms: u64, now: u64) -> int {
    let elapsed = if now >= start_ms {
        now - start_ms
    } else {
        0
    };
    if elapsed >= duration_ms {
        0
    } else {
        (duration_ms - elapsed + 50) / 100
    }
}

/// The figures that the tallies give, with the mode, the time left and the
/// frame rate beside them.
pub open spec fn readout_spec(stats: Stats, practice: bool, time_left_ds: int, fps: u32) -> Readout {
    Readout {
        practice,
        time_left_ds: time_left_ds as u64,
        score: stats.score,
        kills: stats.kills,
        expired: stats.expired,
        shots: stats.shots,
        shot_acc: rounded_ratio(100 * stats.kills, stats.shots as int) as u64,
        target_acc: rounded_ratio(100 * stats.kills, stats.kills + stats.expired) as u64,
        avg_rt_ms: rounded_ratio(stats.rt_sum_ms as int, stats.rt_n as int) as u64,
        fps,
    }
}

/// The character of a decimal digit.
pub open spec fn digit_char(d: int) -> char {
    if d == 0 {
        '0'
    } else if d == 1 {
        '1'
    } else if d == 2 {
        '2'
    } else if d == 3 {
        '3'
    } else if d == 4 {
        '4'
    } else if d == 5 {
        '5'
    } else if d == 6 {
        '6'
    } else if d == 7 {
        '7'
    } else if d == 8 {
        '8'
    } else {
        '9'
    }
}

/// A number written in decimal digits, without leading zeros.
pub open spec fn decimal(n: nat) -> Seq<char>
    decreases n,
{
    if n < 10 {
        seq![digit_char(n as int)]
    } else {
        decimal(n / 10).push(digit_char((n % 10) as int))
    }
}

/// A number of tenths written with one digit after the point.
pub open spec fn tenths(n: nat) -> Seq<char> {
    decimal(n / 10).push('.').push(digit_char((n % 10) as int))
}

/// `count` spaces.
pub open spec fn spaces(count: nat) -> Seq<char> {
    Seq::new(count, |i: int| ' ')
}

/// A text set flush right in a field of the given width; a text that is
/// wider stays as it is.
pub open spec fn padded(text: Seq<char>, width: nat) -> Seq<char> {
    if text.len() >= width {
        text
    } else {
        spaces((width - text.len()) as nat) + text
    }
}

/// First line of the status text: the mode, and for a timed session the
/// time left.
pub open spec fn headline(r: Readout) -> Seq<char> {
    if r.practice {
        "PRACTICE (\u{221e})"@
    } else {
        "TIME: "@ + padded(tenths(r.time_left_ds as nat), 4) + "s"@
    }
}

/// The status text of the given figures.
pub open spec fn status_spec(r: Readout) -> Seq<char> {
    headline(r) + "\nScore: "@ + decimal(r.score as nat) + "\nKills: "@ + decimal(r.kills as nat)
        + "  Expired: "@ + decimal(r.expired as nat) + "\nShots: "@ + decimal(r.shots as nat)
        + "  ShotAcc: "@ + padded(decimal(r.shot_acc as nat), 3) + "%\nTargetAcc: "@ + padded(
        decimal(r.target_acc as nat),
        3,
    ) + "%\nAvg RT: "@ + padded(decimal(r.avg_rt_ms as nat), 4) + " ms\nFPS: "@ + decimal(
        r.fps as nat,
    )
}

/// `part / whole` rounded to the nearest whole number; zero where `whole`
/// is zero.
pub fn ratio(part: u64, whole: u64) -> (q: u64)
    ensures
        q == rounded_ratio(part as int, whole as int),
{
    if whole == 0 {
        0
    } else {
        let num: u128 = 2 * (part as u128) + whole as u128;
        let den: u128 = 2 * (whole as u128);
        proof {
            // Rounding never lifts the quotient above `part`.
            assert(num / den <= part) by (nonlinear_arith)
                requires
                    num == 2 * part + whole,
                    den == 2 * whole,
                    whole >= 1,
                    part >= 0,
            ;
        }
        (num / den) as u64
    }
}

/// Tenths of a second left of a timed session at the clock reading `now`.
pub fn time_left(duration_ms: u64, start_ms: u64, now: u64) -> (left: u64)
    ensures
        left == time_left_spec(duration_ms, start_ms, now),
{
    let elapsed: u64 = if now >= start_ms {
        now - start_ms
    } else {
        0
    };
    if elapsed >= duration_ms {
        0
    } else {
        (((duration_ms - elapsed) as u128 + 50) / 100) as u64
    }
}

impl Stats {
    /// The figures of the status text for these tallies.
    pub fn readout(&self, practice: bool, time_left_ds: u64, fps: u32) -> (r: Readout)
        ensures
            r == readout_spec(*self, practice, time_left_ds as int, fps),
    {
        let kills: u64 = self.kills as u64;
        Readout {
            practice,
            time_left_ds,
            score: self.score,
            kills: self.kills,
            expired: self.expired,
            shots: self.shots,
            shot_acc: ratio(100 * kills, self.shots as u64),
            target_acc: ratio(100 * kills, kills + self.expired as u64),
            avg_rt_ms: ratio(self.rt_sum_ms, self.rt_n as u64),
            fps,
        }
    }
}

/// The text of one decimal digit.
fn digit_text(d: u64) -> (text: &'static str)
    requires
        d < 10,
    ensures
        text@ == seq![digit_char(d as int)],
{
    proof {
        reveal_strlit("0");
        reveal_strlit("1");
        reveal_strlit("2");
        reveal_strlit("3");
        reveal_strlit("4");
        reveal_strlit("5");
        reveal_strlit("6");
        reveal_strlit("7");
        reveal_strlit("8");
        reveal_strlit("9");
    }
    let text: &'static str = if d == 0 {
        "0"
    } else if d == 1 {
        "1"
    } else if d == 2 {
        "2"
    } else if d == 3 {
        "3"
    } else if d == 4 {
        "4"
    } else if d == 5 {
        "5"
    } else if d == 6 {
        "6"
    } else if d == 7 {
        "7"
    } else if d == 8 {
        "8"
    } else {
        "9"
    };
    assert(text@ =~= seq![digit_char(d as int)]);
    text
}

/// Number of decimal digits of `n`.
fn decimal_len(n: u64) -> (len: usize)
    ensures
        len == decimal(n as nat).len(),
        1 <= len <= 20,
    decreases n,
{
    if n < 10 {
        1
    } else {
        proof {
            lemma_decimal_len_bound(n as nat);
        }
        decimal_len(n / 10) + 1
    }
}

/// A number below `10^20` has at most twenty digits.
proof fn lemma_decimal_len_bound(n: nat)
    requires
        n <= u64::MAX,
    ensures
        1 <= decimal(n).len() <= 20,
{
    reveal_with_fuel(decimal, 21);
}

/// Writes `n` in decimal digits at the end of `out`.
pub fn push_decimal(out: &mut String, n: u64)
    ensures
        final(out)@ == old(out)@ + decimal(n as nat),
    decreases n,
{
    if n >= 10 {
        push_decimal(out, n / 10);
    }
    out.append(digit_text(n % 10));
    assert(final(out)@ =~= old(out)@ + decimal(n as nat));
}

/// Writes `count` spaces at the end of `out`.
fn push_spaces(out: &mut String, count: usize)
    ensures
        final(out)@ == old(out)@ + spaces(count as nat),
{
    let mut done: usize = 0;
    while done < count
        invariant
            done <= count,
            out@ == old(out)@ + spaces(done as nat),
        decreases count - done,
    {
        proof {
            reveal_strlit(" ");
        }
        out.append(" ");
        done += 1;
        assert(out@ =~= old(out)@ + spaces(done as nat));
    }
}

/// Writes `n` in decimal digits at the end of `out`, flush right in a
/// field of `width` characters.
pub fn push_padded(out: &mut String, n: u64, width: usize)
    ensures
        final(out)@ == old(out)@ + padded(decimal(n as nat), width as nat),
{
    let len: usize = decimal_len(n);
    if len < width {
        push_spaces(out, width - len);
    }
    push_decimal(out, n);
    assert(final(out)@ =~= old(out)@ + padded(decimal(n as nat), width as nat));
}

/// Writes `n` tenths with one digit after the point at the end of `out`,
/// flush right in a field of `width` characters.
pub fn push_tenths(out: &mut String, n: u64, width: usize)
    ensures
        final(out)@ == old(out)@ + padded(tenths(n as nat), width as nat),
{
    let len: usize = decimal_len(n / 10) + 2;
    if len < width {
        push_spaces(out, width - len);
    }
    push_decimal(out, n / 10);
    proof {
        reveal_strlit(".");
    }
    out.append(".");
    out.append(digit_text(n % 10));
    assert(final(out)@ =~= old(out)@ + padded(tenths(n as nat), width as nat));
}

/// Composes the status text of the given figures.
pub fn status_text(r: &Readout) -> (text: String)
    ensures
        text@ == status_spec(*r),
{
    let mut out = String::new();
    if r.practice {
        out.append("PRACTICE (\u{221e})");
    } else {
        out.append("TIME: ");
        push_tenths(&mut out, r.time_left_ds, 4);
        out.append("s");
    }
    assert(out@ =~= headline(*r));
    out.append("\nScore: ");
    push_decimal(&mut out, r.score);
    out.append("\nKills: ");
    push_decimal(&mut out, r.kills as u64);
    out.append("  Expired: ");
    push_decimal(&mut out, r.expired as u64);
    out.append("\nShots: ");
    push_decimal(&mut out, r.shots as u64);
    out.append("  ShotAcc: ");
    push_padded(&mut out, r.shot_acc, 3);
    out.append("%\nTargetAcc: ");
    push_padded(&mut out, r.target_acc, 3);
    out.append("%\nAvg RT: ");
    push_padded(&mut out, r.avg_rt_ms, 4);
    out.append(" ms\nFPS: ");
    push_decimal(&mut out, r.fps as u64);
    out
}

} // verus!

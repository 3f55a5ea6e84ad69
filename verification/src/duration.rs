//! Durations as the user reads them: the time left of a live location and
//! the playing position of a video.

use vstd::prelude::*;
use crate::format::{decimal, decimal_2, push_decimal, push_decimal_2, filled, decimals};
use crate::text::string_from_chars;
use vstd::arithmetic::div_mod::{lemma_fundamental_div_mod, lemma_mod_bound};

verus! {

/// The message templates of a human friendly duration; the application
/// translates them before the numbers are put in.
#[derive(PartialEq, Eq, Structural, Clone, Copy, Debug)]
pub enum DurationTemplate {
    /// "{} h {} min {} s": hours, minutes, seconds.
    HoursMinutesSeconds,
    /// "{} h {} s": hours, seconds.
    HoursSeconds,
    /// "{} min {} s": minutes, seconds.
    MinutesSeconds,
    /// "{} min": minutes.
    Minutes,
    /// "{} s": seconds.
    Seconds,
}

impl DurationTemplate {
    pub open spec fn spec_msgid(self) -> Seq<char> {
        match self {
            DurationTemplate::HoursMinutesSeconds => "{} h {} min {} s"@,
            DurationTemplate::HoursSeconds => "{} h {} s"@,
            DurationTemplate::MinutesSeconds => "{} min {} s"@,
            DurationTemplate::Minutes => "{} min"@,
            DurationTemplate::Seconds => "{} s"@,
        }
    }

    /// The untranslated template.
    pub fn msgid(&self) -> (s: &'static str)
        ensures
            s@ == self.spec_msgid(),
    {
        match self {
            DurationTemplate::HoursMinutesSeconds => "{} h {} min {} s",
            DurationTemplate::HoursSeconds => "{} h {} s",
            DurationTemplate::MinutesSeconds => "{} min {} s",
            DurationTemplate::Minutes => "{} min",
            DurationTemplate::Seconds => "{} s",
        }
    }
}

/// A duration as a template and the numbers that go into it.
pub struct HumanDuration {
    pub template: DurationTemplate,
    pub values: Vec<i64>,
}

/// How `seconds` reads: whole hours, the minutes and seconds beyond them;
/// units that are zero are left out, except that seconds always show next
/// to hours and minutes alone show without seconds when these are zero.
/// Durations under one second (zero or negative) read in seconds.
pub open spec fn spec_human_duration(seconds: int) -> (DurationTemplate, Seq<i64>) {
    if seconds >= 3600 {
        let hours = seconds / 3600;
        let rest = seconds % 3600;
        let minutes = rest / 60;
        if minutes > 0 {
            (DurationTemplate::HoursMinutesSeconds, seq![hours as i64, minutes as i64, (rest % 60) as i64])
        } else {
            (DurationTemplate::HoursSeconds, seq![hours as i64, rest as i64])
        }
    } else if seconds >= 60 {
        let minutes = seconds / 60;
        let rest = seconds % 60;
        if rest > 0 {
            (DurationTemplate::MinutesSeconds, seq![minutes as i64, rest as i64])
        } else {
            (DurationTemplate::Minutes, seq![minutes as i64])
        }
    } else {
        (DurationTemplate::Seconds, seq![seconds as i64])
    }
}

/// Splits a number of seconds into the template and numbers that read it.
pub fn human_friendly_duration(seconds: i32) -> (d: HumanDuration)
    ensures
        (d.template, d.values@) == spec_human_duration(seconds as int),
{
    let mut values: Vec<i64> = Vec::new();
    if seconds >= 3600 {
        let hours = seconds / 3600;
        let rest = seconds % 3600;
        let minutes = rest / 60;
        if minutes > 0 {
            values.push(hours as i64);
            values.push(minutes as i64);
            values.push((rest % 60) as i64);
            HumanDuration { template: DurationTemplate::HoursMinutesSeconds, values }
        } else {
            values.push(hours as i64);
            values.push(rest as i64);
            HumanDuration { template: DurationTemplate::HoursSeconds, values }
        }
    } else if seconds >= 60 {
        let minutes = seconds / 60;
        let rest = seconds % 60;
        if rest > 0 {
            values.push(minutes as i64);
            values.push(rest as i64);
            HumanDuration { template: DurationTemplate::MinutesSeconds, values }
        } else {
            values.push(minutes as i64);
            HumanDuration { template: DurationTemplate::Minutes, values }
        }
    } else {
        values.push(seconds as i64);
        HumanDuration { template: DurationTemplate::Seconds, values }
    }
}

/// A duration in the untranslated English of its template.
pub fn human_friendly_duration_text(seconds: i32) -> (s: String)
    ensures
        s@ == filled(spec_human_duration(seconds as int).0.spec_msgid(), decimals(spec_human_duration(seconds as int).1)),
{
    let d = human_friendly_duration(seconds);
    crate::format::fill_placeholders(d.template.msgid(), d.values.as_slice())
}

/// A human friendly duration of a nonnegative number of seconds adds up to
/// it: hours, minutes and seconds (each unit below 60 but the hours), with
/// the units that are left out being zero.
pub proof fn lemma_human_duration_adds_up(seconds: int)
    requires
        0 <= seconds <= i32::MAX,
    ensures
        ({
            let (t, v) = spec_human_duration(seconds);
            match t {
                DurationTemplate::HoursMinutesSeconds => v.len() == 3 && v[0] * 3600 + v[1] * 60 + v[2] == seconds
                    && 0 < v[1] < 60 && 0 <= v[2] < 60 && v[0] > 0,
                DurationTemplate::HoursSeconds => v.len() == 2 && v[0] * 3600 + v[1] == seconds && 0 <= v[1] < 60 && v[0] > 0,
                DurationTemplate::MinutesSeconds => v.len() == 2 && v[0] * 60 + v[1] == seconds && 0 < v[1] < 60 && 0 < v[0] < 60,
                DurationTemplate::Minutes => v.len() == 1 && v[0] * 60 == seconds && 0 < v[0] < 60,
                DurationTemplate::Seconds => v.len() == 1 && v[0] == seconds && seconds < 60,
            }
        }),
{
    lemma_fundamental_div_mod(seconds, 3600);
    lemma_mod_bound(seconds, 3600);
    lemma_fundamental_div_mod(seconds, 60);
    lemma_mod_bound(seconds, 60);
    let rest = seconds % 3600;
    lemma_fundamental_div_mod(rest, 60);
    lemma_mod_bound(rest, 60);
    assert(seconds / 3600 <= seconds) by (nonlinear_arith)
        requires seconds >= 0, seconds == 3600 * (seconds / 3600) + seconds % 3600, 0 <= seconds % 3600;
    assert(seconds / 3600 >= 0) by (nonlinear_arith)
        requires seconds >= 0, seconds == 3600 * (seconds / 3600) + seconds % 3600, seconds % 3600 < 3600;
    assert(seconds / 60 <= seconds) by (nonlinear_arith)
        requires seconds >= 0, seconds == 60 * (seconds / 60) + seconds % 60, 0 <= seconds % 60;
    assert(rest / 60 < 60) by (nonlinear_arith)
        requires 0 <= rest < 3600, rest == 60 * (rest / 60) + rest % 60, 0 <= rest % 60;
    assert(rest / 60 >= 0) by (nonlinear_arith)
        requires 0 <= rest, rest == 60 * (rest / 60) + rest % 60, rest % 60 < 60;
    if seconds >= 3600 {
        assert(seconds / 3600 > 0) by (nonlinear_arith)
            requires seconds >= 3600, seconds == 3600 * (seconds / 3600) + seconds % 3600, seconds % 3600 < 3600;
    } else if seconds >= 60 {
        assert(0 < seconds / 60 < 60) by (nonlinear_arith)
            requires 60 <= seconds < 3600, seconds == 60 * (seconds / 60) + seconds % 60, 0 <= seconds % 60 < 60;
    }
}

/// The quotient of `a` by the positive `b`, rounded toward zero (as the
/// integer division of Rust).
pub open spec fn div_toward_zero(a: int, b: int) -> int {
    if a >= 0 {
        a / b
    } else {
        -((-a) / b)
    }
}

/// The remainder that goes with `div_toward_zero`: it has the sign of `a`.
pub open spec fn rem_toward_zero(a: int, b: int) -> int {
    a - b * div_toward_zero(a, b)
}

fn div_i64(a: i64, b: i64) -> (q: i64)
    requires
        b > 0,
    ensures
        q == div_toward_zero(a as int, b as int),
{
    if a >= 0 {
        a / b
    } else {
        let m = (-(a as i128)) / (b as i128);
        assert(0 <= m <= 0x8000_0000_0000_0000) by (nonlinear_arith)
            requires m == (-(a as int)) / (b as int), b >= 1, a < 0, a >= -0x8000_0000_0000_0000;
        (-m) as i64
    }
}

fn rem_i64(a: i64, b: i64) -> (r: i64)
    requires
        b > 0,
    ensures
        r == rem_toward_zero(a as int, b as int),
{
    let q = div_i64(a, b);
    proof {
        let ai = a as int;
        let bi = b as int;
        if ai >= 0 {
            lemma_fundamental_div_mod(ai, bi);
            lemma_mod_bound(ai, bi);
            assert(bi * (q as int) == ai - ai % bi);
        } else {
            lemma_fundamental_div_mod(-ai, bi);
            lemma_mod_bound(-ai, bi);
            assert(bi * ((-ai) / bi) == -ai - (-ai) % bi);
            assert(bi * (q as int) == -(bi * ((-ai) / bi))) by (nonlinear_arith)
                requires q as int == -((-ai) / bi);
            assert(bi * (q as int) == ai + (-ai) % bi);
        }
    }
    let m = (a as i128) - (b as i128) * (q as i128);
    m as i64
}

/// The playing position of a video: `hours:mm:ss` from one hour on,
/// `minutes:ss` below, the units taken toward zero.
pub open spec fn spec_video_time(time: int) -> Seq<char> {
    let seconds = rem_toward_zero(time, 60);
    let minutes = div_toward_zero(rem_toward_zero(time, 3600), 60);
    let hours = div_toward_zero(time, 3600);
    if hours > 0 {
        decimal(hours) + seq![':'] + decimal_2(minutes) + seq![':'] + decimal_2(seconds)
    } else {
        decimal(minutes) + seq![':'] + decimal_2(seconds)
    }
}

/// The label of the playing position of a video, `time` in seconds.
pub fn video_time_label(time: i64) -> (s: String)
    ensures
        s@ == spec_video_time(time as int),
{
    let seconds = rem_i64(time, 60);
    let minutes = div_i64(rem_i64(time, 3600), 60);
    let hours = div_i64(time, 3600);
    let mut out: Vec<char> = Vec::new();
    if hours > 0 {
        push_decimal(&mut out, hours);
        out.push(':');
        push_decimal_2(&mut out, minutes);
        out.push(':');
        push_decimal_2(&mut out, seconds);
    } else {
        push_decimal(&mut out, minutes);
        out.push(':');
        push_decimal_2(&mut out, seconds);
    }
    assert(out@ =~= spec_video_time(time as int));
    string_from_chars(&out)
}

/// How many seconds a live location shared at `message_date` for
/// `live_period` seconds still has at Unix time `now`, and whether it is
/// still live.
pub fn live_location_expiry(message_date: i32, live_period: i32, now: i64) -> (r: (i64, bool))
    requires
        -0x4000_0000_0000_0000 <= now <= 0x4000_0000_0000_0000,
    ensures
        r.0 == message_date + live_period - now,
        r.1 == (message_date + live_period - now > 0),
{
    let expires_in = message_date as i64 + live_period as i64 - now;
    (expires_in, expires_in > 0)
}

} // verus!

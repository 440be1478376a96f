use vstd::prelude::*;

verus! {

/// A length of time, split into optional days, hours, minutes, seconds and milliseconds.
/// Each part is present or absent on its own; an absent part counts as zero.
#[derive(Debug, Clone, Copy, PartialEq, Eq)]
pub struct Duration {
    pub days: Option<u64>,
    pub hours: Option<u64>,
    pub minutes: Option<u64>,
    pub seconds: Option<u64>,
    pub milliseconds: Option<u64>,
}

/// The value of an optional part, zero when absent.
pub open spec fn part_value(o: Option<u64>) -> nat {
    match o {
        Some(v) => v as nat,
        None => 0,
    }
}

/// The empty duration: every part absent.
pub open spec fn empty_duration() -> Duration {
    Duration { days: None, hours: None, minutes: None, seconds: None, milliseconds: None }
}

/// The character of a decimal digit.
pub open spec fn digit_char(d: nat) -> char {
    if d == 0 { '0' }
    else if d == 1 { '1' }
    else if d == 2 { '2' }
    else if d == 3 { '3' }
    else if d == 4 { '4' }
    else if d == 5 { '5' }
    else if d == 6 { '6' }
    else if d == 7 { '7' }
    else if d == 8 { '8' }
    else { '9' }
}

/// The decimal rendering of `n`, without leading zeros.
pub open spec fn decimal(n: nat) -> Seq<char>
    decreases n,
{
    if n < 10 {
        seq![digit_char(n)]
    } else {
        decimal(n / 10).push(digit_char(n % 10))
    }
}

/// The words of a duration's text, one per present part: the amount, a space and the unit.
pub open spec fn part_words(o: Option<u64>, unit: Seq<char>) -> Seq<Seq<char>> {
    match o {
        Some(v) => seq![decimal(v as nat) + seq![' '] + unit],
        None => Seq::empty(),
    }
}

/// The words joined by single spaces.
pub open spec fn join_words(ws: Seq<Seq<char>>) -> Seq<char>
    decreases ws.len(),
{
    if ws.len() == 0 {
        Seq::empty()
    } else if ws.len() == 1 {
        ws[0]
    } else {
        join_words(ws.drop_last()) + seq![' '] + ws.last()
    }
}

impl Duration {
    /// The total length in milliseconds.
    pub open spec fn total_ms(&self) -> nat {
        part_value(self.days) * 86_400_000 + part_value(self.hours) * 3_600_000
            + part_value(self.minutes) * 60_000 + part_value(self.seconds) * 1000
            + part_value(self.milliseconds)
    }

    /// The words of the duration's text, in the order days, hours, minutes, seconds,
    /// milliseconds.
    pub open spec fn words(&self) -> Seq<Seq<char>> {
        part_words(self.days, "days"@) + part_words(self.hours, "hours"@)
            + part_words(self.minutes, "minutes"@) + part_words(self.seconds, "seconds"@)
            + part_words(self.milliseconds, "milliseconds"@)
    }

    /// A duration of the given number of days.
    pub fn from_days(days: u64) -> (r: Self)
        ensures
            r == (Duration { days: Some(days), ..empty_duration() }),
    {
        Duration { days: Some(days), hours: None, minutes: None, seconds: None, milliseconds: None }
    }

    /// A duration of the given number of hours.
    pub fn from_hours(hours: u64) -> (r: Self)
        ensures
            r == (Duration { hours: Some(hours), ..empty_duration() }),
    {
        Duration { days: None, hours: Some(hours), minutes: None, seconds: None, milliseconds: None }
    }

    /// A duration of the given number of minutes.
    pub fn from_minutes(minutes: u64) -> (r: Self)
        ensures
            r == (Duration { minutes: Some(minutes), ..empty_duration() }),
    {
        Duration { days: None, hours: None, minutes: Some(minutes), seconds: None, milliseconds: None }
    }

    /// A duration of the given number of seconds.
    pub fn from_seconds(seconds: u64) -> (r: Self)
        ensures
            r == (Duration { seconds: Some(seconds), ..empty_duration() }),
    {
        Duration { days: None, hours: None, minutes: None, seconds: Some(seconds), milliseconds: None }
    }

    /// A duration of the given number of milliseconds.
    pub fn from_milliseconds(milliseconds: u64) -> (r: Self)
        ensures
            r == (Duration { milliseconds: Some(milliseconds), ..empty_duration() }),
    {
        Duration {
            days: None,
            hours: None,
            minutes: None,
            seconds: None,
            milliseconds: Some(milliseconds),
        }
    }

    /// The total length in milliseconds: days, hours, minutes and seconds converted at fixed
    /// rates and added to the milliseconds. The total must fit in a `u64`.
    pub fn total_milliseconds(&self) -> (r: u64)
        requires
            self.total_ms() <= u64::MAX,
        ensures
            r as nat == self.total_ms(),
    {
        let d: u64 = match self.days { Some(v) => v, None => 0 };
        let h: u64 = match self.hours { Some(v) => v, None => 0 };
        let m: u64 = match self.minutes { Some(v) => v, None => 0 };
        let s: u64 = match self.seconds { Some(v) => v, None => 0 };
        let ms: u64 = match self.milliseconds { Some(v) => v, None => 0 };
        assert(d * 86_400_000 + h * 3_600_000 + m * 60_000 + s * 1000 + ms <= u64::MAX);
        assert(0 <= d * 86_400_000 <= u64::MAX) by (nonlinear_arith)
            requires d * 86_400_000 + h * 3_600_000 + m * 60_000 + s * 1000 + ms <= u64::MAX,
                0 <= d, 0 <= h, 0 <= m, 0 <= s, 0 <= ms;
        assert(0 <= h * 3_600_000 <= u64::MAX) by (nonlinear_arith)
            requires d * 86_400_000 + h * 3_600_000 + m * 60_000 + s * 1000 + ms <= u64::MAX,
                0 <= d, 0 <= h, 0 <= m, 0 <= s, 0 <= ms;
        assert(0 <= m * 60_000 <= u64::MAX) by (nonlinear_arith)
            requires d * 86_400_000 + h * 3_600_000 + m * 60_000 + s * 1000 + ms <= u64::MAX,
                0 <= d, 0 <= h, 0 <= m, 0 <= s, 0 <= ms;
        assert(0 <= s * 1000 <= u64::MAX) by (nonlinear_arith)
            requires d * 86_400_000 + h * 3_600_000 + m * 60_000 + s * 1000 + ms <= u64::MAX,
                0 <= d, 0 <= h, 0 <= m, 0 <= s, 0 <= ms;
        let days_ms = d * 86_400_000;
        let hours_ms = h * 3_600_000;
        let minutes_ms = m * 60_000;
        let seconds_ms = s * 1000;
        days_ms + hours_ms + minutes_ms + seconds_ms + ms
    }

    /// The duration as text: each present part as its amount and unit ("1 days",
    /// "30 seconds"), separated by single spaces.
    pub fn to_string(&self) -> (r: String)
        ensures
            r@ == join_words(self.words()),
    {
        let mut out = String::new();
        let ghost mut ws: Seq<Seq<char>> = Seq::empty();
        proof {
            assert(out@ =~= join_words(ws));
        }
        let any = push_part(&mut out, Ghost(ws), false, self.days, "days");
        let ghost ws = ws + part_words(self.days, "days"@);
        let any = push_part(&mut out, Ghost(ws), any, self.hours, "hours");
        let ghost ws = ws + part_words(self.hours, "hours"@);
        let any = push_part(&mut out, Ghost(ws), any, self.minutes, "minutes");
        let ghost ws = ws + part_words(self.minutes, "minutes"@);
        let any = push_part(&mut out, Ghost(ws), any, self.seconds, "seconds");
        let ghost ws = ws + part_words(self.seconds, "seconds"@);
        let any = push_part(&mut out, Ghost(ws), any, self.milliseconds, "milliseconds");
        let ghost ws = ws + part_words(self.milliseconds, "milliseconds"@);
        proof {
            assert(ws =~= self.words());
        }
        out
    }
}

/// Appends the text of one optional part, after a space when words came before it.
fn push_part(
    out: &mut String,
    Ghost(ws): Ghost<Seq<Seq<char>>>,
    any: bool,
    part: Option<u64>,
    unit: &str,
) -> (r: bool)
    requires
        old(out)@ == join_words(ws),
        any == (ws.len() > 0),
    ensures
        final(out)@ == join_words(ws + part_words(part, unit@)),
        r == ((ws + part_words(part, unit@)).len() > 0),
{
    match part {
        Some(v) => {
            let ghost before = out@;
            if any {
                out.append(" ");
            }
            let ghost mid = out@;
            write_decimal(out, v);
            out.append(" ");
            out.append(unit);
            proof {
                reveal_strlit(" ");
                let w = decimal(v as nat) + seq![' '] + unit@;
                let ws2 = ws + part_words(part, unit@);
                assert(ws2 =~= ws.push(w));
                assert(ws2.drop_last() =~= ws);
                if ws.len() == 0 {
                    assert(out@ =~= w);
                } else {
                    assert(out@ =~= join_words(ws) + seq![' '] + w);
                }
            }
            true
        },
        None => {
            proof {
                assert(ws + part_words(part, unit@) =~= ws);
            }
            any
        },
    }
}

/// The one-character text of a decimal digit.
fn digit_text(d: u64) -> (r: &'static str)
    requires
        d < 10,
    ensures
        r@ == seq![digit_char(d as nat)],
{
    proof {
        reveal_strlit("0");
        reveal_strlit("1");
        reveal_strlit("2");
        reveal_strlit("3");
        reveal_strlit("4");
        reveal_strlit("5");
        reveal_strlit("6");
        reveal_strlit("7");
        reveal_strlit("8");
        reveal_strlit("9");
    }
    if d == 0 { "0" }
    else if d == 1 { "1" }
    else if d == 2 { "2" }
    else if d == 3 { "3" }
    else if d == 4 { "4" }
    else if d == 5 { "5" }
    else if d == 6 { "6" }
    else if d == 7 { "7" }
    else if d == 8 { "8" }
    else { "9" }
}

/// Appends the decimal rendering of `n`.
pub fn write_decimal(out: &mut String, n: u64)
    ensures
        final(out)@ == old(out)@ + decimal(n as nat),
    decreases n,
{
    if n >= 10 {
        write_decimal(out, n / 10);
    }
    out.append(digit_text(n % 10));
    proof {
        if n >= 10 {
            assert(final(out)@ =~= old(out)@ + decimal(n as nat));
        } else {
            assert(final(out)@ =~= old(out)@ + decimal(n as nat));
        }
    }
}

/// A length of time given either as parts or as an ISO 8601 duration expression ("PT30S").
#[derive(Debug, Clone, PartialEq, Eq)]
pub enum OneOfDurationOrIso8601Expression {
    Duration(Duration),
    Iso8601Expression(String),
}

impl OneOfDurationOrIso8601Expression {
    /// The text of the value: the duration's words, or the expression itself.
    pub fn to_string(&self) -> (r: String)
        ensures
            r@ == match *self {
                OneOfDurationOrIso8601Expression::Duration(d) => join_words(d.words()),
                OneOfDurationOrIso8601Expression::Iso8601Expression(e) => e@,
            },
    {
        match self {
            OneOfDurationOrIso8601Expression::Duration(d) => d.to_string(),
            OneOfDurationOrIso8601Expression::Iso8601Expression(e) => e.clone(),
        }
    }
}

impl Default for Duration {
    fn default() -> (r: Self)
        ensures
            r == empty_duration(),
    {
        Duration { days: None, hours: None, minutes: None, seconds: None, milliseconds: None }
    }
}

impl Default for OneOfDurationOrIso8601Expression {
    fn default() -> (r: Self)
        ensures
            r == OneOfDurationOrIso8601Expression::Duration(empty_duration()),
    {
        OneOfDurationOrIso8601Expression::Duration(Duration::default())
    }
}

} // verus!

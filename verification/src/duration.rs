//! Durations as users write them, in nanoseconds.

use crate::text;
use vstd::prelude::*;

verus! {

/// Whether a character is a decimal digit.
pub open spec fn is_digit(c: char) -> bool {
    '0' <= c <= '9'
}

/// Whether a character can stand in the name of a unit.
pub open spec fn is_unit_char(c: char) -> bool {
    'a' <= c <= 'z' || 'A' <= c <= 'Z' || c == '\u{b5}'
}

/// A second in nanoseconds.
pub const SECOND: u128 = 1_000_000_000;

/// A minute in nanoseconds.
pub const MINUTE: u128 = 60_000_000_000;

/// The shortest duration that is too long for seconds of 64 bits.
pub const LIMIT: u128 = 18_446_744_073_709_551_616_000_000_000;

/// The unit whose name begins at `i`, in nanoseconds, if there is one.
pub open spec fn unit_nanos(s: Seq<char>, i: int) -> Option<nat> {
    let c = s[i];
    if c == 'n' {
        Some(1)
    } else if c == 'u' || c == '\u{b5}' {
        Some(1_000)
    } else if c == 's' {
        Some(SECOND as nat)
    } else if c == 'm' {
        if i + 1 < s.len() && s[i + 1] == 'o' {
            Some(2_630_016_000_000_000)
        } else if i + 1 < s.len() && s[i + 1] == 's' {
            Some(1_000_000)
        } else if i + 2 < s.len() && s[i + 1] == 'i' && s[i + 2] == 'l' {
            Some(1_000_000)
        } else {
            Some(MINUTE as nat)
        }
    } else if c == 'h' {
        Some(3_600_000_000_000)
    } else if c == 'd' {
        Some(86_400_000_000_000)
    } else if c == 'w' {
        Some(604_800_000_000_000)
    } else if c == 'M' {
        Some(2_630_016_000_000_000)
    } else if c == 'y' {
        Some(31_557_600_000_000_000)
    } else {
        None
    }
}

/// Where in a text the reading of amounts stands.
#[derive(Debug, Clone, Copy, PartialEq, Eq, Structural)]
pub enum Spot {
    /// In the number of an amount.
    Number,
    /// In its fraction.
    Fraction,
    /// In its unit, or behind it.
    Unit,
    /// Behind something for which the text is refused.
    Refused,
    /// Behind amounts of which fractions of seconds have just made up the one
    /// second that is too much.
    Brim,
}

/// What the amounts at the start of a text come to.
#[verifier::ext_equal]
pub struct Amounts {
    /// All amounts that have their unit, in nanoseconds.
    pub nanos: nat,
    /// The amount that is being read: its number and its fraction.
    pub number: nat,
    pub numerator: nat,
    pub denominator: nat,
    pub spot: Spot,
}

impl Amounts {
    /// The amounts at another spot.
    pub open spec fn at(self, spot: Spot) -> Amounts {
        Amounts { spot, ..self }
    }

    /// The amounts with a digit more.
    pub open spec fn with_digit(self, d: nat) -> Amounts {
        match self.spot {
            Spot::Number => if self.number * 10 + d > u64::MAX {
                self.at(Spot::Refused)
            } else {
                Amounts { number: self.number * 10 + d, ..self }
            },
            Spot::Fraction => if self.numerator * 10 + d > u64::MAX || self.denominator * 10
                > u64::MAX {
                self.at(Spot::Refused)
            } else {
                Amounts {
                    numerator: self.numerator * 10 + d,
                    denominator: self.denominator * 10,
                    ..self
                }
            },
            Spot::Unit => Amounts {
                number: d,
                numerator: 0,
                denominator: 1,
                spot: Spot::Number,
                ..self
            },
            _ => self,
        }
    }

    /// The amounts with `n` nanoseconds more, which are told in parts of a
    /// second if they are `fine`.
    pub open spec fn plus(self, n: nat, fine: bool) -> Amounts {
        if self.nanos + n < LIMIT {
            Amounts { nanos: self.nanos + n, ..self }
        } else if fine && self.nanos + n == LIMIT && self.nanos % (SECOND as nat) + n == SECOND {
            self.at(Spot::Brim)
        } else {
            self.at(Spot::Refused)
        }
    }

    /// The amounts with a unit, of `w` nanoseconds, for the last number and its
    /// fraction.
    pub open spec fn with_unit(self, w: nat) -> Amounts {
        let whole = self.number * w;
        let part = self.numerator * w / self.denominator;
        if w < SECOND && whole > u64::MAX {
            self.at(Spot::Refused)
        } else {
            let sum = self.at(Spot::Unit).plus(whole, w < SECOND);
            if sum.spot == Spot::Unit {
                sum.plus(part, w <= MINUTE)
            } else {
                sum
            }
        }
    }

    /// The amounts with the character at `i` more.
    pub open spec fn next(self, s: Seq<char>, i: int) -> Amounts {
        let c = s[i];
        if is_digit(c) {
            self.with_digit((c as nat - 48) as nat)
        } else if c == '.' && self.spot == Spot::Number {
            self.at(Spot::Fraction)
        } else if is_unit_char(c) && (self.spot == Spot::Number || self.spot == Spot::Fraction) {
            match unit_nanos(s, i) {
                Some(w) => self.with_unit(w),
                None => self.at(Spot::Refused),
            }
        } else {
            self
        }
    }
}

/// What the amounts in the first `i` characters come to.
pub open spec fn amounts(s: Seq<char>, i: nat) -> Amounts
    decreases i,
{
    if i == 0 {
        Amounts { nanos: 0, number: 0, numerator: 0, denominator: 1, spot: Spot::Number }
    } else {
        amounts(s, (i - 1) as nat).next(s, i - 1)
    }
}

/// Whether the amounts in a text never come to exactly one second more than 64
/// bits hold by fractions of seconds that make up a second.
pub open spec fn is_modest(s: Seq<char>) -> bool {
    amounts(s, s.len()).spot != Spot::Brim
}

/// Counts what amounts come to.
struct Counter {
    nanos: u128,
    number: u128,
    numerator: u128,
    denominator: u128,
    spot: Spot,
}

impl View for Counter {
    type V = Amounts;

    closed spec fn view(&self) -> Amounts {
        Amounts {
            nanos: self.nanos as nat,
            number: self.number as nat,
            numerator: self.numerator as nat,
            denominator: self.denominator as nat,
            spot: self.spot,
        }
    }
}

impl Counter {
    /// Whether the numbers are in range.
    spec fn wf(self) -> bool {
        &&& self.nanos < LIMIT
        &&& self.number <= u64::MAX
        &&& self.numerator <= u64::MAX
        &&& 1 <= self.denominator <= u64::MAX
    }

    fn digit(&mut self, d: u128)
        requires
            old(self).wf(),
            d < 10,
        ensures
            final(self).wf(),
            final(self)@ == old(self)@.with_digit(d as nat),
    {
        match self.spot {
            Spot::Number => {
                if self.number * 10 + d > u64::MAX as u128 {
                    self.spot = Spot::Refused;
                } else {
                    self.number = self.number * 10 + d;
                }
            },
            Spot::Fraction => {
                if self.numerator * 10 + d > u64::MAX as u128 || self.denominator * 10
                    > u64::MAX as u128 {
                    self.spot = Spot::Refused;
                } else {
                    self.numerator = self.numerator * 10 + d;
                    self.denominator = self.denominator * 10;
                }
            },
            Spot::Unit => {
                self.number = d;
                self.numerator = 0;
                self.denominator = 1;
                self.spot = Spot::Number;
            },
            _ => {},
        }
    }

    fn plus(&mut self, n: u128, fine: bool)
        requires
            old(self).wf(),
            n <= 0xFFFF_FFFF_FFFF_FFFF * 31_557_600_000_000_000,
        ensures
            final(self).wf(),
            final(self)@ == old(self)@.plus(n as nat, fine),
    {
        let sum: u128 = self.nanos + n;
        if sum < LIMIT {
            self.nanos = sum;
        } else if fine && sum == LIMIT && self.nanos % SECOND + n == SECOND {
            self.spot = Spot::Brim;
        } else {
            self.spot = Spot::Refused;
        }
    }

    fn unit(&mut self, w: u128)
        requires
            old(self).wf(),
            1 <= w <= 31_557_600_000_000_000,
        ensures
            final(self).wf(),
            final(self)@ == old(self)@.with_unit(w as nat),
    {
        let number = self.number;
        let numerator = self.numerator;
        let denominator = self.denominator;
        proof {
            product_is_small(number, w);
            product_is_small(numerator, w);
            assert(numerator * w / denominator as int <= numerator * w) by (nonlinear_arith)
                requires
                    numerator >= 0,
                    w >= 0,
                    denominator >= 1,
            ;
        }
        let whole: u128 = number * w;
        let part: u128 = numerator * w / denominator;
        if w < SECOND && whole > u64::MAX as u128 {
            self.spot = Spot::Refused;
            return;
        }
        self.spot = Spot::Unit;
        self.plus(whole, w < SECOND);
        if self.spot == Spot::Unit {
            self.plus(part, w <= MINUTE);
        }
    }
}

proof fn product_is_small(n: u128, w: u128)
    requires
        n <= u64::MAX,
        w <= 31_557_600_000_000_000,
    ensures
        0 <= n * w <= 0xFFFF_FFFF_FFFF_FFFF * 31_557_600_000_000_000,
{
    assert(0 <= n * w <= 0xFFFF_FFFF_FFFF_FFFF * 31_557_600_000_000_000) by (nonlinear_arith)
        requires
            0 <= n <= 0xFFFF_FFFF_FFFF_FFFF,
            0 <= w <= 31_557_600_000_000_000,
    ;
}

/// The unit whose name begins at `i`.
fn unit_at(s: &str, i: usize) -> (w: Option<u128>)
    requires
        i < s@.len(),
    ensures
        match (w, unit_nanos(s@, i as int)) {
            (Some(a), Some(b)) => a == b && 1 <= a <= 31_557_600_000_000_000,
            (None, None) => true,
            _ => false,
        },
{
    let left: usize = s.unicode_len() - i;
    match s.get_char(i) {
        'n' => Some(1),
        'u' | '\u{b5}' => Some(1_000),
        's' => Some(SECOND),
        'm' => {
            if left > 1 && s.get_char(i + 1) == 'o' {
                Some(2_630_016_000_000_000)
            } else if left > 1 && s.get_char(i + 1) == 's' {
                Some(1_000_000)
            } else if left > 2 && s.get_char(i + 1) == 'i' && s.get_char(i + 2) == 'l' {
                Some(1_000_000)
            } else {
                Some(MINUTE)
            }
        },
        'h' => Some(3_600_000_000_000),
        'd' => Some(86_400_000_000_000),
        'w' => Some(604_800_000_000_000),
        'M' => Some(2_630_016_000_000_000),
        'y' => Some(31_557_600_000_000_000),
        _ => None,
    }
}

/// Whether the amounts in a text never come to exactly one second more than 64
/// bits hold by fractions of seconds that make up a second.
pub fn modest(s: &str) -> (r: bool)
    ensures
        r == is_modest(s@),
{
    let n: usize = s.unicode_len();
    let mut count = Counter {
        nanos: 0,
        number: 0,
        numerator: 0,
        denominator: 1,
        spot: Spot::Number,
    };
    for i in 0..n
        invariant
            n == s@.len(),
            count.wf(),
            count@ == amounts(s@, i as nat),
    {
        let c = s.get_char(i);
        if '0' <= c && c <= '9' {
            count.digit((c as u32 - 48) as u128);
        } else if c == '.' && count.spot == Spot::Number {
            count.spot = Spot::Fraction;
        } else if (('a' <= c && c <= 'z') || ('A' <= c && c <= 'Z') || c == '\u{b5}') && (count.spot
            == Spot::Number || count.spot == Spot::Fraction) {
            match unit_at(s, i) {
                Some(w) => count.unit(w),
                None => {
                    count.spot = Spot::Refused;
                },
            }
        }
    }
    count.spot != Spot::Brim
}

/// What `humantime::parse_duration` makes of a text: nanoseconds, or the
/// message of an error.
pub uninterp spec fn duration_of(s: Seq<char>) -> Result<u128, Seq<char>>;

/// `humantime::parse_duration` reads amounts of time with their units. It adds
/// them up one by one, the whole part of each before its fraction, and panics
/// where the seconds reach the most that 64 bits hold and the parts of a second
/// come to exactly a whole one. With a modest text that does not happen.
#[verifier::external_body]
fn read_duration(s: &str) -> (r: Result<u128, String>)
    requires
        is_modest(s@),
    ensures
        match (r, duration_of(s@)) {
            (Ok(nanos), Ok(named)) => nanos == named,
            (Err(e), Err(named)) => e@ == named,
            _ => false,
        },
{
    humantime::parse_duration(s).map(|d| d.as_nanos()).map_err(|e| e.to_string())
}

/// The duration that a text names, or the message for the user.
pub open spec fn parsed(s: Seq<char>) -> Result<u128, Seq<char>> {
    match duration_of(s) {
        Ok(nanos) => Ok(nanos),
        Err(reason) => Err("invalid duration `"@ + s + "`: "@ + reason),
    }
}

/// Reads a duration.
pub fn parse_duration(s: &str) -> (r: Result<u128, String>)
    requires
        is_modest(s@),
    ensures
        match (r, parsed(s@)) {
            (Ok(nanos), Ok(named)) => nanos == named,
            (Err(msg), Err(named)) => msg@ == named,
            _ => false,
        },
{
    match read_duration(s) {
        Ok(nanos) => Ok(nanos),
        Err(reason) => Err(invalid_duration(s, reason.as_str())),
    }
}

/// The message for a text that is no duration.
pub fn invalid_duration(s: &str, reason: &str) -> (msg: String)
    ensures
        msg@ == "invalid duration `"@ + s@ + "`: "@ + reason@,
{
    let mut msg = text::join("invalid duration `", s);
    msg.append("`: ");
    msg.append(reason);
    msg
}

/// Reads a duration if it is modest.
pub fn parse_modest_duration(s: &str) -> (r: Option<Result<u128, String>>)
    ensures
        r is Some <==> is_modest(s@),
        match (r, parsed(s@)) {
            (None, _) => true,
            (Some(Ok(nanos)), Ok(named)) => nanos == named,
            (Some(Err(msg)), Err(named)) => msg@ == named,
            _ => false,
        },
{
    if modest(s) {
        Some(parse_duration(s))
    } else {
        None
    }
}

/// The names of the units, and how many nanoseconds each has. Where a name ends
/// is where a character follows that can stand in none.
pub open spec fn is_unit(name: Seq<char>, w: nat) -> bool {
    ||| w == 1 && (name == "nanos"@ || name == "nsec"@ || name == "ns"@)
    ||| w == 1_000 && (name == "usec"@ || name == "us"@ || name == seq!['\u{b5}', 's'])
    ||| w == 1_000_000 && (name == "millis"@ || name == "msec"@ || name == "ms"@)
    ||| w == 1_000_000_000 && (name == "seconds"@ || name == "second"@ || name == "secs"@
        || name == "sec"@ || name == "s"@)
    ||| w == 60_000_000_000 && (name == "minutes"@ || name == "minute"@ || name == "min"@
        || name == "mins"@ || name == "m"@)
    ||| w == 3_600_000_000_000 && (name == "hours"@ || name == "hour"@ || name == "hr"@
        || name == "hrs"@ || name == "h"@)
    ||| w == 86_400_000_000_000 && (name == "days"@ || name == "day"@ || name == "d"@)
    ||| w == 604_800_000_000_000 && (name == "weeks"@ || name == "week"@ || name == "wk"@
        || name == "wks"@ || name == "w"@)
    ||| w == 2_630_016_000_000_000 && (name == "months"@ || name == "month"@ || name == "M"@)
    ||| w == 31_557_600_000_000_000 && (name == "years"@ || name == "year"@ || name == "yr"@
        || name == "yrs"@ || name == "y"@)
}

/// A unit is known by its name, wherever it stands and whatever follows it.
pub proof fn units_are_known_by_name(head: Seq<char>, name: Seq<char>, w: nat, rest: Seq<char>)
    requires
        is_unit(name, w),
        rest.len() > 0 ==> !is_unit_char(rest[0]),
    ensures
        name.len() > 0,
        forall|i: int| 0 <= i < name.len() ==> is_unit_char(#[trigger] name[i]),
        unit_nanos(head + name + rest, head.len() as int) == Some(w),
{
    reveal_strlit("nanos");
    reveal_strlit("nsec");
    reveal_strlit("ns");
    reveal_strlit("usec");
    reveal_strlit("us");
    reveal_strlit("millis");
    reveal_strlit("msec");
    reveal_strlit("ms");
    reveal_strlit("seconds");
    reveal_strlit("second");
    reveal_strlit("secs");
    reveal_strlit("sec");
    reveal_strlit("s");
    reveal_strlit("minutes");
    reveal_strlit("minute");
    reveal_strlit("min");
    reveal_strlit("mins");
    reveal_strlit("m");
    reveal_strlit("hours");
    reveal_strlit("hour");
    reveal_strlit("hr");
    reveal_strlit("hrs");
    reveal_strlit("h");
    reveal_strlit("days");
    reveal_strlit("day");
    reveal_strlit("d");
    reveal_strlit("weeks");
    reveal_strlit("week");
    reveal_strlit("wk");
    reveal_strlit("wks");
    reveal_strlit("w");
    reveal_strlit("months");
    reveal_strlit("month");
    reveal_strlit("M");
    reveal_strlit("years");
    reveal_strlit("year");
    reveal_strlit("yr");
    reveal_strlit("yrs");
    reveal_strlit("y");
    let s = head + name + rest;
    let i = head.len() as int;
    assert(s[i] == name[0]);
    assert(name.len() > 1 ==> s[i + 1] == name[1]);
    assert(name.len() > 2 ==> s[i + 2] == name[2]);
    assert(name.len() == 1 && rest.len() > 0 ==> s[i + 1] == rest[0]);
}

/// A number is read digit by digit.
proof fn digits_are_read(n: nat, s: Seq<char>)
    requires
        n <= u64::MAX,
        text::decimal(n).len() <= s.len(),
        s.take(text::decimal(n).len() as int) == text::decimal(n),
    ensures
        amounts(s, text::decimal(n).len()) == (Amounts {
            nanos: 0,
            number: n,
            numerator: 0,
            denominator: 1,
            spot: Spot::Number,
        }),
    decreases n,
{
    let len = text::decimal(n).len();
    text::decimal_is_positional(n);
    assert(s[len - 1] == s.take(len as int)[len - 1]);
    assert(s[len - 1] == text::decimal(n).last());
    if n >= 10 {
        assert(s.take(len - 1) =~= text::decimal(n).drop_last());
        digits_are_read(n / 10, s);
    } else {
        assert(amounts(s, 0).number == 0);
    }
}

proof fn letters_are_passed(s: Seq<char>, i: nat, j: nat)
    requires
        i <= j <= s.len(),
        amounts(s, i).spot == Spot::Unit,
        forall|k: int| i <= k < j ==> is_unit_char(#[trigger] s[k]),
    ensures
        amounts(s, j) == amounts(s, i),
    decreases j,
{
    if i < j {
        letters_are_passed(s, i, (j - 1) as nat);
        assert(is_unit_char(s[j - 1]));
    }
}

/// An amount, a whole number with a unit, comes to as many of these units, if
/// that is less than 64 bits of seconds hold, and for parts of a second less
/// than 64 bits hold at all. It is modest then.
pub proof fn amounts_are_counted(n: u64, name: Seq<char>, w: nat)
    requires
        is_unit(name, w),
        n * w < 18_446_744_073_709_551_616_000_000_000,
        w < 1_000_000_000 ==> n * w <= u64::MAX,
    ensures
        ({
            let s = text::decimal(n as nat) + name;
            &&& amounts(s, s.len()).nanos == n * w
            &&& amounts(s, s.len()).spot == Spot::Unit
            &&& is_modest(s)
        }),
{
    let head = text::decimal(n as nat);
    let s = head + name;
    units_are_known_by_name(head, name, w, Seq::empty());
    assert(s =~= head + name + Seq::<char>::empty());
    assert(s.take(head.len() as int) =~= head);
    digits_are_read(n as nat, s);
    let first = amounts(s, head.len());
    assert(s[head.len() as int] == name[0]);
    assert(is_unit_char(name[0]));
    assert(amounts(s, head.len() + 1) == first.with_unit(w));
    assert(first.numerator * w / first.denominator == 0) by (nonlinear_arith)
        requires
            first.numerator == 0,
            first.denominator == 1,
    ;
    assert forall|k: int| head.len() + 1 <= k < s.len() implies is_unit_char(#[trigger] s[k]) by {
        assert(s[k] == name[k - head.len()]);
    }
    letters_are_passed(s, head.len() + 1, s.len());
}

/// An amount adds what it comes to, the whole part and then the fraction, to
/// those before it, as long as the sum is less than 64 bits of seconds hold.
pub proof fn amounts_add_up(before: Amounts, w: nat)
    requires
        before.denominator > 0,
        before.spot == Spot::Number || before.spot == Spot::Fraction,
        w < 1_000_000_000 ==> before.number * w <= u64::MAX,
        before.nanos + before.number * w + before.numerator * w / before.denominator
            < 18_446_744_073_709_551_616_000_000_000,
    ensures
        before.with_unit(w).nanos == before.nanos + before.number * w + before.numerator * w
            / before.denominator,
        before.with_unit(w).spot == Spot::Unit,
{
    let part = before.numerator * w / before.denominator;
    assert(part >= 0) by (nonlinear_arith)
        requires
            part == before.numerator * w / before.denominator,
            before.denominator > 0,
            before.numerator >= 0,
            w >= 0,
    ;
}

/// An addition is the one that is too much if and only if parts of a second make
/// up a whole one beyond the most that 64 bits of seconds hold.
pub proof fn brim_is_one_second_too_much(before: Amounts, n: nat, fine: bool)
    requires
        before.spot == Spot::Unit,
    ensures
        before.plus(n, fine).spot == Spot::Brim <==> fine && before.nanos + n
            == 18_446_744_073_709_551_616_000_000_000 && before.nanos % 1_000_000_000 + n
            == 1_000_000_000,
        before.nanos + n < 18_446_744_073_709_551_616_000_000_000 <==> before.plus(n, fine).spot
            == Spot::Unit,
{
}

/// A text that names a duration gives that duration; for one that does not, the
/// message tells the text and the reason.
pub proof fn durations_are_read(s: Seq<char>)
    ensures
        match (duration_of(s), parsed(s)) {
            (Ok(nanos), Ok(given)) => given == nanos,
            (Err(reason), Err(msg)) => msg == "invalid duration `"@ + s + "`: "@ + reason,
            _ => false,
        },
{
}

} // verus!

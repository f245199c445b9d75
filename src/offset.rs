use vstd::prelude::*;

verus! {

/// Whether `c` is an ASCII decimal digit.
pub open spec fn is_digit(c: char) -> bool {
    '0' <= c <= '9'
}

pub open spec fn digit_value(c: char) -> int {
    (c as int) - ('0' as int)
}

/// The number written by a run of decimal digits, most significant first.
pub open spec fn digits_value(s: Seq<char>) -> int
    decreases s.len(),
{
    if s.len() == 0 {
        0
    } else {
        digits_value(s.drop_last()) * 10 + digit_value(s.last())
    }
}

pub open spec fn all_digits(s: Seq<char>) -> bool {
    forall|i: int| 0 <= i < s.len() ==> is_digit(#[trigger] s[i])
}

/// The integer that `s` writes in decimal: an optional `+` or `-`, then at
/// least one digit, and nothing else.
pub open spec fn decimal_value(s: Seq<char>) -> Option<int> {
    if s.len() > 0 && (s[0] == '-' || s[0] == '+') {
        let rest = s.drop_first();
        if rest.len() > 0 && all_digits(rest) {
            Some(if s[0] == '-' { -digits_value(rest) } else { digits_value(rest) })
        } else {
            None
        }
    } else if s.len() > 0 && all_digits(s) {
        Some(digits_value(s))
    } else {
        None
    }
}

pub open spec fn fits_i32(v: int) -> bool {
    i32::MIN <= v <= i32::MAX
}

proof fn lemma_digits_value_nonneg(s: Seq<char>)
    requires
        all_digits(s),
    ensures
        digits_value(s) >= 0,
    decreases s.len(),
{
    if s.len() > 0 {
        assert(all_digits(s.drop_last()));
        lemma_digits_value_nonneg(s.drop_last());
        assert(is_digit(s[s.len() - 1]));
    }
}

/// Appending digits never makes the number smaller.
proof fn lemma_digits_value_grows(s: Seq<char>, n: int)
    requires
        all_digits(s),
        0 <= n <= s.len(),
    ensures
        digits_value(s.take(n)) <= digits_value(s),
    decreases s.len(),
{
    if n < s.len() {
        assert(all_digits(s.drop_last()));
        assert(s.drop_last().take(n) =~= s.take(n));
        lemma_digits_value_grows(s.drop_last(), n);
        lemma_digits_value_nonneg(s.drop_last());
        assert(is_digit(s[s.len() - 1]));
    } else {
        assert(s.take(n) =~= s);
    }
}

/// Reads a decimal `i32` the way the standard library's integer parser does:
/// an optional sign followed by one or more digits; `None` for any other text
/// and for a value outside the range of `i32`.
pub fn parse_i32(s: &str) -> (r: Option<i32>)
    ensures
        r == (match decimal_value(s@) {
            Some(v) => if fits_i32(v) { Some(v as i32) } else { None },
            None => None,
        }),
{
    let n = s.unicode_len();
    if n == 0 {
        return None;
    }
    let first = s.get_char(0);
    let negative = first == '-';
    let start: usize = if first == '-' || first == '+' { 1 } else { 0 };
    if start == n {
        return None;
    }
    let ghost body = s@.subrange(start as int, n as int);
    let mut magnitude: i64 = 0;
    let mut i: usize = start;
    while i < n
        invariant
            n == s@.len(),
            start <= i <= n,
            start < n,
            start <= 1,
            start == 1 <==> (s@[0] == '-' || s@[0] == '+'),
            negative == (s@[0] == '-'),
            body == s@.subrange(start as int, n as int),
            all_digits(body.take(i - start)),
            magnitude == digits_value(body.take(i - start)),
            0 <= magnitude <= 2147483648,
        decreases n - i,
    {
        let c = s.get_char(i);
        if !('0' <= c && c <= '9') {
            proof {
                assert(body[i - start] == c);
                assert(!all_digits(body));
                if start == 1 {
                    assert(body =~= s@.drop_first());
                } else {
                    assert(body =~= s@);
                }
            }
            return None;
        }
        let d = (c as u32 - '0' as u32) as i64;
        let next = magnitude * 10 + d;
        proof {
            let k = i - start;
            assert(body.take(k + 1).drop_last() =~= body.take(k));
            assert(body.take(k + 1).last() == c);
            assert(all_digits(body.take(k + 1)));
        }
        if next > 2147483648 {
            proof {
                let k = i - start;
                if all_digits(body) {
                    lemma_digits_value_grows(body, k + 1);
                }
                if start == 1 {
                    assert(body =~= s@.drop_first());
                } else {
                    assert(body =~= s@);
                }
            }
            return None;
        }
        magnitude = next;
        i = i + 1;
    }
    proof {
        assert(body.take(n - start) =~= body);
        if start == 1 {
            assert(body =~= s@.drop_first());
        } else {
            assert(body =~= s@);
        }
    }
    if negative {
        Some((0 - magnitude) as i32)
    } else if magnitude <= 2147483647 {
        Some(magnitude as i32)
    } else {
        None
    }
}

/// Why the configured time zone offset could not be used.
#[derive(Clone, Copy, Debug, PartialEq, Eq, Structural)]
pub enum OffsetError {
    /// No offset was configured.
    Unset,
    /// The configured text is not a decimal integer.
    NotAnInteger,
    /// The hour count does not give an offset strictly within one day.
    OutOfRange,
}

/// A fixed offset from UTC, in seconds, strictly within one day either way.
#[derive(Clone, Copy, Debug)]
pub struct UtcOffset {
    seconds: i32,
}

/// Relies on chrono's `FixedOffset::east_opt`: an offset exists exactly when
/// `-86_400 < secs < 86_400`, and its `local_minus_utc` is `secs`.
#[verifier::external_body]
fn fixed_offset_east(secs: i32) -> (r: Option<i32>)
    ensures
        r == (if -86_400 < secs < 86_400 { Some(secs) } else { None::<i32> }),
{
    chrono::FixedOffset::east_opt(secs).map(|o| o.local_minus_utc())
}

/// Relies on chrono's `FixedOffset::west_opt`: an offset exists exactly when
/// `-86_400 < secs < 86_400`, and its `local_minus_utc` is `-secs`.
#[verifier::external_body]
fn fixed_offset_west(secs: i32) -> (r: Option<i32>)
    ensures
        r == (if -86_400 < secs < 86_400 { Some((-secs) as i32) } else { None::<i32> }),
{
    chrono::FixedOffset::west_opt(secs).map(|o| o.local_minus_utc())
}

impl UtcOffset {
    /// Seconds to add to a UTC instant to obtain the local wall clock.
    pub closed spec fn spec_seconds(&self) -> int {
        self.seconds as int
    }

    pub closed spec fn wf(&self) -> bool {
        -86_400 < self.seconds < 86_400
    }

    pub fn seconds(&self) -> (r: i32)
        ensures
            r == self.spec_seconds(),
    {
        self.seconds
    }

    /// The offset of `hours` whole hours east of UTC (west when negative).
    pub fn from_hours(hours: i32) -> (r: Result<UtcOffset, OffsetError>)
        ensures
            -24 < hours < 24 ==> (r matches Ok(o) && o.wf() && o.spec_seconds() == hours * 3600),
            !(-24 < hours < 24) ==> r == Err::<UtcOffset, OffsetError>(OffsetError::OutOfRange),
    {
        let secs = match hours.checked_mul(3600) {
            Some(v) => v,
            None => {
                return Err(OffsetError::OutOfRange);
            },
        };
        let resolved = if secs >= 0 {
            fixed_offset_east(secs)
        } else {
            fixed_offset_west(-secs)
        };
        match resolved {
            Some(seconds) => Ok(UtcOffset { seconds }),
            None => Err(OffsetError::OutOfRange),
        }
    }

    /// The local wall clock, in milliseconds on the UTC scale, that an instant
    /// shows at this offset; `None` where that leaves the range of `i64`.
    pub fn to_local(&self, instant: i64) -> (r: Option<i64>)
        requires
            self.wf(),
        ensures
            r == wall_of_instant(instant as int, self.spec_seconds()),
    {
        instant.checked_add(self.seconds as i64 * 1000)
    }

    /// The instant at which the local wall clock shows `wall` (milliseconds on
    /// the UTC scale); `None` where that leaves the range of `i64`.
    pub fn to_instant(&self, wall: i64) -> (r: Option<i64>)
        requires
            self.wf(),
        ensures
            r == instant_of_wall(wall as int, self.spec_seconds()),
    {
        wall.checked_sub(self.seconds as i64 * 1000)
    }
}

pub open spec fn fits_i64(v: int) -> bool {
    i64::MIN <= v <= i64::MAX
}

/// Local wall clock = instant + offset.
pub open spec fn wall_of_instant(instant: int, offset_seconds: int) -> Option<i64> {
    let w = instant + offset_seconds * 1000;
    if fits_i64(w) { Some(w as i64) } else { None }
}

/// Instant = local wall clock - offset.
pub open spec fn instant_of_wall(wall: int, offset_seconds: int) -> Option<i64> {
    let t = wall - offset_seconds * 1000;
    if fits_i64(t) { Some(t as i64) } else { None }
}

/// The offset that a configured whole-hour value gives, or why it gives none.
pub open spec fn offset_hours_of(raw: Option<Seq<char>>) -> Result<int, OffsetError> {
    match raw {
        None => Err(OffsetError::Unset),
        Some(text) => match decimal_value(text) {
            None => Err(OffsetError::NotAnInteger),
            Some(v) => if !fits_i32(v) {
                Err(OffsetError::NotAnInteger)
            } else if -24 < v < 24 {
                Ok(v)
            } else {
                Err(OffsetError::OutOfRange)
            },
        },
    }
}

/// Resolves the configured time zone offset from its text, a whole number of
/// hours east of UTC (negative for west); `None` when nothing is configured.
pub fn get_timezone_offset(raw: Option<&str>) -> (r: Result<UtcOffset, OffsetError>)
    ensures
        match offset_hours_of(
            match raw {
                Some(t) => Some(t@),
                None => None,
            },
        ) {
            Ok(h) => r matches Ok(o) && o.wf() && o.spec_seconds() == h * 3600,
            Err(e) => r == Err::<UtcOffset, OffsetError>(e),
        },
{
    match raw {
        None => Err(OffsetError::Unset),
        Some(text) => match parse_i32(text) {
            None => Err(OffsetError::NotAnInteger),
            Some(hours) => UtcOffset::from_hours(hours),
        },
    }
}

/// The local wall clock that the UTC instant `now` shows at `offset`.
pub fn get_local_time(now: i64, offset: &UtcOffset) -> (r: Option<i64>)
    requires
        offset.wf(),
    ensures
        r == wall_of_instant(now as int, offset.spec_seconds()),
{
    offset.to_local(now)
}

} // verus!

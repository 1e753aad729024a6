use chrono::TimeZone;
use vstd::prelude::*;

verus! {

/// Seconds in one day.
pub const SECS_PER_DAY: i64 = 86400;

/// Minutes in one day.
pub const MINUTES_PER_DAY: i16 = 1440;

/// Largest distance from the Unix epoch, in seconds, of an instant that the
/// schedule engine accepts (about 120,000 years either way).
pub const MAX_INSTANT: i64 = 4_000_000_000_000;

/// Largest distance from the Unix epoch, in seconds, of an instant whose
/// local offset is looked up; well inside the calendar's range.
pub const CALENDAR_LIMIT: i64 = 5_000_000_000_000;

/// Whole days added before a floor division or a remainder, so that the
/// dividend is never negative; `DAY_BIAS * SECS_PER_DAY` exceeds
/// `CALENDAR_LIMIT`.
const DAY_BIAS: i64 = 100_000_000;

/// An instant that the schedule engine accepts.
pub open spec fn valid_instant(t: int) -> bool {
    -MAX_INSTANT <= t <= MAX_INSTANT
}

/// An offset of local time from UTC, in seconds.
pub open spec fn valid_offset(off: int) -> bool {
    -SECS_PER_DAY < off < SECS_PER_DAY
}

/// Day of the week, Monday first.
#[derive(Debug, Clone, Copy, PartialEq, Eq, Structural, PartialOrd, Ord, Hash)]
pub enum Weekday {
    Monday,
    Tuesday,
    Wednesday,
    Thursday,
    Friday,
    Saturday,
    Sunday,
}

/// Days to advance from weekday index `from` to reach weekday index `to`.
pub open spec fn circular_distance(from: int, to: int) -> int {
    (to - from) % 7
}

/// Weekday of day number `d`, counted from 1970-01-01 (a Thursday).
pub open spec fn weekday_of_day(d: int) -> Weekday {
    Weekday::from_index((d + 3) % 7)
}

impl Weekday {
    /// Position in the week, Monday being 0.
    pub open spec fn index(self) -> int {
        match self {
            Weekday::Monday => 0,
            Weekday::Tuesday => 1,
            Weekday::Wednesday => 2,
            Weekday::Thursday => 3,
            Weekday::Friday => 4,
            Weekday::Saturday => 5,
            Weekday::Sunday => 6,
        }
    }

    /// The weekday at position `i` of the week, Monday being 0.
    pub open spec fn from_index(i: int) -> Weekday {
        if i == 0 {
            Weekday::Monday
        } else if i == 1 {
            Weekday::Tuesday
        } else if i == 2 {
            Weekday::Wednesday
        } else if i == 3 {
            Weekday::Thursday
        } else if i == 4 {
            Weekday::Friday
        } else if i == 5 {
            Weekday::Saturday
        } else {
            Weekday::Sunday
        }
    }

    /// Position in the week, Monday being 0.
    pub fn ordinal(&self) -> (r: u8)
        ensures
            r == self.index(),
    {
        match self {
            Weekday::Monday => 0,
            Weekday::Tuesday => 1,
            Weekday::Wednesday => 2,
            Weekday::Thursday => 3,
            Weekday::Friday => 4,
            Weekday::Saturday => 5,
            Weekday::Sunday => 6,
        }
    }

    /// The weekday at position `i` of the week, Monday being 0.
    pub fn from_ordinal(i: u8) -> (r: Weekday)
        requires
            i < 7,
        ensures
            r == Weekday::from_index(i as int),
            r.index() == i,
    {
        if i == 0 {
            Weekday::Monday
        } else if i == 1 {
            Weekday::Tuesday
        } else if i == 2 {
            Weekday::Wednesday
        } else if i == 3 {
            Weekday::Thursday
        } else if i == 4 {
            Weekday::Friday
        } else if i == 5 {
            Weekday::Saturday
        } else {
            Weekday::Sunday
        }
    }

    /// Number of days (0 to 6) to advance from `from` to reach `to`,
    /// wrapping past Sunday to Monday.
    pub fn days_from(from: &Weekday, to: &Weekday) -> (r: u8)
        ensures
            r == circular_distance(from.index(), to.index()),
            r < 7,
    {
        let f = from.ordinal();
        let t = to.ordinal();
        if t >= f {
            t - f
        } else {
            t + 7 - f
        }
    }
}

/// A time-of-day value out of range, or text that is no time of day.
#[derive(Debug, Clone)]
pub struct RateError(pub String);

/// A wall-clock time of day, hour and minute.
#[derive(Debug, Clone, Copy)]
pub struct RateTime {
    hour: u8,
    minute: u8,
}

impl RateTime {
    /// The hour is 0 to 23 and the minute 0 to 59.
    #[verifier::type_invariant]
    pub closed spec fn wf(self) -> bool {
        self.hour <= 23 && self.minute <= 59
    }

    /// The hour.
    pub closed spec fn hour_spec(self) -> int {
        self.hour as int
    }

    /// The minute within the hour.
    pub closed spec fn minute_spec(self) -> int {
        self.minute as int
    }

    /// Minutes since midnight.
    pub open spec fn minutes(self) -> int {
        self.hour_spec() * 60 + self.minute_spec()
    }

    /// The time `hour:minute`; fails unless the hour is 0 to 23 and the
    /// minute 0 to 59.
    pub fn new(hour: u8, minute: u8) -> (r: Result<Self, RateError>)
        ensures
            r is Ok <==> (hour <= 23 && minute <= 59),
            r matches Ok(t) ==> t.hour_spec() == hour && t.minute_spec() == minute && t.wf(),
            r matches Err(e) ==> e.0@ == "Invalid time range"@,
    {
        if hour > 23 || minute > 59 {
            return Err(RateError("Invalid time range".to_owned()));
        }
        Ok(RateTime { hour, minute })
    }

    pub fn hour(&self) -> (r: u8)
        ensures
            r == self.hour_spec(),
            r <= 23,
    {
        proof {
            use_type_invariant(self);
        }
        self.hour
    }

    pub fn minute(&self) -> (r: u8)
        ensures
            r == self.minute_spec(),
            r <= 59,
    {
        proof {
            use_type_invariant(self);
        }
        self.minute
    }

    /// Minutes since midnight, 0 to 1439.
    pub fn minute_of_day(&self) -> (r: u16)
        ensures
            r == self.minutes(),
            r < 1440,
    {
        proof {
            use_type_invariant(self);
        }
        (self.hour as u16 * 60) + self.minute as u16
    }
}


/// An ASCII decimal digit.
pub open spec fn is_digit(c: char) -> bool {
    '0' <= c <= '9'
}

/// Value of a string of decimal digits.
pub open spec fn digits_value(s: Seq<char>) -> int
    decreases s.len(),
{
    if s.len() == 0 {
        0
    } else {
        digits_value(s.drop_last()) * 10 + (s.last() as int - '0' as int)
    }
}

/// Every character of `s` is a decimal digit.
pub open spec fn all_digits(s: Seq<char>) -> bool {
    forall|i: int| 0 <= i < s.len() ==> is_digit(#[trigger] s[i])
}

/// `s` without a leading `+`, if it has one.
pub open spec fn unsigned_part(s: Seq<char>) -> Seq<char> {
    if s.len() > 0 && s[0] == '+' {
        s.drop_first()
    } else {
        s
    }
}

/// The number that `s` spells as a `u8`: an optional `+`, then one or more
/// decimal digits whose value is at most 255.
pub open spec fn u8_text_value(s: Seq<char>) -> Option<int> {
    let d = unsigned_part(s);
    if d.len() > 0 && all_digits(d) && digits_value(d) <= 255 {
        Some(digits_value(d))
    } else {
        None
    }
}

/// Index of the first `:` in `s` at or after `i`, or the length of `s`.
pub open spec fn find_colon(s: Seq<char>, i: int) -> int
    decreases s.len() - i,
{
    if i < 0 || i >= s.len() {
        s.len() as int
    } else if s[i] == ':' {
        i
    } else {
        find_colon(s, i + 1)
    }
}

/// The hour text and the minute text of `hour:minute`: what precedes the
/// first `:`, and what follows it up to the next `:` or the end.
pub open spec fn time_fields(s: Seq<char>) -> Option<(Seq<char>, Seq<char>)> {
    let i = find_colon(s, 0);
    if i >= s.len() {
        None
    } else {
        let rest = s.subrange(i + 1, s.len() as int);
        Some((s.subrange(0, i), rest.subrange(0, find_colon(rest, 0))))
    }
}

/// Hour and minute that the text `hour:minute` gives, whether in range or not.
pub open spec fn time_text_value(s: Seq<char>) -> Option<(int, int)> {
    match time_fields(s) {
        Some((h, m)) => match (u8_text_value(h), u8_text_value(m)) {
            (Some(hv), Some(mv)) => Some((hv, mv)),
            _ => None,
        },
        None => None,
    }
}

proof fn lemma_find_colon_bounds(s: Seq<char>, i: int)
    requires
        0 <= i <= s.len(),
    ensures
        i <= find_colon(s, i) <= s.len(),
        find_colon(s, i) < s.len() ==> s[find_colon(s, i)] == ':',
        forall|j: int| i <= j < find_colon(s, i) ==> s[j] != ':',
    decreases s.len() - i,
{
    if i < s.len() && s[i] != ':' {
        lemma_find_colon_bounds(s, i + 1);
    }
}

proof fn lemma_digits_prefix_bound(s: Seq<char>, k: int)
    requires
        0 <= k <= s.len(),
        forall|i: int| 0 <= i < s.len() ==> is_digit(#[trigger] s[i]),
    ensures
        digits_value(s.subrange(0, k)) <= digits_value(s),
        0 <= digits_value(s.subrange(0, k)),
    decreases s.len(),
{
    if k == s.len() {
        assert(s.subrange(0, k) =~= s);
        lemma_digits_nonneg(s);
    } else {
        let t = s.drop_last();
        assert(t.subrange(0, k) =~= s.subrange(0, k));
        lemma_digits_prefix_bound(t, k);
        lemma_digits_nonneg(t);
    }
}

proof fn lemma_digits_nonneg(s: Seq<char>)
    requires
        forall|i: int| 0 <= i < s.len() ==> is_digit(#[trigger] s[i]),
    ensures
        0 <= digits_value(s),
    decreases s.len(),
{
    if s.len() > 0 {
        lemma_digits_nonneg(s.drop_last());
    }
}

/// Index of the first `:` in `cs` at or after `i`, or the length of `cs`.
fn colon_index(cs: &Vec<char>, i: usize) -> (r: usize)
    requires
        i <= cs@.len(),
    ensures
        r == find_colon(cs@, i as int),
{
    let mut k = i;
    while k < cs.len()
        invariant
            i <= k <= cs@.len(),
            find_colon(cs@, i as int) == find_colon(cs@, k as int),
        decreases cs@.len() - k,
    {
        if cs[k] == ':' {
            return k;
        }
        k = k + 1;
    }
    k
}

/// The `u8` spelt by the characters `cs[lo..hi]`, as `u8::from_str` reads it.
fn parse_u8(cs: &Vec<char>, lo: usize, hi: usize) -> (r: Option<u8>)
    requires
        lo <= hi <= cs@.len(),
    ensures
        r matches Some(v) ==> u8_text_value(cs@.subrange(lo as int, hi as int)) == Some(v as int),
        r is None ==> u8_text_value(cs@.subrange(lo as int, hi as int)) is None,
{
    let ghost s = cs@.subrange(lo as int, hi as int);
    let mut start = lo;
    if lo < hi && cs[lo] == '+' {
        start = lo + 1;
    }
    let ghost d = cs@.subrange(start as int, hi as int);
    assert(d =~= unsigned_part(s));
    if start == hi {
        return None;
    }
    let mut v: u32 = 0;
    let mut k = start;
    while k < hi
        invariant
            lo <= start <= k <= hi <= cs@.len(),
            d == cs@.subrange(start as int, hi as int),
            s == cs@.subrange(lo as int, hi as int),
            d == unsigned_part(s),
            forall|i: int| start <= i < k ==> is_digit(#[trigger] cs@[i]),
            v == digits_value(cs@.subrange(start as int, k as int)),
            v <= 255,
        decreases hi - k,
    {
        let c = cs[k];
        if !('0' <= c && c <= '9') {
            assert(!is_digit(d[k - start]));
            assert(!all_digits(d));
            return None;
        }
        let ghost prev = cs@.subrange(start as int, k as int);
        let ghost next = cs@.subrange(start as int, k + 1);
        assert(next.drop_last() =~= prev);
        assert(next.last() == c);
        v = v * 10 + (c as u32 - '0' as u32);
        k = k + 1;
        assert(v == digits_value(next));
        if v > 255 {
            proof {
                if all_digits(d) {
                    assert(d.subrange(0, k - start) =~= next);
                    lemma_digits_prefix_bound(d, k - start);
                }
                assert(u8_text_value(s) is None);
            }
            return None;
        }
    }
    assert(cs@.subrange(start as int, k as int) =~= d);
    assert forall|i: int| 0 <= i < d.len() implies is_digit(#[trigger] d[i]) by {
        assert(d[i] == cs@[start + i]);
    }
    assert(all_digits(d));
    Some(v as u8)
}

impl RateTime {
    /// Reads `hour:minute`. The hour is the text before the first `:`, the
    /// minute the text after it up to any further `:`; each is a `u8` in
    /// decimal, as `u8::from_str` reads it. Fails when there is no `:`, when
    /// either part is no such number, or when the time is out of range.
    pub fn parse(s: &str) -> (r: Result<RateTime, RateError>)
        ensures
            r is Ok <==> (time_text_value(s@) matches Some((h, m)) && h <= 23 && m <= 59),
            r matches Ok(t) ==> time_text_value(s@) == Some((t.hour_spec(), t.minute_spec())),
    {
        let n = s.unicode_len();
        let mut cs: Vec<char> = Vec::new();
        let mut i: usize = 0;
        while i < n
            invariant
                n == s@.len(),
                i <= n,
                cs@ == s@.subrange(0, i as int),
            decreases n - i,
        {
            cs.push(s.get_char(i));
            i = i + 1;
        }
        assert(cs@ =~= s@);
        let c1 = colon_index(&cs, 0);
        proof {
            lemma_find_colon_bounds(cs@, 0);
        }
        if c1 >= n {
            return Err(RateError("Missing ':' in time of day".to_owned()));
        }
        let c2 = colon_index(&cs, c1 + 1);
        proof {
            let rest = cs@.subrange(c1 + 1, n as int);
            lemma_find_colon_bounds(cs@, c1 + 1);
            lemma_find_colon_bounds(rest, 0);
            let f = find_colon(rest, 0);
            assert(c1 + 1 + f == c2) by {
                if c1 + 1 + f < c2 {
                    if f < rest.len() {
                        assert(rest[f] == cs@[c1 + 1 + f]);
                    }
                } else if c1 + 1 + f > c2 {
                    assert(rest[c2 - c1 - 1] == cs@[c2 as int]);
                }
            }
            assert(rest.subrange(0, f) =~= cs@.subrange(c1 + 1, c2 as int));
        }
        let h = parse_u8(&cs, 0, c1);
        let m = parse_u8(&cs, c1 + 1, c2);
        match (h, m) {
            (Some(hv), Some(mv)) => RateTime::new(hv, mv),
            _ => Err(RateError("Time of day is not hour:minute".to_owned())),
        }
    }
}

impl RateTime {
    /// The UTC time of day, to the minute, of the instant `t` (seconds since
    /// the Unix epoch).
    pub fn of_instant(t: i64) -> (r: RateTime)
        ensures
            r.minutes() == (t as int % SECS_PER_DAY as int) / 60,
    {
        let secs = if t >= 0 {
            t % SECS_PER_DAY
        } else {
            let m = (-(t + 1)) % SECS_PER_DAY;
            SECS_PER_DAY - 1 - m
        };
        proof {
            if t < 0 {
                vstd::arithmetic::div_mod::lemma_fundamental_div_mod(-(t + 1), 86400);
                vstd::arithmetic::div_mod::lemma_fundamental_div_mod(t as int, 86400);
                vstd::arithmetic::div_mod::lemma_mod_bound(-(t + 1), 86400);
                vstd::arithmetic::div_mod::lemma_mod_bound(t as int, 86400);
                assert(secs == t as int % 86400) by {
                    let q1 = (-(t + 1)) / 86400;
                    let q2 = (t as int) / 86400;
                    assert(t as int == -(q1 + 1) * 86400 + secs);
                    assert(-(q1 + 1) == q2) by (nonlinear_arith)
                        requires
                            t as int == -(q1 + 1) * 86400 + secs,
                            t as int == q2 * 86400 + t as int % 86400,
                            0 <= secs < 86400,
                            0 <= t as int % 86400 < 86400,
                    ;
                }
            }
        }
        let minutes = secs / 60;
        RateTime { hour: (minutes / 60) as u8, minute: (minutes % 60) as u8 }
    }
}

impl std::str::FromStr for RateTime {
    type Err = RateError;

    fn from_str(s: &str) -> Result<Self, Self::Err> {
        RateTime::parse(s)
    }
}

impl PartialEq for RateTime {
    fn eq(&self, other: &Self) -> bool {
        self.minute_of_day() == other.minute_of_day()
    }
}

impl vstd::std_specs::cmp::PartialEqSpecImpl for RateTime {
    open spec fn obeys_eq_spec() -> bool {
        true
    }

    open spec fn eq_spec(&self, other: &Self) -> bool {
        self.minutes() == other.minutes()
    }
}

impl Eq for RateTime {

}

impl PartialOrd for RateTime {
    fn partial_cmp(&self, other: &Self) -> Option<std::cmp::Ordering> {
        let a = self.minute_of_day();
        let b = other.minute_of_day();
        if a < b {
            Some(std::cmp::Ordering::Less)
        } else if a == b {
            Some(std::cmp::Ordering::Equal)
        } else {
            Some(std::cmp::Ordering::Greater)
        }
    }
}

/// Times of day are ordered by minutes since midnight.
impl vstd::std_specs::cmp::PartialOrdSpecImpl for RateTime {
    open spec fn obeys_partial_cmp_spec() -> bool {
        true
    }

    open spec fn partial_cmp_spec(&self, other: &Self) -> Option<std::cmp::Ordering> {
        if self.minutes() < other.minutes() {
            Some(std::cmp::Ordering::Less)
        } else if self.minutes() == other.minutes() {
            Some(std::cmp::Ordering::Equal)
        } else {
            Some(std::cmp::Ordering::Greater)
        }
    }
}


/// The weekday of day number `d`, counted from 1970-01-01.
fn weekday_of(d: i64) -> (r: Weekday)
    requires
        -DAY_BIAS < d < DAY_BIAS,
    ensures
        r == weekday_of_day(d as int),
{
    let shifted = (d + 3 + 7 * DAY_BIAS) as u64;
    proof {
        vstd::arithmetic::div_mod::lemma_mod_multiples_vanish(DAY_BIAS as int, d + 3, 7);
    }
    Weekday::from_ordinal((shifted % 7) as u8)
}

/// Relies on chrono's `Local` time zone (`TimeZone::offset_from_utc_datetime`
/// and `FixedOffset::local_minus_utc`): the machine's offset of local time from
/// UTC at the instant `secs`, which a `FixedOffset` keeps within one day.
#[verifier::external_body]
pub(crate) fn local_offset_at(secs: i64) -> (r: i32)
    requires
        -CALENDAR_LIMIT <= secs <= CALENDAR_LIMIT,
    ensures
        valid_offset(r as int),
{
    let utc = chrono::DateTime::from_timestamp(secs, 0).unwrap().naive_utc();
    chrono::Local.offset_from_utc_datetime(&utc).local_minus_utc()
}

/// One concrete occurrence of a rate window, as instants in seconds since
/// the Unix epoch.
#[derive(Debug, Clone, Copy, PartialEq, Eq, Structural)]
pub struct RateWindowAbsolute {
    pub start: i64,
    pub end: i64,
}

impl RateWindowAbsolute {
    /// `v` lies within the occurrence, both ends included.
    pub open spec fn contains(self, v: int) -> bool {
        self.start <= v <= self.end
    }

    pub fn is_inside(&self, v: i64) -> (r: bool)
        ensures
            r == self.contains(v as int),
    {
        self.start <= v && v <= self.end
    }
}

/// The occurrence from `start` to `end`.
pub open spec fn span(start: int, end: int) -> RateWindowAbsolute {
    RateWindowAbsolute { start: start as i64, end: end as i64 }
}

/// A recurring interval: from `start` to `end` on each of `days`, crossing
/// midnight when `end` is earlier than `start`. `days` are the weekdays on
/// which the window begins; with none it never occurs.
#[derive(Debug, Clone)]
pub struct RateWindow {
    pub start: RateTime,
    pub end: RateTime,
    pub days: Vec<Weekday>,
}

impl RateWindow {
    /// Both ends are valid times of day.
    pub open spec fn wf(self) -> bool {
        self.start.wf() && self.end.wf()
    }

    /// Minutes from start to end, wrapping past midnight.
    pub open spec fn period_spec(self) -> int {
        (self.end.minutes() - self.start.minutes()) % 1440
    }

    /// The window begins on local day `d` (days since 1970-01-01).
    pub open spec fn occurs_on(self, d: int) -> bool {
        self.days@.contains(weekday_of_day(d))
    }

    /// Start of the occurrence beginning on local day `d`, at offset `off`.
    pub open spec fn start_on(self, d: int, off: int) -> int {
        d * SECS_PER_DAY + self.start.minutes() * 60 - off
    }

    /// End of the occurrence beginning on local day `d`, at offset `off`.
    pub open spec fn end_on(self, d: int, off: int) -> int {
        self.start_on(d, off) + self.period_spec() * 60
    }

    /// The occurrence beginning on local day `d`, at offset `off`.
    pub open spec fn occurrence_on(self, d: int, off: int) -> RateWindowAbsolute {
        span(self.start_on(d, off), self.end_on(d, off))
    }

    /// The occurrence on local day `d` is kept for reference instant `from`:
    /// the window begins that day, and it starts at or after `from` or is in
    /// effect at `from`.
    pub open spec fn keeps(self, d: int, from: int, off: int) -> bool {
        &&& self.occurs_on(d)
        &&& (self.start_on(d, off) >= from || (self.start_on(d, off) <= from && from
            <= self.end_on(d, off)))
    }

    /// Kept occurrences of the first `n` days from `first_day` on, in order.
    pub open spec fn resolve_from(self, first_day: int, n: int, from: int, off: int) -> Seq<
        RateWindowAbsolute,
    >
        decreases n,
    {
        if n <= 0 {
            Seq::empty()
        } else {
            let prev = self.resolve_from(first_day, n - 1, from, off);
            let d = first_day + n - 1;
            if self.keeps(d, from, off) {
                prev.push(self.occurrence_on(d, off))
            } else {
                prev
            }
        }
    }

    /// The occurrences of this window relative to the reference instant
    /// `from`, with local time `off` seconds ahead of UTC: one for each listed
    /// weekday over the seven local days from the day before `from` on, less
    /// those that are over by `from`, in order of start.
    pub open spec fn resolve(self, from: int, off: int) -> Seq<RateWindowAbsolute> {
        self.resolve_from(anchor_day(from, off), 7, from, off)
    }

    /// Minutes in this window, from start to end, wrapping past midnight.
    pub fn period(&self) -> (r: i16)
        ensures
            r == self.period_spec(),
            0 <= r < 1440,
    {
        let end_m = self.end.minute_of_day() as i16;
        let start_m = self.start.minute_of_day() as i16;
        let v = end_m - start_m;
        if v < 0 {
            MINUTES_PER_DAY + v
        } else {
            v
        }
    }

    /// `days` holds `wd`.
    fn listed(&self, wd: Weekday) -> (r: bool)
        ensures
            r == self.days@.contains(wd),
    {
        let mut i: usize = 0;
        while i < self.days.len()
            invariant
                i <= self.days@.len(),
                forall|j: int| 0 <= j < i ==> self.days@[j] != wd,
            decreases self.days@.len() - i,
        {
            if self.days[i] == wd {
                return true;
            }
            i = i + 1;
        }
        false
    }

    /// The occurrences relative to the reference instant `from` (seconds
    /// since the Unix epoch), with local time `offset` seconds ahead of UTC.
    pub fn schedule_at(&self, from: i64, offset: i32) -> (r: Vec<RateWindowAbsolute>)
        requires
            valid_instant(from as int),
            valid_offset(offset as int),
        ensures
            r@ == self.resolve(from as int, offset as int),
    {
        proof {
            use_type_invariant(&self.start);
            use_type_invariant(&self.end);
        }
        let first = local_day(from, offset) - 1;
        let wd0 = weekday_of(first).ordinal();
        let start_m = self.start.minute_of_day() as i64;
        let period = self.period() as i64;
        let mut r: Vec<RateWindowAbsolute> = Vec::new();
        let mut k: u8 = 0;
        while k < 7
            invariant
                k <= 7,
                first == anchor_day(from as int, offset as int),
                wd0 == (first + 3) % 7,
                -DAY_BIAS < first < DAY_BIAS,
                start_m == self.start.minutes(),
                0 <= start_m < 1440,
                period == self.period_spec(),
                0 <= period < 1440,
                valid_instant(from as int),
                valid_offset(offset as int),
                r@ == self.resolve_from(first as int, k as int, from as int, offset as int),
            decreases 7 - k,
        {
            let d = first + k as i64;
            let wd = Weekday::from_ordinal((wd0 + k) % 7);
            proof {
                vstd::arithmetic::div_mod::lemma_add_mod_noop(first + 3, k as int, 7);
                vstd::arithmetic::div_mod::lemma_mod_twice(k as int, 7);
                assert(wd == weekday_of_day(d as int));
            }
            if self.listed(wd) {
                proof {
                    assert(-8_640_000_000_000_000 < d * 86400 < 8_640_000_000_000_000)
                        by (nonlinear_arith)
                        requires
                            -100_000_000 < d < 100_000_000,
                    ;
                }
                let s = d * SECS_PER_DAY + start_m * 60 - offset as i64;
                let e = s + period * 60;
                if s >= from || (s <= from && from <= e) {
                    r.push(RateWindowAbsolute { start: s, end: e });
                }
            }
            k = k + 1;
        }
        r
    }
}

impl RateWindow {
    /// The occurrences relative to the reference instant `from` (seconds
    /// since the Unix epoch), in the machine's local time.
    pub fn schedule(&self, from: i64) -> (r: Vec<RateWindowAbsolute>)
        requires
            valid_instant(from as int),
        ensures
            exists|off: int| valid_offset(off) && r@ == self.resolve(from as int, off),
    {
        let offset = local_offset_at(from);
        self.schedule_at(from, offset)
    }
}

/// Where the days of a resolution lie, relative to the reference instant.
proof fn lemma_anchor_bounds(from: int, off: int)
    requires
        valid_instant(from),
        valid_offset(off),
    ensures
        (anchor_day(from, off) + 1) * SECS_PER_DAY <= from + off,
        from + off < (anchor_day(from, off) + 2) * SECS_PER_DAY,
{
    vstd::arithmetic::div_mod::lemma_fundamental_div_mod(from + off, 86400);
    vstd::arithmetic::div_mod::lemma_mod_bound(from + off, 86400);
}

/// Facts on the first `n` days of a resolution: starts rise strictly, lie
/// between the start on the first day and that on day `n`, and each
/// occurrence lasts the window's period.
proof fn lemma_resolve_from_facts(w: RateWindow, from: int, off: int, n: int)
    requires
        w.wf(),
        valid_instant(from),
        valid_offset(off),
        0 <= n <= 7,
    ensures
        ({
            let r = w.resolve_from(anchor_day(from, off), n, from, off);
            let first = anchor_day(from, off);
            &&& forall|i: int|
                0 <= i < r.len() ==> {
                    &&& w.start_on(first, off) <= #[trigger] r[i].start
                    &&& r[i].start < w.start_on(first + n, off)
                    &&& r[i].end - r[i].start == w.period_spec() * 60
                }
            &&& forall|i: int, j: int| 0 <= i < j < r.len() ==> r[i].start < r[j].start
        }),
    decreases n,
{
    let first = anchor_day(from, off);
    lemma_anchor_bounds(from, off);
    if n > 0 {
        lemma_resolve_from_facts(w, from, off, n - 1);
        let d = first + n - 1;
        assert(w.start_on(d, off) + SECS_PER_DAY == w.start_on(first + n, off));
        assert(w.start_on(first, off) <= w.start_on(d, off)) by (nonlinear_arith)
            requires
                first <= d,
                w.start_on(first, off) == first * 86400 + w.start.minutes() * 60 - off,
                w.start_on(d, off) == d * 86400 + w.start.minutes() * 60 - off,
        ;
        assert(first * 86400 <= d * 86400 <= first * 86400 + 6 * 86400) by (nonlinear_arith)
            requires
                first <= d <= first + 6,
        ;
        assert(0 <= w.period_spec() < 1440);
        assert(0 <= w.start.minutes() < 1440) by {
            lemma_minutes_in_day(w.start);
        }
        let st = w.start_on(d, off);
        let en = w.end_on(d, off);
        assert(-5_000_000_000_000 < st < 5_000_000_000_000);
        assert(-5_000_000_000_000 < en < 5_000_000_000_000);
        let o = w.occurrence_on(d, off);
        assert(o.start == st && o.end == en);
        let prev = w.resolve_from(first, n - 1, from, off);
        let r = w.resolve_from(first, n, from, off);
        if w.keeps(d, from, off) {
            assert(r == prev.push(o));
            assert forall|i: int| 0 <= i < r.len() implies {
                &&& w.start_on(first, off) <= #[trigger] r[i].start
                &&& r[i].start < w.start_on(first + n, off)
                &&& r[i].end - r[i].start == w.period_spec() * 60
            } by {
                if i < prev.len() {
                    assert(r[i] == prev[i]);
                }
            }
            assert forall|i: int, j: int| 0 <= i < j < r.len() implies r[i].start < r[j].start by {
                assert(r[i] == prev[i]);
                if j < prev.len() {
                    assert(r[j] == prev[j]);
                }
            }
        }
    }
}

/// A valid time of day falls within the day.
proof fn lemma_minutes_in_day(t: RateTime)
    requires
        t.wf(),
    ensures
        0 <= t.minutes() < 1440,
{
}

/// A kept occurrence of one of the first `n` days is in the resolution.
proof fn lemma_resolve_from_keeps(w: RateWindow, from: int, off: int, n: int, d: int)
    requires
        anchor_day(from, off) <= d < anchor_day(from, off) + n,
        w.keeps(d, from, off),
    ensures
        w.resolve_from(anchor_day(from, off), n, from, off).contains(w.occurrence_on(d, off)),
    decreases n,
{
    let first = anchor_day(from, off);
    if d < first + n - 1 {
        lemma_resolve_from_keeps(w, from, off, n - 1, d);
        let prev = w.resolve_from(first, n - 1, from, off);
        let i = choose|i: int| 0 <= i < prev.len() && prev[i] == w.occurrence_on(d, off);
        let r = w.resolve_from(first, n, from, off);
        assert(r[i] == w.occurrence_on(d, off));
    } else {
        let r = w.resolve_from(first, n, from, off);
        assert(r[r.len() - 1] == w.occurrence_on(d, off));
    }
}

/// The occurrences of a window come in strictly ascending order of start,
/// and each lasts the window's period, midnight crossing included.
pub proof fn lemma_resolve_sorted(w: RateWindow, from: int, off: int)
    requires
        w.wf(),
        valid_instant(from),
        valid_offset(off),
    ensures
        forall|i: int, j: int|
            0 <= i < j < w.resolve(from, off).len() ==> w.resolve(from, off)[i].start < w.resolve(
                from,
                off,
            )[j].start,
        forall|i: int|
            0 <= i < w.resolve(from, off).len() ==> #[trigger] w.resolve(from, off)[i].end
                - w.resolve(from, off)[i].start == w.period_spec() * 60,
{
    lemma_resolve_from_facts(w, from, off, 7);
}

/// A window with no days never occurs.
pub proof fn lemma_no_days_never(w: RateWindow, from: int, off: int)
    requires
        w.days@.len() == 0,
    ensures
        w.resolve(from, off).len() == 0,
{
    assert forall|n: int| n <= 7 implies #[trigger] w.resolve_from(
        anchor_day(from, off),
        n,
        from,
        off,
    ).len() == 0 by {
        lemma_no_days_prefix(w, from, off, n);
    }
}

proof fn lemma_no_days_prefix(w: RateWindow, from: int, off: int, n: int)
    requires
        w.days@.len() == 0,
    ensures
        w.resolve_from(anchor_day(from, off), n, from, off).len() == 0,
    decreases n,
{
    if n > 0 {
        lemma_no_days_prefix(w, from, off, n - 1);
        assert(!w.days@.contains(weekday_of_day(anchor_day(from, off) + n - 1)));
    }
}

/// An occurrence in effect at the reference instant (start <= from <= end)
/// is among the occurrences, though it started before `from`.
pub proof fn lemma_active_kept(w: RateWindow, from: int, off: int, d: int)
    requires
        w.wf(),
        valid_instant(from),
        valid_offset(off),
        w.occurs_on(d),
        w.start_on(d, off) <= from <= w.end_on(d, off),
    ensures
        w.resolve(from, off).contains(w.occurrence_on(d, off)),
{
    let first = anchor_day(from, off);
    lemma_anchor_bounds(from, off);
    lemma_minutes_in_day(w.start);
    assert(0 <= w.period_spec() < 1440);
    // the occurrence started at most a day before `from`, and not after it
    assert(first <= d <= first + 1) by (nonlinear_arith)
        requires
            (first + 1) * 86400 <= from + off,
            from + off < (first + 2) * 86400,
            d * 86400 + w.start.minutes() * 60 - off <= from,
            from <= d * 86400 + w.start.minutes() * 60 - off + w.period_spec() * 60,
            0 <= w.start.minutes() < 1440,
            0 <= w.period_spec() < 1440,
    ;
    lemma_resolve_from_keeps(w, from, off, 7, d);
}

/// Resolving one window against one reference instant twice gives the same
/// occurrences.
pub proof fn lemma_resolve_repeatable(
    w: RateWindow,
    from: int,
    off: int,
    r1: Seq<RateWindowAbsolute>,
    r2: Seq<RateWindowAbsolute>,
)
    requires
        r1 == w.resolve(from, off),
        r2 == w.resolve(from, off),
    ensures
        r1 == r2,
{
}

/// The local day, counted from 1970-01-01, of instant `from` at offset `off`.
pub open spec fn local_day_of(from: int, off: int) -> int {
    (from + off) / SECS_PER_DAY as int
}

/// The local day before that of the reference instant: a window that began
/// then and crosses midnight may still be in effect.
pub open spec fn anchor_day(from: int, off: int) -> int {
    local_day_of(from, off) - 1
}

/// The local day of instant `from` at offset `offset`.
fn local_day(from: i64, offset: i32) -> (r: i64)
    requires
        valid_instant(from as int),
        valid_offset(offset as int),
    ensures
        r == local_day_of(from as int, offset as int),
        -DAY_BIAS < r - 1,
        r + 8 < DAY_BIAS,
{
    let shifted = from + offset as i64 + DAY_BIAS * SECS_PER_DAY;
    let r = (shifted as u64 / SECS_PER_DAY as u64) as i64 - DAY_BIAS;
    proof {
        let x = from + offset;
        assert((x + DAY_BIAS * 86400) / 86400 == x / 86400 + DAY_BIAS) by {
            vstd::arithmetic::div_mod::lemma_hoist_over_denominator(x, DAY_BIAS as int, 86400);
        }
    }
    r
}

} // verus!

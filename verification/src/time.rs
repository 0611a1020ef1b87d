//! Instants and calendar dates, held as integers.
//!
//! An instant is a count of whole seconds since 1970-01-01T00:00:00Z plus a
//! nanosecond part; a calendar date is its day number counted from
//! 0001-01-01 (day 1), as `chrono` numbers them. Both stay inside the range
//! that `chrono` represents.
use vstd::prelude::*;

verus! {

/// Day number of the first date that `chrono` represents (year -262143, January 1).
pub const MIN_DAY: i32 = -95_746_129;
/// Day number of the last date that `chrono` represents (year 262142, December 31).
pub const MAX_DAY: i32 = 95_745_399;
/// First second of the representable range, counted from the Unix epoch.
pub const MIN_SECS: i64 = -8_334_601_228_800;
/// Last second of the representable range, counted from the Unix epoch.
pub const MAX_SECS: i64 = 8_210_266_876_799;
/// Nanoseconds in one second.
pub const NANOS_PER_SEC: u32 = 1_000_000_000;

/// Whether `(secs, nanos)` is an instant that `chrono` represents (without
/// leap-second nanoseconds).
pub open spec fn instant_in_range(secs: int, nanos: int) -> bool {
    MIN_SECS <= secs <= MAX_SECS && 0 <= nanos < NANOS_PER_SEC
}

/// A UTC instant.
#[derive(Debug, Clone, Copy)]
pub struct Timestamp {
    secs: i64,
    nanos: u32,
}

impl View for Timestamp {
    type V = (int, int);

    closed spec fn view(&self) -> (int, int) {
        (self.secs as int, self.nanos as int)
    }
}

/// `a` is strictly earlier than `b`.
pub open spec fn earlier(a: (int, int), b: (int, int)) -> bool {
    a.0 < b.0 || (a.0 == b.0 && a.1 < b.1)
}

/// The instant `minutes` minutes after `t`.
pub open spec fn plus_minutes(t: (int, int), minutes: int) -> (int, int) {
    (t.0 + 60 * minutes, t.1)
}

/// Whether adding `minutes` minutes to `t` stays in the representable range.
pub open spec fn can_add_minutes(t: (int, int), minutes: int) -> bool {
    instant_in_range(plus_minutes(t, minutes).0, t.1)
}

/// The RFC 3339 text that `chrono::DateTime::<Utc>::to_rfc3339` writes for an instant.
pub uninterp spec fn rfc3339_text(secs: int, nanos: int) -> Seq<char>;

impl Timestamp {
    #[verifier::type_invariant]
    spec fn in_range(self) -> bool {
        instant_in_range(self.secs as int, self.nanos as int)
    }

    /// Every timestamp is in the representable range.
    pub fn check_range(&self)
        ensures
            instant_in_range(self@.0, self@.1),
    {
        proof {
            use_type_invariant(self);
        }
    }

    /// The instant with these parts, if it is in the representable range.
    pub fn from_parts(secs: i64, nanos: u32) -> (r: Option<Timestamp>)
        ensures
            r is Some <==> instant_in_range(secs as int, nanos as int),
            r matches Some(t) ==> t@ == (secs as int, nanos as int),
    {
        if MIN_SECS <= secs && secs <= MAX_SECS && nanos < NANOS_PER_SEC {
            Some(Timestamp { secs, nanos })
        } else {
            None
        }
    }

    /// Whole seconds since the Unix epoch.
    pub fn secs(&self) -> (r: i64)
        ensures
            r as int == self@.0,
    {
        self.secs
    }

    /// Nanoseconds after the whole second.
    pub fn nanos(&self) -> (r: u32)
        ensures
            r as int == self@.1,
    {
        self.nanos
    }

    /// Whether `self` is strictly earlier than `other`.
    pub fn is_before(&self, other: &Timestamp) -> (r: bool)
        ensures
            r == earlier(self@, other@),
    {
        self.secs < other.secs || (self.secs == other.secs && self.nanos < other.nanos)
    }

    /// The instant `minutes` minutes later.
    pub fn add_minutes(&self, minutes: u32) -> (r: Timestamp)
        requires
            can_add_minutes(self@, minutes as int),
        ensures
            r@ == plus_minutes(self@, minutes as int),
    {
        proof {
            use_type_invariant(self);
        }
        Timestamp { secs: self.secs + 60 * (minutes as i64), nanos: self.nanos }
    }

    /// Whether adding `minutes` minutes stays in the representable range.
    pub fn fits_minutes(&self, minutes: u32) -> (b: bool)
        ensures
            b == can_add_minutes(self@, minutes as int),
    {
        proof {
            use_type_invariant(self);
        }
        self.secs + 60 * (minutes as i64) <= MAX_SECS
    }

    /// The RFC 3339 text of this instant.
    pub fn to_rfc3339(&self) -> (r: String)
        ensures
            r@ == rfc3339_text(self@.0, self@.1),
    {
        proof {
            use_type_invariant(self);
        }
        rfc3339_of(self.secs, self.nanos)
    }

}

/// `chrono::DateTime::<Utc>::from_timestamp(secs, nanos)` followed by
/// `to_rfc3339`; the range that `requires` states is the one on which
/// `from_timestamp` gives `Some`.
#[verifier::external_body]
fn rfc3339_of(secs: i64, nanos: u32) -> (r: String)
    requires
        instant_in_range(secs as int, nanos as int),
    ensures
        r@ == rfc3339_text(secs as int, nanos as int),
{
    chrono::DateTime::<chrono::Utc>::from_timestamp(secs, nanos).unwrap().to_rfc3339()
}

/// `chrono::Utc::now`: the current instant. Nothing is stated of which
/// instant it is; it is in the range `chrono` represents, with a nanosecond
/// part below one second (the system clock has no leap seconds).
#[verifier::external_body]
pub(crate) fn now() -> (r: Timestamp) {
    let t = chrono::Utc::now();
    Timestamp { secs: t.timestamp(), nanos: t.timestamp_subsec_nanos() }
}

/// A calendar date.
#[derive(Debug, Clone, Copy)]
pub struct CalendarDate {
    days: i32,
}

impl View for CalendarDate {
    type V = int;

    closed spec fn view(&self) -> int {
        self.days as int
    }
}

/// The `%Y-%m-%d` text that `chrono::NaiveDate`'s `Display` writes for a day number.
pub uninterp spec fn date_text(days: int) -> Seq<char>;

/// What `chrono::NaiveDate::parse_from_str(s, "%Y-%m-%d")` gives, as a day number.
pub uninterp spec fn date_parse(s: Seq<char>) -> Option<int>;

impl CalendarDate {
    #[verifier::type_invariant]
    spec fn in_range(self) -> bool {
        MIN_DAY <= self.days <= MAX_DAY
    }

    /// The date with this day number, if `chrono` represents it.
    pub fn from_days(days: i32) -> (r: Option<CalendarDate>)
        ensures
            r is Some <==> MIN_DAY <= days <= MAX_DAY,
            r matches Some(d) ==> d@ == days as int,
    {
        if MIN_DAY <= days && days <= MAX_DAY {
            Some(CalendarDate { days })
        } else {
            None
        }
    }

    /// Day number counted from 0001-01-01 (day 1).
    pub fn days(&self) -> (r: i32)
        ensures
            r as int == self@,
    {
        self.days
    }

    /// The `%Y-%m-%d` text of this date.
    pub fn to_text(&self) -> (r: String)
        ensures
            r@ == date_text(self@),
    {
        proof {
            use_type_invariant(self);
        }
        date_text_of(self.days)
    }

}

/// `chrono::NaiveDate::from_num_days_from_ce_opt(days)` followed by
/// `to_string`; the range in `requires` is where the first gives `Some`.
#[verifier::external_body]
fn date_text_of(days: i32) -> (r: String)
    requires
        MIN_DAY <= days <= MAX_DAY,
    ensures
        r@ == date_text(days as int),
{
    chrono::NaiveDate::from_num_days_from_ce_opt(days).unwrap().to_string()
}

/// `chrono::NaiveDate::parse_from_str(s, "%Y-%m-%d")`, keeping the day
/// number of a parsed date and `None` on a parse error. Every date it yields
/// is one `chrono` represents.
#[verifier::external_body]
fn parse_date_days(s: &str) -> (r: Option<i32>)
    ensures
        r matches Some(d) ==> date_parse(s@) == Some(d as int),
        r is None ==> date_parse(s@) is None,
        r matches Some(d) ==> MIN_DAY <= d <= MAX_DAY,
{
    match chrono::NaiveDate::parse_from_str(s, "%Y-%m-%d") {
        Ok(d) => Some(chrono::Datelike::num_days_from_ce(&d)),
        Err(_) => None,
    }
}

/// Parses a `%Y-%m-%d` date; `None` when the text is not one.
pub fn parse_date(s: &str) -> (r: Option<CalendarDate>)
    ensures
        r is Some <==> date_parse(s@) is Some,
        r matches Some(d) ==> date_parse(s@) == Some(d@),
{
    match parse_date_days(s) {
        Some(d) => CalendarDate::from_days(d),
        None => None,
    }
}

} // verus!

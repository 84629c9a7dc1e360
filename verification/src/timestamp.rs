//! Instants in UTC, and their RFC 3339 text form.

use vstd::prelude::*;

verus! {

/// A point in time: whole seconds since 1970-01-01T00:00:00Z and nanoseconds
/// within the second. A leap second is the second before it, with a nanosecond
/// count of a billion or more.
#[derive(Clone, Copy, Debug, PartialEq, Eq, Structural)]
pub struct Timestamp {
    pub secs: i64,
    pub nanos: u32,
}

/// Whether `(secs, nanos)` is an instant of the years -262143 to 262142, with
/// a leap second only at the end of a minute.
pub open spec fn valid_instant(secs: i64, nanos: u32) -> bool {
    &&& -8334601228800 <= secs < 8210266876800
    &&& nanos < 2_000_000_000
    &&& nanos >= 1_000_000_000 ==> secs as int % 60 == 59
}

/// Whether the second lies in the years 0 to 9999, which RFC 3339 can write.
pub open spec fn four_digit_year(secs: i64) -> bool {
    -62167219200 <= secs < 253402300800
}

impl Timestamp {
    pub open spec fn valid(self) -> bool {
        valid_instant(self.secs, self.nanos)
    }

    /// Whether the RFC 3339 text of the instant can be read back.
    pub open spec fn writable(self) -> bool {
        self.valid() && four_digit_year(self.secs)
    }

    /// The order of instants in time.
    pub open spec fn before(self, other: Timestamp) -> bool {
        self.secs < other.secs || (self.secs == other.secs && self.nanos < other.nanos)
    }

    /// Whether the instant lies strictly before the other.
    pub fn is_before(&self, other: &Timestamp) -> (r: bool)
        ensures
            r == self.before(*other),
    {
        self.secs < other.secs || (self.secs == other.secs && self.nanos < other.nanos)
    }

    /// The instant of the two counts, unless there is none.
    pub fn new(secs: i64, nanos: u32) -> (r: Option<Timestamp>)
        ensures
            match r {
                Some(t) => valid_instant(secs, nanos) && t.secs == secs && t.nanos == nanos,
                None => !valid_instant(secs, nanos),
            },
    {
        if secs < -8334601228800 || secs >= 8210266876800 || nanos >= 2_000_000_000 {
            return None;
        }
        if nanos >= 1_000_000_000 {
            // counted from a whole number of minutes before the first valid second
            let since: i64 = secs + 8334601228800;
            if since % 60 != 59 {
                return None;
            }
        }
        Some(Timestamp { secs, nanos })
    }

    /// The instant at which the call is made, by the machine's clock, which counts no
    /// leap seconds.
    pub fn now() -> (r: Timestamp)
        ensures
            r.valid(),
            r.nanos < 1_000_000_000,
    {
        let (secs, nanos) = utc_now();
        Timestamp { secs, nanos }
    }

    /// The RFC 3339 text of the instant. In the years 0 to 9999 the text reads
    /// back as the same instant.
    pub fn to_rfc3339(&self) -> (r: String)
        requires
            self.valid(),
        ensures
            r@ == rfc3339_text(self.secs, self.nanos),
            (self.writable() ==> rfc3339_instant(r@) == Ok::<_, Seq<char>>(
                (self.secs, self.nanos),
            )),
    {
        format_rfc3339(self.secs, self.nanos)
    }

    /// The instant that an RFC 3339 text names, or why it names none.
    pub fn from_rfc3339(value: &str) -> (r: Result<Timestamp, String>)
        ensures
            match r {
                Ok(t) => named_instant(value@) == Ok::<_, Seq<char>>(t) && t.valid(),
                Err(reason) => named_instant(value@) == Err::<Timestamp, _>(reason@),
            },
    {
        match parse_rfc3339(value) {
            Ok((secs, nanos)) => Ok(Timestamp { secs, nanos }),
            Err(reason) => Err(reason),
        }
    }
}

/// The instant that the text names, or why it names none.
pub open spec fn named_instant(value: Seq<char>) -> Result<Timestamp, Seq<char>> {
    match rfc3339_instant(value) {
        Ok((secs, nanos)) => Ok(Timestamp { secs, nanos }),
        Err(reason) => Err(reason),
    }
}

/// What `DateTime::to_rfc3339` of `chrono` writes for the UTC instant of these
/// seconds and nanoseconds.
pub uninterp spec fn rfc3339_text(secs: i64, nanos: u32) -> Seq<char>;

/// What `DateTime::parse_from_rfc3339` of `chrono` reads from a text, as seconds and
/// nanoseconds in UTC, or the words of the error that it reports.
pub uninterp spec fn rfc3339_instant(text: Seq<char>) -> Result<(i64, u32), Seq<char>>;

/// `Utc::now` of `chrono`: an instant that `chrono` can hold, and never a leap second,
/// as it is made from a count of seconds without them. Nothing is said of which one:
/// it is the machine's clock that decides. On a clock set before 1970 the call panics.
#[verifier::external_body]
fn utc_now() -> (r: (i64, u32))
    ensures
        valid_instant(r.0, r.1),
        r.1 < 1_000_000_000,
{
    let now = chrono::Utc::now();
    (now.timestamp(), now.timestamp_subsec_nanos())
}

/// `DateTime::to_rfc3339` of `chrono`, on the UTC instant of the arguments. The
/// text is a function of the instant; in the years 0 to 9999 it holds every
/// digit of the instant, so that `parse_from_rfc3339` gives the instant back.
#[verifier::external_body]
fn format_rfc3339(secs: i64, nanos: u32) -> (r: String)
    requires
        valid_instant(secs, nanos),
    ensures
        r@ == rfc3339_text(secs, nanos),
        (four_digit_year(secs) ==> rfc3339_instant(r@) == Ok::<_, Seq<char>>((secs, nanos))),
{
    chrono::DateTime::<chrono::Utc>::from_timestamp(secs, nanos).unwrap().to_rfc3339()
}

/// `DateTime::parse_from_rfc3339` of `chrono`, the result taken to UTC and an error
/// taken as its words. The result is a function of the text, and an instant that
/// `chrono` can hold.
#[verifier::external_body]
fn parse_rfc3339(value: &str) -> (r: Result<(i64, u32), String>)
    ensures
        match r {
            Ok(t) => rfc3339_instant(value@) == Ok::<_, Seq<char>>(t) && valid_instant(t.0, t.1),
            Err(reason) => rfc3339_instant(value@) == Err::<(i64, u32), _>(reason@),
        },
{
    match chrono::DateTime::parse_from_rfc3339(value) {
        Ok(t) => {
            let utc = t.with_timezone(&chrono::Utc);
            Ok((utc.timestamp(), utc.timestamp_subsec_nanos()))
        },
        Err(e) => Err(e.to_string()),
    }
}

} // verus!

use vstd::prelude::*;

verus! {

/// The largest distance from the epoch, in seconds, that a [`Timestamp`]
/// may have: about 253,000 years, inside the calendar range of the date
/// library that renders it.
pub const MAX_ABS_SECS: i64 = 8_000_000_000_000;

/// Nanoseconds in one second.
pub const NANOS_PER_SEC: u32 = 1_000_000_000;

/// The RFC 3339 text, with a `+00:00` offset, of the UTC instant `secs`
/// seconds and `nanos` nanoseconds after the Unix epoch.
pub uninterp spec fn rfc3339_of(secs: i64, nanos: u32) -> Seq<char>;

/// Relies on `chrono::DateTime::<Utc>::from_timestamp` and
/// `DateTime::to_rfc3339`. The first returns `Some` for every nanosecond
/// count below one second and every day count in the calendar range (years
/// -262142 to 262142), which `MAX_ABS_SECS` stays inside.
#[verifier::external_body]
fn chrono_rfc3339(secs: i64, nanos: u32) -> (r: Option<String>)
    ensures
        r matches Some(t) ==> t@ == rfc3339_of(secs, nanos),
        -MAX_ABS_SECS <= secs <= MAX_ABS_SECS && nanos < NANOS_PER_SEC ==> r is Some,
{
    match chrono::DateTime::from_timestamp(secs, nanos) {
        Some(d) => Some(d.to_rfc3339()),
        None => None,
    }
}

/// An instant in UTC, as seconds and nanoseconds since the Unix epoch.
#[derive(Clone, Copy, Debug)]
pub struct Timestamp {
    secs: i64,
    nanos: u32,
}

impl Timestamp {
    /// The range that every timestamp keeps.
    pub open spec fn valid(secs: int, nanos: int) -> bool {
        -MAX_ABS_SECS <= secs <= MAX_ABS_SECS && 0 <= nanos < NANOS_PER_SEC
    }

    pub closed spec fn spec_secs(&self) -> i64 {
        self.secs
    }

    pub closed spec fn spec_nanos(&self) -> u32 {
        self.nanos
    }

    #[verifier::type_invariant]
    closed spec fn wf(&self) -> bool {
        Self::valid(self.secs as int, self.nanos as int)
    }

    /// The instant `secs` seconds and `nanos` nanoseconds after the epoch,
    /// or `None` where either lies outside the supported range.
    pub fn from_unix(secs: i64, nanos: u32) -> (r: Option<Timestamp>)
        ensures
            r is Some <==> Self::valid(secs as int, nanos as int),
            r matches Some(t) ==> t.spec_secs() == secs && t.spec_nanos() == nanos,
    {
        if -MAX_ABS_SECS <= secs && secs <= MAX_ABS_SECS && nanos < NANOS_PER_SEC {
            Some(Timestamp { secs, nanos })
        } else {
            None
        }
    }

    pub fn secs(&self) -> (r: i64)
        ensures
            r == self.spec_secs(),
    {
        self.secs
    }

    pub fn nanos(&self) -> (r: u32)
        ensures
            r == self.spec_nanos(),
    {
        self.nanos
    }

    /// The text that both the timestamp header and the signed message carry.
    pub open spec fn spec_text(&self) -> Seq<char> {
        rfc3339_of(self.spec_secs(), self.spec_nanos())
    }

    /// Renders the instant in RFC 3339 form.
    pub fn to_rfc3339(&self) -> (r: String)
        ensures
            r@ == self.spec_text(),
    {
        proof {
            use_type_invariant(self);
        }
        let t = chrono_rfc3339(self.secs, self.nanos);
        t.unwrap()
    }
}

} // verus!

use vstd::prelude::*;

verus! {

/// Nanoseconds in one second.
pub const NANOS_PER_SEC: i128 = 1_000_000_000;

/// A UTC instant: whole seconds since the Unix epoch and the nanoseconds
/// within that second.
#[derive(Clone, Copy, Debug, PartialEq, Eq, Structural)]
pub struct Timestamp {
    pub secs: i64,
    pub nanos: u32,
}

impl Timestamp {
    /// The instant as nanoseconds since the Unix epoch.
    pub open spec fn instant(self) -> int {
        self.secs * 1_000_000_000 + self.nanos
    }

    pub fn new(secs: i64, nanos: u32) -> (r: Self)
        ensures
            r.secs == secs,
            r.nanos == nanos,
    {
        Timestamp { secs, nanos }
    }

    /// Nanoseconds since the Unix epoch.
    pub fn total_nanos(&self) -> (r: i128)
        ensures
            r == self.instant(),
    {
        let s = self.secs as i128;
        assert(-0x8000_0000_0000_0000 <= s <= 0x7fff_ffff_ffff_ffff);
        assert(-0x8000_0000_0000_0000 * 1_000_000_000 <= s * 1_000_000_000
            <= 0x7fff_ffff_ffff_ffff * 1_000_000_000) by (nonlinear_arith)
            requires
                -0x8000_0000_0000_0000 <= s <= 0x7fff_ffff_ffff_ffff,
        ;
        s * NANOS_PER_SEC + self.nanos as i128
    }

    /// This instant moved by `secs` seconds; `None` when the seconds would
    /// leave the 64-bit range.
    pub fn add_seconds(&self, secs: i64) -> (r: Option<Timestamp>)
        ensures
            match r {
                Some(t) => {
                    &&& t.secs == self.secs + secs
                    &&& t.nanos == self.nanos
                },
                None => !(i64::MIN <= self.secs + secs <= i64::MAX),
            },
    {
        match self.secs.checked_add(secs) {
            Some(s) => Some(Timestamp { secs: s, nanos: self.nanos }),
            None => None,
        }
    }

    /// Whether this instant comes strictly before `other`.
    pub fn is_before(&self, other: &Timestamp) -> (r: bool)
        ensures
            r == (self.instant() < other.instant()),
    {
        self.total_nanos() < other.total_nanos()
    }

    /// Nanoseconds left from `now` until this instant; zero once it has come.
    pub fn nanos_until(&self, now: &Timestamp) -> (r: u128)
        ensures
            r == if self.instant() > now.instant() {
                self.instant() - now.instant()
            } else {
                0
            },
    {
        let due = self.total_nanos();
        let current = now.total_nanos();
        if due > current {
            (due - current) as u128
        } else {
            0
        }
    }
}

} // verus!

use vstd::prelude::*;

verus! {

/// A block height: a revision number and a height within that revision.
#[derive(Clone, Copy, Debug, PartialEq, Eq, Structural)]
pub struct Height {
    pub revision_number: u64,
    pub revision_height: u64,
}

impl Height {
    /// Strict order of heights, defined only within one revision.
    pub open spec fn lt_spec(self, other: Height) -> bool {
        self.revision_number == other.revision_number && self.revision_height
            < other.revision_height
    }

    pub fn new(revision_number: u64, revision_height: u64) -> (r: Height)
        ensures
            r.revision_number == revision_number,
            r.revision_height == revision_height,
    {
        Height { revision_number, revision_height }
    }

    /// Whether `self` is strictly below `other` in the same revision.
    pub fn lt(&self, other: &Height) -> (r: bool)
        ensures
            r == self.lt_spec(*other),
    {
        self.revision_number == other.revision_number && self.revision_height
            < other.revision_height
    }
}

/// The timeout height of a packet: either none, or a height at which the
/// packet expires.
#[derive(Clone, Copy, Debug, PartialEq, Eq, Structural)]
pub enum TimeoutHeight {
    Never,
    At(Height),
}

impl TimeoutHeight {
    /// Revision number used in a commitment; zero when no timeout height is set.
    pub open spec fn commitment_number_spec(self) -> u64 {
        match self {
            TimeoutHeight::Never => 0,
            TimeoutHeight::At(h) => h.revision_number,
        }
    }

    /// Revision height used in a commitment; zero when no timeout height is set.
    pub open spec fn commitment_height_spec(self) -> u64 {
        match self {
            TimeoutHeight::Never => 0,
            TimeoutHeight::At(h) => h.revision_height,
        }
    }

    /// A packet with this timeout has expired at `host` when the timeout is set
    /// and `host` is not strictly below it.
    pub open spec fn has_expired_spec(self, host: Height) -> bool {
        match self {
            TimeoutHeight::Never => false,
            TimeoutHeight::At(h) => !host.lt_spec(h),
        }
    }

    pub fn commitment_revision_number(&self) -> (r: u64)
        ensures
            r == self.commitment_number_spec(),
    {
        match self {
            TimeoutHeight::Never => 0,
            TimeoutHeight::At(h) => h.revision_number,
        }
    }

    pub fn commitment_revision_height(&self) -> (r: u64)
        ensures
            r == self.commitment_height_spec(),
    {
        match self {
            TimeoutHeight::Never => 0,
            TimeoutHeight::At(h) => h.revision_height,
        }
    }

    pub fn has_expired(&self, host: &Height) -> (r: bool)
        ensures
            r == self.has_expired_spec(*host),
    {
        match self {
            TimeoutHeight::Never => false,
            TimeoutHeight::At(h) => !host.lt(h),
        }
    }
}

/// Nanoseconds since the Unix epoch; zero stands for "no timestamp".
#[derive(Clone, Copy, Debug, PartialEq, Eq, Structural)]
pub struct Timestamp {
    pub nanoseconds: u64,
}

impl Timestamp {
    /// A packet with timeout `self` has expired at `host` when the timeout is
    /// set and `host` is not strictly before it.
    pub open spec fn has_expired_spec(self, host: Timestamp) -> bool {
        self.nanoseconds != 0 && host.nanoseconds >= self.nanoseconds
    }

    pub fn nanoseconds(&self) -> (r: u64)
        ensures
            r == self.nanoseconds,
    {
        self.nanoseconds
    }

    pub fn has_expired(&self, host: &Timestamp) -> (r: bool)
        ensures
            r == self.has_expired_spec(*host),
    {
        self.nanoseconds != 0 && host.nanoseconds >= self.nanoseconds
    }
}

} // verus!

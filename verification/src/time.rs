//! Spans of time and moments, counted in nanoseconds.
use vstd::prelude::*;

verus! {

/// The nanoseconds in a second.
pub const NANOS_PER_SEC: u128 = 1_000_000_000;

/// A span of time below 2^64 seconds, exact to the nanosecond.
#[derive(Clone, Copy, Debug, PartialEq, Eq)]
pub struct Duration {
    nanos: u128,
}

/// One nanosecond more than the longest [`Duration`].
pub open spec fn duration_bound() -> nat {
    (0x1_0000_0000_0000_0000 * 1_000_000_000) as nat
}

impl View for Duration {
    type V = nat;

    /// The span in nanoseconds.
    closed spec fn view(&self) -> nat {
        self.nanos as nat
    }
}

impl Duration {
    #[verifier::type_invariant]
    spec fn in_bounds(self) -> bool {
        self.nanos < duration_bound()
    }

    /// A span of `secs` whole seconds.
    pub fn from_secs(secs: u64) -> (span: Duration)
        ensures
            span@ == secs * 1_000_000_000,
    {
        Duration { nanos: secs as u128 * NANOS_PER_SEC }
    }

    /// A span of `secs` seconds and `nanos` nanoseconds.
    pub fn new(secs: u64, nanos: u32) -> (span: Duration)
        requires
            nanos < 1_000_000_000,
        ensures
            span@ == secs * 1_000_000_000 + nanos,
    {
        Duration { nanos: secs as u128 * NANOS_PER_SEC + nanos as u128 }
    }

    /// The empty span.
    pub fn zero() -> (span: Duration)
        ensures
            span@ == 0,
    {
        Duration { nanos: 0 }
    }

    /// The whole seconds in the span.
    pub fn as_secs(&self) -> (secs: u64)
        ensures
            secs == self@ / 1_000_000_000,
    {
        proof {
            use_type_invariant(self);
        }
        (self.nanos / NANOS_PER_SEC) as u64
    }

    /// The nanoseconds beyond the whole seconds.
    pub fn subsec_nanos(&self) -> (nanos: u32)
        ensures
            nanos == self@ % 1_000_000_000,
    {
        (self.nanos % NANOS_PER_SEC) as u32
    }

    /// Whether the span is empty.
    pub fn is_zero(&self) -> (zero: bool)
        ensures
            zero == (self@ == 0),
    {
        self.nanos == 0
    }

    /// Whether the span is shorter than `other`.
    pub fn is_below(&self, other: &Duration) -> (below: bool)
        ensures
            below == (self@ < other@),
    {
        self.nanos < other.nanos
    }

    /// The span less `other`, or the empty span when `other` is longer.
    pub fn saturating_sub(&self, other: &Duration) -> (span: Duration)
        ensures
            span@ == (if self@ >= other@ {
                (self@ - other@) as nat
            } else {
                0
            }),
    {
        proof {
            use_type_invariant(self);
        }
        if self.nanos >= other.nanos {
            Duration { nanos: self.nanos - other.nanos }
        } else {
            Duration { nanos: 0 }
        }
    }

    /// The span and `other` together, or the longest span when that is shorter.
    pub fn saturating_add(&self, other: &Duration) -> (span: Duration)
        ensures
            span@ == (if self@ + other@ < duration_bound() {
                self@ + other@
            } else {
                (duration_bound() - 1) as nat
            }),
    {
        proof {
            use_type_invariant(self);
            use_type_invariant(other);
        }
        let longest: u128 = 0x1_0000_0000_0000_0000 * NANOS_PER_SEC - 1;
        let sum = self.nanos + other.nanos;
        if sum <= longest {
            Duration { nanos: sum }
        } else {
            Duration { nanos: longest }
        }
    }

    /// The shorter of two spans.
    pub fn min(self, other: Duration) -> (span: Duration)
        ensures
            span == (if other@ < self@ {
                other
            } else {
                self
            }),
    {
        if other.nanos < self.nanos {
            other
        } else {
            self
        }
    }
}

/// A span in nanoseconds, when there is one.
pub open spec fn optional_span(span: Option<Duration>) -> Option<nat> {
    match span {
        Some(span) => Some(span@),
        None => None,
    }
}

/// A moment, as the span since the Unix epoch.
#[derive(Clone, Copy, Debug, PartialEq, Eq)]
pub struct SystemTime {
    since_epoch: Duration,
}

impl View for SystemTime {
    type V = nat;

    /// The nanoseconds since the Unix epoch.
    closed spec fn view(&self) -> nat {
        self.since_epoch@
    }
}

impl SystemTime {
    /// The moment `span` after the Unix epoch.
    pub fn after_epoch(span: Duration) -> (moment: SystemTime)
        ensures
            moment@ == span@,
    {
        SystemTime { since_epoch: span }
    }

    /// The span from the Unix epoch to this moment.
    pub fn since_epoch(&self) -> (span: Duration)
        ensures
            span@ == self@,
    {
        self.since_epoch
    }

    /// The span from `earlier` to this moment, unless `earlier` is the later of the two.
    pub fn duration_since(&self, earlier: &SystemTime) -> (span: Option<Duration>)
        ensures
            optional_span(span) == (if earlier@ <= self@ {
                Some((self@ - earlier@) as nat)
            } else {
                None::<nat>
            }),
    {
        if self.since_epoch.is_below(&earlier.since_epoch) {
            None
        } else {
            Some(self.since_epoch.saturating_sub(&earlier.since_epoch))
        }
    }
}

/// A moment in nanoseconds since the Unix epoch, when there is one.
pub open spec fn optional_moment(moment: Option<SystemTime>) -> Option<nat> {
    match moment {
        Some(moment) => Some(moment@),
        None => None,
    }
}

/// A span of seconds and nanoseconds is read back as both, and spans are told apart by their length.
pub proof fn span_is_read_back(
    secs: u64,
    nanos: u32,
    span: Duration,
    whole: u64,
    rest: u32,
    other: Duration,
    below: bool,
    above: bool,
)
    requires
        nanos < 1_000_000_000,
        call_ensures(Duration::new, (secs, nanos), span),
        call_ensures(Duration::as_secs, (&span,), whole),
        call_ensures(Duration::subsec_nanos, (&span,), rest),
        call_ensures(Duration::is_below, (&span, &other), below),
        call_ensures(Duration::is_below, (&other, &span), above),
    ensures
        whole == secs && rest == nanos,
        !(below && above),
        !below && !above ==> span@ == other@,
{
}

/// What is taken off a span and put back makes the span, unless more was taken off than there was.
pub proof fn difference_is_made_up(
    span: Duration,
    less: Duration,
    left: Duration,
    back: Duration,
    shorter: Duration,
)
    requires
        call_ensures(Duration::saturating_sub, (&span, &less), left),
        call_ensures(Duration::saturating_add, (&left, &less), back),
        call_ensures(Duration::min, (span, less), shorter),
        span@ < duration_bound(),
    ensures
        less@ <= span@ ==> back@ == span@,
        less@ > span@ ==> left@ == 0,
        shorter@ <= span@ && shorter@ <= less@,
        shorter@ == span@ || shorter@ == less@,
{
}

/// The time from one moment to a later one leads from the first to the second; there is none to an
/// earlier one.
pub proof fn time_leads_from_moment_to_moment(
    from: SystemTime,
    to: SystemTime,
    span: Option<Duration>,
)
    requires
        call_ensures(SystemTime::duration_since, (&to, &from), span),
    ensures
        (span is Some) == (from@ <= to@),
        span is Some ==> from@ + span->Some_0@ == to@,
{
}

/// Whole seconds are read back, and a moment is as far from the epoch as it was put.
pub proof fn seconds_are_read_back(
    secs: u64,
    span: Duration,
    whole: u64,
    empty: bool,
    moment: SystemTime,
    distance: Duration,
)
    requires
        call_ensures(Duration::from_secs, (secs,), span),
        call_ensures(Duration::as_secs, (&span,), whole),
        call_ensures(Duration::is_zero, (&span,), empty),
        call_ensures(SystemTime::after_epoch, (span,), moment),
        call_ensures(SystemTime::since_epoch, (&moment,), distance),
    ensures
        whole == secs,
        empty == (secs == 0),
        distance@ == span@,
{
}

} // verus!

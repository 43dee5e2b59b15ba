//! Spans of time, as precise as the system's own.

use crate::text::{duration_debug, duration_text};
use vstd::prelude::*;

verus! {

/// How many nanoseconds a second has.
pub const NANOS_PER_SEC: u32 = 1_000_000_000;

/// A span of time: whole seconds, and nanoseconds that do not make a second.
#[derive(Debug, Clone, Copy, PartialEq, Eq, Structural)]
pub struct Span {
    secs: u64,
    nanos: u32,
}

impl Span {
    #[verifier::type_invariant]
    spec fn nanos_make_no_second(&self) -> bool {
        self.nanos < NANOS_PER_SEC
    }

    /// The whole seconds.
    pub closed spec fn secs(self) -> u64 {
        self.secs
    }

    /// What is left beyond the whole seconds, in nanoseconds.
    pub closed spec fn nanos(self) -> u32 {
        self.nanos
    }

    /// The whole span, in nanoseconds.
    pub open spec fn total(self) -> nat {
        (self.secs() * 1_000_000_000 + self.nanos()) as nat
    }

    /// The span as a text, such as `5s` or `100ms`.
    pub open spec fn text(self) -> Seq<char> {
        duration_text(self.secs(), self.nanos())
    }

    /// So many seconds and nanoseconds. Nanoseconds that make seconds are
    /// carried over.
    pub fn new(secs: u64, nanos: u32) -> (r: Span)
        requires
            secs + nanos / NANOS_PER_SEC <= u64::MAX,
        ensures
            r.secs() == secs + nanos / NANOS_PER_SEC,
            r.nanos() == nanos % NANOS_PER_SEC,
            r.total() == secs * 1_000_000_000 + nanos,
    {
        Span { secs: secs + (nanos / NANOS_PER_SEC) as u64, nanos: nanos % NANOS_PER_SEC }
    }

    /// So many milliseconds.
    pub fn from_millis(millis: u64) -> (r: Span)
        ensures
            r.secs() == millis / 1_000,
            r.nanos() == millis % 1_000 * 1_000_000,
            r.total() == millis * 1_000_000,
    {
        Span { secs: millis / 1_000, nanos: (millis % 1_000) as u32 * 1_000_000 }
    }

    /// The whole seconds.
    pub fn as_secs(&self) -> (r: u64)
        ensures
            r == self.secs(),
    {
        self.secs
    }

    /// What is left beyond the whole seconds, in nanoseconds.
    pub fn subsec_nanos(&self) -> (r: u32)
        ensures
            r == self.nanos(),
            r < NANOS_PER_SEC,
    {
        proof {
            use_type_invariant(self);
        }
        self.nanos
    }

    /// The span as a text, such as `5s` or `100ms`.
    pub fn show(&self) -> (r: String)
        ensures
            r@ == self.text(),
    {
        duration_debug(self.as_secs(), self.subsec_nanos())
    }
}

/// Two spans with the same whole seconds and the same rest are equally long, and
/// the seconds and the rest of a span are those of its length: a rest makes no
/// second.
pub proof fn a_length_is_split_in_one_way(a: Span, b: Span)
    requires
        a.nanos() < 1_000_000_000,
        b.nanos() < 1_000_000_000,
    ensures
        a.secs() == a.total() / 1_000_000_000,
        a.nanos() == a.total() % 1_000_000_000,
        a.total() == b.total() <==> a.secs() == b.secs() && a.nanos() == b.nanos(),
        a.secs() == b.secs() && a.nanos() == b.nanos() ==> a.text() == b.text(),
{
}

} // verus!

//! The progress-reporting capability and the protocol it is used
//! under.

use vstd::prelude::*;

verus! {

/// The capability a consumer implements to observe progress of a
/// long-running install: one `setup` call announcing the bounded unit
/// of work, then `progress` calls with a non-decreasing count.
pub trait Reporter {
    fn setup(&mut self, total: Option<u64>, label: &str);

    fn progress(&mut self, current: u64);
}

/// A reporter that ignores every notification; used when a caller
/// supplies no sink.
pub struct NoopReporter;

impl Reporter for NoopReporter {
    fn setup(&mut self, total: Option<u64>, label: &str) {
    }

    fn progress(&mut self, current: u64) {
    }
}

/// A reporter together with the protocol it must be used under:
/// `setup` exactly once, then `progress` with counts that never
/// decrease and never pass the declared total. The contracts here make
/// every verified caller obey that protocol; the wrapped reporter
/// itself is only ever observed through it.
pub struct ProgressSink<R: Reporter> {
    reporter: R,
    started: bool,
    total: Option<u64>,
    count: u64,
}

impl<R: Reporter> ProgressSink<R> {
    /// Whether `setup` has been called.
    pub closed spec fn spec_started(&self) -> bool {
        self.started
    }

    /// The total declared at `setup`, if any.
    pub closed spec fn spec_total(&self) -> Option<u64> {
        self.total
    }

    /// The last reported count.
    pub closed spec fn spec_count(&self) -> u64 {
        self.count
    }

    pub fn new(reporter: R) -> (s: Self)
        ensures
            !s.spec_started(),
    {
        ProgressSink { reporter, started: false, total: None, count: 0 }
    }

    /// Announces one bounded unit of work. Must come before any
    /// `progress` call and cannot be repeated.
    pub fn setup(&mut self, total: Option<u64>, label: &str)
        requires
            !old(self).spec_started(),
        ensures
            final(self).spec_started(),
            final(self).spec_total() == total,
            final(self).spec_count() == 0,
    {
        self.reporter.setup(total, label);
        self.started = true;
        self.total = total;
        self.count = 0;
    }

    /// Reports a count: never below the previous one, never above the
    /// declared total.
    pub fn progress(&mut self, current: u64)
        requires
            old(self).spec_started(),
            current >= old(self).spec_count(),
            old(self).spec_total() matches Some(t) ==> current <= t,
        ensures
            final(self).spec_started(),
            final(self).spec_total() == old(self).spec_total(),
            final(self).spec_count() == current,
    {
        self.reporter.progress(current);
        self.count = current;
    }

    /// Whether `setup` has already been called, so that an unverified
    /// caller can test the protocol before calling in.
    pub fn is_started(&self) -> (b: bool)
        ensures
            b == self.spec_started(),
    {
        self.started
    }

    /// Hands the wrapped reporter back once the unit of work is over.
    pub fn into_reporter(self) -> R {
        self.reporter
    }
}

} // verus!

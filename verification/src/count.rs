//! Run statistics: how many tests began and how many of them failed.

use crate::parse::{TestEvent, TestResult, TestResultView};
use crate::text::{decimal, decimal_string};
use vstd::prelude::*;

verus! {

/// The number of tests that were started and the number that failed.
#[derive(Debug, Clone, Copy, PartialEq, Eq, Structural)]
pub struct TestCount {
    pub ran_count: u32,
    pub failed_count: u32,
}

/// The mathematical value of a [`TestCount`]: two natural numbers.
pub struct Tally {
    pub ran: nat,
    pub failed: nat,
}

impl Tally {
    /// The tally before any event.
    pub open spec fn zero() -> Tally {
        Tally { ran: 0, failed: 0 }
    }

    /// The tally that follows `self` once `event` has been observed: a test
    /// that starts counts as run, a test that fails counts as failed, and no
    /// other event counts.
    pub open spec fn after(self, event: TestResultView) -> Tally {
        if event.is_test_started() {
            Tally { ran: self.ran + 1, failed: self.failed }
        } else if event.is_test_failed() {
            Tally { ran: self.ran, failed: self.failed + 1 }
        } else {
            self
        }
    }

    /// The tally that follows `self` once `events` have been observed in
    /// order.
    pub open spec fn after_all(self, events: Seq<TestResultView>) -> Tally
        decreases events.len(),
    {
        if events.len() == 0 {
            self
        } else {
            self.after_all(events.drop_last()).after(events.last())
        }
    }

    /// A run is a success when something ran and nothing failed.
    pub open spec fn successful(self) -> bool {
        self.failed == 0 && self.ran > 0
    }

    /// Both numbers fit the counters of a [`TestCount`].
    pub open spec fn fits(self) -> bool {
        self.ran <= u32::MAX && self.failed <= u32::MAX
    }

    /// The line that sums up the run.
    pub open spec fn summary(self) -> Seq<char> {
        if self.successful() {
            decimal(self.ran) + " tests passed"@
        } else {
            decimal(self.failed) + "/"@ + decimal(self.ran) + " tests failed"@
        }
    }
}

/// How many of `events` announce that a test began.
pub open spec fn started_count(events: Seq<TestResultView>) -> nat {
    events.filter(|event: TestResultView| event.is_test_started()).len()
}

/// How many of `events` report that a test failed.
pub open spec fn failed_count(events: Seq<TestResultView>) -> nat {
    events.filter(|event: TestResultView| event.is_test_failed()).len()
}

/// A tally grows by the number of tests that began and by the number of
/// tests that failed, and by nothing else.
pub proof fn lemma_tally_counts(tally: Tally, events: Seq<TestResultView>)
    ensures
        tally.after_all(events).ran == tally.ran + started_count(events),
        tally.after_all(events).failed == tally.failed + failed_count(events),
    decreases events.len(),
{
    reveal(Seq::filter);
    if events.len() > 0 {
        lemma_tally_counts(tally, events.drop_last());
    }
}

/// A tally never shrinks, and grows by one for each event at most.
pub proof fn lemma_tally_bounds(tally: Tally, events: Seq<TestResultView>)
    ensures
        tally.ran <= tally.after_all(events).ran <= tally.ran + events.len(),
        tally.failed <= tally.after_all(events).failed <= tally.failed + events.len(),
    decreases events.len(),
{
    if events.len() > 0 {
        lemma_tally_bounds(tally, events.drop_last());
    }
}

/// Feeding two runs of events one after the other is feeding them as one.
pub proof fn lemma_tally_after_concat(
    tally: Tally,
    first: Seq<TestResultView>,
    second: Seq<TestResultView>,
)
    ensures
        tally.after_all(first + second) == tally.after_all(first).after_all(second),
    decreases second.len(),
{
    if second.len() > 0 {
        lemma_tally_after_concat(tally, first, second.drop_last());
        assert((first + second).drop_last() =~= first + second.drop_last());
    }
}

/// No failure outnumbers the tests that ran, as long as the stream reports
/// no more failures than starts.
pub proof fn lemma_failed_within_ran(tally: Tally, events: Seq<TestResultView>)
    requires
        tally.failed <= tally.ran,
        failed_count(events) <= started_count(events),
    ensures
        tally.after_all(events).failed <= tally.after_all(events).ran,
{
    lemma_tally_counts(tally, events);
}

/// A stream without a test is no success, and neither is one with a
/// failure.
pub proof fn lemma_successful_iff(events: Seq<TestResultView>)
    ensures
        Tally::zero().after_all(events).successful() <==> started_count(events) > 0
            && failed_count(events) == 0,
{
    lemma_tally_counts(Tally::zero(), events);
}

impl View for TestCount {
    type V = Tally;

    open spec fn view(&self) -> Tally {
        Tally { ran: self.ran_count as nat, failed: self.failed_count as nat }
    }
}

impl TestCount {
    /// Accounts for one more event.
    pub fn feed(&mut self, result: &TestResult)
        requires
            old(self)@.after(result@).fits(),
        ensures
            final(self)@ == old(self)@.after(result@),
    {
        match result {
            TestResult::Test { event, name: _ } => {
                match event {
                    TestEvent::Started => {
                        self.ran_count = self.ran_count + 1;
                    },
                    TestEvent::Failed { test_output: _ } => {
                        self.failed_count = self.failed_count + 1;
                    },
                    _ => {},
                }
            },
            _ => {},
        }
    }

    /// Whether something ran and nothing failed. A run without tests is no
    /// success.
    pub fn was_successful(&self) -> (ok: bool)
        ensures
            ok == self@.successful(),
    {
        self.failed_count == 0 && self.ran_count > 0
    }

    /// The line that sums up the run: how many tests passed, or how many of
    /// those that ran failed.
    pub fn summary(&self) -> (line: String)
        ensures
            line@ == self@.summary(),
    {
        if self.was_successful() {
            let mut line = decimal_string(self.ran_count);
            line.append(" tests passed");
            line
        } else {
            let mut line = decimal_string(self.failed_count);
            line.append("/");
            let ran = decimal_string(self.ran_count);
            line.append(ran.as_str());
            line.append(" tests failed");
            line
        }
    }
}

impl Default for TestCount {
    fn default() -> (count: TestCount)
        ensures
            count@ == Tally::zero(),
    {
        TestCount { ran_count: 0, failed_count: 0 }
    }
}

} // verus!

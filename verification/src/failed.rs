//! The failing tests of a run, by name, in the order in which they failed.

use crate::count::failed_count;
use crate::parse::{TestEvent, TestResult, TestResultView};
use crate::text::views;
use vstd::prelude::*;
use vstd::slice::slice_subrange;

verus! {

/// The names of the tests that failed, oldest first. A test that fails twice
/// is listed twice.
#[derive(Debug)]
pub struct FailedTests(pub Vec<String>);

/// The list of failures once `event` has been observed: a test that fails
/// adds its name at the end, and no other event changes the list.
pub open spec fn failures_after(names: Seq<Seq<char>>, event: TestResultView) -> Seq<Seq<char>> {
    if event.is_test_failed() {
        names.push(event.test_name())
    } else {
        names
    }
}

/// The list of failures once `events` have been observed in order.
pub open spec fn failures_after_all(names: Seq<Seq<char>>, events: Seq<TestResultView>) -> Seq<
    Seq<char>,
>
    decreases events.len(),
{
    if events.len() == 0 {
        names
    } else {
        failures_after(failures_after_all(names, events.drop_last()), events.last())
    }
}

/// The names of the tests that `events` report as failed, in the order of
/// the events.
pub open spec fn failed_names(events: Seq<TestResultView>) -> Seq<Seq<char>> {
    events.filter(|event: TestResultView| event.is_test_failed()).map_values(
        |event: TestResultView| event.test_name(),
    )
}

/// The list of failures grows by the names of the failed tests, in the
/// order in which the failures were observed; a test that fails twice is
/// added twice, and what was listed before stays in front.
pub proof fn lemma_failures_in_order(names: Seq<Seq<char>>, events: Seq<TestResultView>)
    ensures
        failures_after_all(names, events) == names + failed_names(events),
    decreases events.len(),
{
    reveal(Seq::filter);
    if events.len() > 0 {
        lemma_failures_in_order(names, events.drop_last());
    }
}

/// The list grows by one name for each failure, and by nothing else.
pub proof fn lemma_failures_len(names: Seq<Seq<char>>, events: Seq<TestResultView>)
    ensures
        failures_after_all(names, events).len() == names.len() + failed_count(events),
{
    lemma_failures_in_order(names, events);
}

/// Feeding two runs of events one after the other is feeding them as one.
pub proof fn lemma_failures_after_concat(
    names: Seq<Seq<char>>,
    first: Seq<TestResultView>,
    second: Seq<TestResultView>,
)
    ensures
        failures_after_all(names, first + second) == failures_after_all(
            failures_after_all(names, first),
            second,
        ),
    decreases second.len(),
{
    if second.len() > 0 {
        lemma_failures_after_concat(names, first, second.drop_last());
        assert((first + second).drop_last() =~= first + second.drop_last());
    }
}

/// The first `max` names of a list, or all of them where there are fewer.
pub open spec fn first_names(names: Seq<Seq<char>>, max: nat) -> Seq<Seq<char>> {
    if max < names.len() {
        names.take(max as int)
    } else {
        names
    }
}

impl View for FailedTests {
    type V = Seq<Seq<char>>;

    open spec fn view(&self) -> Seq<Seq<char>> {
        views(self.0@)
    }
}

impl FailedTests {
    /// Records the name of the test where `result` reports a failure.
    pub fn feed(&mut self, result: &TestResult)
        ensures
            final(self)@ == failures_after(old(self)@, result@),
    {
        match result {
            TestResult::Test { event, name } => {
                match event {
                    TestEvent::Failed { test_output: _ } => {
                        self.0.push(name.clone());
                    },
                    _ => {},
                }
            },
            _ => {},
        }
    }

    /// The oldest failures, at most `max` of them, in their order.
    pub fn first(&self, max: usize) -> (names: &[String])
        ensures
            views(names@) == first_names(self@, max as nat),
    {
        let shown = if max < self.0.len() {
            max
        } else {
            self.0.len()
        };
        slice_subrange(self.0.as_slice(), 0, shown)
    }
}

impl Default for FailedTests {
    fn default() -> (failed: FailedTests)
        ensures
            failed@ == Seq::<Seq<char>>::empty(),
    {
        FailedTests(Vec::new())
    }
}

} // verus!

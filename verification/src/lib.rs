//! Live tally of a test runner's event stream.
//!
//! A test runner reports its progress as one JSON record per line. This
//! library decodes such records into a closed set of events, folds them into
//! run statistics and an ordered list of failing tests, and renders the
//! summary that a status display shows.

pub mod count;
pub mod failed;
pub mod json;
pub mod parse;
pub mod text;

use crate::count::{lemma_tally_after_concat, lemma_tally_bounds, Tally, TestCount};
use crate::failed::{failures_after, failures_after_all, FailedTests};
use crate::parse::{decode_line, event_of_line, TestResult, TestResultView};
use crate::text::{lemma_lines_count, lemma_text_within_bytes, lines_of, split_lines, views};
use vstd::prelude::*;
use vstd::utf8::{decode_utf8, valid_utf8};

verus! {

/// The captured output is not text: it is not valid UTF-8.
#[derive(Debug, Clone, Copy, PartialEq, Eq, Structural)]
pub struct NotText;

/// The events that a sequence of lines decodes to, in order. A line that
/// does not decode contributes nothing.
pub open spec fn events_of(lines: Seq<Seq<char>>) -> Seq<TestResultView>
    decreases lines.len(),
{
    if lines.len() == 0 {
        Seq::empty()
    } else {
        match event_of_line(lines.last()) {
            Ok(event) => events_of(lines.drop_last()).push(event),
            Err(_) => events_of(lines.drop_last()),
        }
    }
}

/// The events of two runs of lines, one after the other, are the events of
/// the lines as one run.
pub proof fn lemma_events_of_concat(first: Seq<Seq<char>>, second: Seq<Seq<char>>)
    ensures
        events_of(first + second) == events_of(first) + events_of(second),
    decreases second.len(),
{
    if second.len() > 0 {
        lemma_events_of_concat(first, second.drop_last());
        assert((first + second).drop_last() =~= first + second.drop_last());
    }
}

/// A stream holds at most one event for each of its lines.
pub proof fn lemma_events_within_lines(lines: Seq<Seq<char>>)
    ensures
        events_of(lines).len() <= lines.len(),
    decreases lines.len(),
{
    if lines.len() > 0 {
        lemma_events_within_lines(lines.drop_last());
    }
}

/// A tally that has room for one test for each line has room for the
/// stream: each line counts one test at most.
pub proof fn lemma_lines_fit(tally: Tally, lines: Seq<Seq<char>>)
    requires
        tally.ran + lines.len() <= u32::MAX,
        tally.failed + lines.len() <= u32::MAX,
    ensures
        tally.after_all(events_of(lines)).fits(),
{
    lemma_events_within_lines(lines);
    lemma_tally_bounds(tally, events_of(lines));
}

/// A tally that has room for a stream has room for each of its prefixes.
pub proof fn lemma_prefix_fits(tally: Tally, lines: Seq<Seq<char>>, n: int)
    requires
        0 <= n <= lines.len(),
        tally.after_all(events_of(lines)).fits(),
    ensures
        tally.after_all(events_of(lines.take(n))).fits(),
{
    let first = events_of(lines.take(n));
    let second = events_of(lines.skip(n));
    assert(lines.take(n) + lines.skip(n) =~= lines);
    lemma_events_of_concat(lines.take(n), lines.skip(n));
    lemma_tally_after_concat(tally, first, second);
    lemma_tally_bounds(tally.after_all(first), second);
}

/// A line that does not decode is skipped: a stream with such a line
/// between its lines holds the events of the stream without it. Both
/// aggregates therefore end as if the line had not been there, and the
/// lines after it are read all the same.
pub proof fn lemma_bad_line_is_skipped(
    tally: Tally,
    names: Seq<Seq<char>>,
    before: Seq<Seq<char>>,
    bad: Seq<char>,
    after: Seq<Seq<char>>,
)
    requires
        event_of_line(bad) is Err,
    ensures
        events_of(before.push(bad) + after) == events_of(before + after),
        events_of(before.push(bad) + after) == events_of(before) + events_of(after),
        tally.after_all(events_of(before.push(bad) + after)) == tally.after_all(
            events_of(before + after),
        ),
        failures_after_all(names, events_of(before.push(bad) + after)) == failures_after_all(
            names,
            events_of(before + after),
        ),
{
    assert(before.push(bad).drop_last() =~= before);
    lemma_events_of_concat(before.push(bad), after);
    lemma_events_of_concat(before, after);
}

/// Feeds one event to the statistics and then to the list of failures.
pub fn feed(count: &mut TestCount, failed: &mut FailedTests, new_results: &TestResult)
    requires
        old(count)@.after(new_results@).fits(),
    ensures
        final(count)@ == old(count)@.after(new_results@),
        final(failed)@ == failures_after(old(failed)@, new_results@),
{
    count.feed(new_results);
    failed.feed(new_results);
}

/// Decodes one line and feeds its event; tells whether the line held one.
/// A line that does not decode is skipped: it changes nothing.
pub fn feed_line(count: &mut TestCount, failed: &mut FailedTests, line: &str) -> (fed: bool)
    requires
        event_of_line(line@) matches Ok(event) ==> old(count)@.after(event).fits(),
    ensures
        match event_of_line(line@) {
            Ok(event) => {
                &&& fed
                &&& final(count)@ == old(count)@.after(event)
                &&& final(failed)@ == failures_after(old(failed)@, event)
            },
            Err(_) => {
                &&& !fed
                &&& *final(count) == *old(count)
                &&& *final(failed) == *old(failed)
            },
        },
{
    match decode_line(line) {
        Ok(event) => {
            feed(count, failed, &event);
            true
        },
        Err(_) => false,
    }
}

/// Feeds the lines of a stream in order, skipping those that do not decode.
pub fn feed_lines(count: &mut TestCount, failed: &mut FailedTests, lines: &[String])
    requires
        old(count)@.after_all(events_of(views(lines@))).fits(),
    ensures
        final(count)@ == old(count)@.after_all(events_of(views(lines@))),
        final(failed)@ == failures_after_all(old(failed)@, events_of(views(lines@))),
{
    let mut i: usize = 0;
    while i < lines.len()
        invariant
            i <= lines@.len(),
            old(count)@.after_all(events_of(views(lines@))).fits(),
            count@ == old(count)@.after_all(events_of(views(lines@).take(i as int))),
            failed@ == failures_after_all(old(failed)@, events_of(views(lines@).take(i as int))),
        decreases lines@.len() - i,
    {
        proof {
            let seen = views(lines@).take(i + 1);
            let before = events_of(views(lines@).take(i as int));
            assert(seen.drop_last() == views(lines@).take(i as int));
            if let Ok(event) = event_of_line(seen.last()) {
                assert(before.push(event).drop_last() == before);
            }
            lemma_prefix_fits(old(count)@, views(lines@), i + 1);
        }
        feed_line(count, failed, lines[i].as_str());
        i = i + 1;
    }
    assert(views(lines@).take(lines@.len() as int) == views(lines@));
}

/// Feeds a captured output: splits it at its line feeds and feeds the lines
/// in order.
pub fn feed_output(count: &mut TestCount, failed: &mut FailedTests, output: &str)
    requires
        old(count)@.after_all(events_of(lines_of(output@))).fits(),
    ensures
        final(count)@ == old(count)@.after_all(events_of(lines_of(output@))),
        final(failed)@ == failures_after_all(old(failed)@, events_of(lines_of(output@))),
{
    let lines = split_lines(output);
    feed_lines(count, failed, lines.as_slice());
}

/// Tallies the whole output of a run, from nothing.
///
/// An output that is not valid UTF-8 cannot be read at all: it is an error
/// of the whole run, and no tally comes of it.
pub fn tally(output: &[u8]) -> (r: Result<(TestCount, FailedTests), NotText>)
    requires
        output@.len() < u32::MAX,
    ensures
        match r {
            Ok((count, failed)) => {
                let events = events_of(lines_of(decode_utf8(output@)));
                &&& valid_utf8(output@)
                &&& count@ == Tally::zero().after_all(events)
                &&& failed@ == failures_after_all(Seq::empty(), events)
            },
            Err(_) => !valid_utf8(output@),
        },
{
    broadcast use vstd::utf8::encode_utf8_decode_utf8;

    match core::str::from_utf8(output) {
        Ok(text) => {
            proof {
                lemma_text_within_bytes(text@);
                lemma_lines_count(text@);
                lemma_lines_fit(Tally::zero(), lines_of(text@));
            }
            let mut count = TestCount::default();
            let mut failed = FailedTests::default();
            feed_output(&mut count, &mut failed, text);
            Ok((count, failed))
        },
        Err(_) => Err(NotText),
    }
}

} // verus!

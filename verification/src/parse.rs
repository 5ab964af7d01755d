//! The event model: the records a test runner emits, as a closed sum type.

use crate::json::{json_of, json_read, read_value, value_member, value_text, value_unsigned, Json};
use vstd::prelude::*;

verus! {

/// The snapshot of totals that closes a suite.
#[derive(Debug, Clone, Copy, PartialEq, Eq, Structural)]
pub struct CommonTestCounts {
    pub passed: u32,
    pub failed: u32,
    pub allowed_fail: u32,
    pub ignored: u32,
    pub measured: u32,
    pub filtered_out: u32,
}

/// A step in the life of one run of the test binary.
#[derive(Debug, Clone, Copy, PartialEq, Eq, Structural)]
pub enum SuiteEvent {
    Started { test_count: u32 },
    Passed { counts: CommonTestCounts },
    Failed { counts: CommonTestCounts },
}

/// A step in the life of one test case.
#[derive(Debug)]
pub enum TestEvent {
    Started,
    Passed,
    Failed { test_output: String },
}

/// One decoded record of the stream.
#[derive(Debug)]
#[allow(inconsistent_fields)]
pub enum TestResult {
    Suite { event: SuiteEvent },
    Test { event: TestEvent, name: String },
}

/// The mathematical value of a [`TestEvent`].
pub enum TestEventView {
    Started,
    Passed,
    Failed { test_output: Seq<char> },
}

/// The mathematical value of a [`TestResult`].
#[allow(inconsistent_fields)]
pub enum TestResultView {
    Suite { event: SuiteEvent },
    Test { event: TestEventView, name: Seq<char> },
}

impl View for TestEvent {
    type V = TestEventView;

    open spec fn view(&self) -> TestEventView {
        match *self {
            TestEvent::Started => TestEventView::Started,
            TestEvent::Passed => TestEventView::Passed,
            TestEvent::Failed { test_output } => TestEventView::Failed { test_output: test_output@ },
        }
    }
}

impl View for TestResult {
    type V = TestResultView;

    open spec fn view(&self) -> TestResultView {
        match *self {
            TestResult::Suite { event } => TestResultView::Suite { event },
            TestResult::Test { event, name } => TestResultView::Test { event: event@, name: name@ },
        }
    }
}

impl TestResultView {
    /// The record announces that a test case began.
    pub open spec fn is_test_started(self) -> bool {
        self matches TestResultView::Test { event: TestEventView::Started, .. }
    }

    /// The record reports that a test case failed.
    pub open spec fn is_test_failed(self) -> bool {
        self matches TestResultView::Test { event: TestEventView::Failed { .. }, .. }
    }

    /// The name of the test case that the record is about.
    pub open spec fn test_name(self) -> Seq<char>
        recommends
            self is Test,
    {
        self->name
    }

    /// Every test record names its test case.
    pub open spec fn well_formed(self) -> bool {
        self is Test ==> self->name.len() > 0
    }
}

/// Why a line yields no event.
#[derive(Debug, Clone, Copy, PartialEq, Eq, Structural)]
pub enum DecodeError {
    /// The line is not JSON text.
    Syntax,
    /// The line is JSON, but not a record of the schema.
    Schema,
}

/// The string member of `json` under `key`.
pub open spec fn member_text(json: Json, key: Seq<char>) -> Option<Seq<char>> {
    match json.member(key) {
        Some(found) => found.text(),
        None => None,
    }
}

/// The member of `json` under `key` as a count: a whole number that fits
/// 32 bits.
pub open spec fn member_count(json: Json, key: Seq<char>) -> Option<u32> {
    match json.member(key) {
        Some(Json::Unsigned(n)) => if n <= u32::MAX {
            Some(n as u32)
        } else {
            None
        },
        _ => None,
    }
}

/// The six totals of a record that closes a suite; all of them are required.
pub open spec fn counts_of(json: Json) -> Option<CommonTestCounts> {
    if member_count(json, "passed"@) is Some && member_count(json, "failed"@) is Some
        && member_count(json, "allowed_fail"@) is Some && member_count(json, "ignored"@) is Some
        && member_count(json, "measured"@) is Some && member_count(json, "filtered_out"@) is Some {
        Some(
            CommonTestCounts {
                passed: member_count(json, "passed"@).unwrap(),
                failed: member_count(json, "failed"@).unwrap(),
                allowed_fail: member_count(json, "allowed_fail"@).unwrap(),
                ignored: member_count(json, "ignored"@).unwrap(),
                measured: member_count(json, "measured"@).unwrap(),
                filtered_out: member_count(json, "filtered_out"@).unwrap(),
            },
        )
    } else {
        None
    }
}

/// The suite event that a record with `"type": "suite"` carries, chosen by
/// its `event` member.
pub open spec fn suite_event_of(json: Json) -> Option<SuiteEvent> {
    match member_text(json, "event"@) {
        Some(tag) => if tag == "started"@ {
            match member_count(json, "test_count"@) {
                Some(test_count) => Some(SuiteEvent::Started { test_count }),
                None => None,
            }
        } else if tag == "ok"@ {
            match counts_of(json) {
                Some(counts) => Some(SuiteEvent::Passed { counts }),
                None => None,
            }
        } else if tag == "failed"@ {
            match counts_of(json) {
                Some(counts) => Some(SuiteEvent::Failed { counts }),
                None => None,
            }
        } else {
            None
        },
        None => None,
    }
}

/// The test event that a record with `"type": "test"` carries, chosen by
/// its `event` member.
pub open spec fn test_event_of(json: Json) -> Option<TestEventView> {
    match member_text(json, "event"@) {
        Some(tag) => if tag == "started"@ {
            Some(TestEventView::Started)
        } else if tag == "ok"@ {
            Some(TestEventView::Passed)
        } else if tag == "failed"@ {
            match member_text(json, "stdout"@) {
                Some(test_output) => Some(TestEventView::Failed { test_output }),
                None => None,
            }
        } else {
            None
        },
        None => None,
    }
}

/// The name that a test record carries: a string that is not empty.
pub open spec fn test_name_of(json: Json) -> Option<Seq<char>> {
    match member_text(json, "name"@) {
        Some(name) => if name.len() > 0 {
            Some(name)
        } else {
            None
        },
        None => None,
    }
}

/// The event that a JSON value stands for, chosen by its `type` member, or
/// `None` where the value is no record of the schema.
pub open spec fn event_of(json: Json) -> Option<TestResultView> {
    match member_text(json, "type"@) {
        Some(kind) => if kind == "suite"@ {
            match suite_event_of(json) {
                Some(event) => Some(TestResultView::Suite { event }),
                None => None,
            }
        } else if kind == "test"@ {
            match (test_event_of(json), test_name_of(json)) {
                (Some(event), Some(name)) => Some(TestResultView::Test { event, name }),
                _ => None,
            }
        } else {
            None
        },
        None => None,
    }
}

/// What one line of the stream decodes to.
pub open spec fn event_of_line(line: Seq<char>) -> Result<TestResultView, DecodeError> {
    match json_read(line) {
        Some(json) => match event_of(json) {
            Some(event) => Ok(event),
            None => Err(DecodeError::Schema),
        },
        None => Err(DecodeError::Syntax),
    }
}

/// Whether a result of decoding is the one that `expected` describes.
pub open spec fn decodes_to(
    result: Result<TestResult, DecodeError>,
    expected: Result<TestResultView, DecodeError>,
) -> bool {
    match result {
        Ok(event) => expected == Ok::<TestResultView, DecodeError>(event@),
        Err(error) => expected == Err::<TestResultView, DecodeError>(error),
    }
}

/// Whether an optional event is the one that `expected` describes.
pub open spec fn yields(result: Option<TestResult>, expected: Option<TestResultView>) -> bool {
    match result {
        Some(event) => expected == Some(event@),
        None => expected is None,
    }
}

/// A record that opens a suite decodes to `Started` with the very number
/// of tests that it announces.
pub proof fn lemma_suite_started_keeps_test_count(json: Json, test_count: u32)
    requires
        member_text(json, "type"@) == Some("suite"@),
        member_text(json, "event"@) == Some("started"@),
        json.member("test_count"@) == Some(Json::Unsigned(test_count as u64)),
    ensures
        event_of(json) == Some(
            TestResultView::Suite { event: SuiteEvent::Started { test_count } },
        ),
{
}

/// The tags of the schema are six different strings in two groups: no kind
/// is another kind, and no step another step.
pub proof fn lemma_tags_differ()
    ensures
        "suite"@ != "test"@,
        "started"@ != "ok"@,
        "started"@ != "failed"@,
        "ok"@ != "failed"@,
{
    reveal_strlit("suite");
    reveal_strlit("test");
    reveal_strlit("started");
    reveal_strlit("ok");
    reveal_strlit("failed");
    assert("suite"@[0] != "test"@[0]);
    assert("started"@[0] != "ok"@[0]);
    assert("started"@[0] != "failed"@[0]);
    assert("ok"@[0] != "failed"@[0]);
}

/// A record of a failed test decodes to `Failed` with the name and the
/// output that it carries, each character of them.
pub proof fn lemma_test_failed_keeps_name_and_output(
    json: Json,
    name: Seq<char>,
    test_output: Seq<char>,
)
    requires
        member_text(json, "type"@) == Some("test"@),
        member_text(json, "event"@) == Some("failed"@),
        member_text(json, "name"@) == Some(name),
        name.len() > 0,
        member_text(json, "stdout"@) == Some(test_output),
    ensures
        event_of(json) == Some(
            TestResultView::Test { event: TestEventView::Failed { test_output }, name },
        ),
{
    lemma_tags_differ();
}

/// Every record of the schema decodes, each to the event of its tags.
pub proof fn lemma_records_decode(json: Json)
    ensures
        member_text(json, "type"@) == Some("suite"@) ==> {
            &&& member_text(json, "event"@) == Some("started"@) && member_count(
                json,
                "test_count"@,
            ) is Some ==> event_of(json) == Some(
                TestResultView::Suite {
                    event: SuiteEvent::Started {
                        test_count: member_count(json, "test_count"@).unwrap(),
                    },
                },
            )
            &&& member_text(json, "event"@) == Some("ok"@) && counts_of(json) is Some
                ==> event_of(json) == Some(
                TestResultView::Suite {
                    event: SuiteEvent::Passed { counts: counts_of(json).unwrap() },
                },
            )
            &&& member_text(json, "event"@) == Some("failed"@) && counts_of(json) is Some
                ==> event_of(json) == Some(
                TestResultView::Suite {
                    event: SuiteEvent::Failed { counts: counts_of(json).unwrap() },
                },
            )
        },
        member_text(json, "type"@) == Some("test"@) && test_name_of(json) is Some ==> {
            &&& member_text(json, "event"@) == Some("started"@) ==> event_of(json) == Some(
                TestResultView::Test {
                    event: TestEventView::Started,
                    name: test_name_of(json).unwrap(),
                },
            )
            &&& member_text(json, "event"@) == Some("ok"@) ==> event_of(json) == Some(
                TestResultView::Test {
                    event: TestEventView::Passed,
                    name: test_name_of(json).unwrap(),
                },
            )
            &&& member_text(json, "event"@) == Some("failed"@) && member_text(json, "stdout"@)
                is Some ==> event_of(json) == Some(
                TestResultView::Test {
                    event: TestEventView::Failed {
                        test_output: member_text(json, "stdout"@).unwrap(),
                    },
                    name: test_name_of(json).unwrap(),
                },
            )
        },
{
    lemma_tags_differ();
}

/// Only an object that names its kind and its event decodes, and what it
/// decodes to is well formed.
pub proof fn lemma_decoded_is_well_formed(json: Json)
    requires
        event_of(json) is Some,
    ensures
        json is Object,
        member_text(json, "type"@) is Some,
        member_text(json, "event"@) is Some,
        event_of(json).unwrap().well_formed(),
{
}

/// The tags alone select the variant: the `type` member decides between a
/// suite and a test, the `event` member decides the step, and what the
/// event carries is what the record holds under the members of that step.
pub proof fn lemma_tags_select_the_variant(json: Json)
    requires
        event_of(json) is Some,
    ensures
        match event_of(json).unwrap() {
            TestResultView::Suite { event } => {
                &&& member_text(json, "type"@) == Some("suite"@)
                &&& match event {
                    SuiteEvent::Started { test_count } => {
                        &&& member_text(json, "event"@) == Some("started"@)
                        &&& member_count(json, "test_count"@) == Some(test_count)
                    },
                    SuiteEvent::Passed { counts } => {
                        &&& member_text(json, "event"@) == Some("ok"@)
                        &&& counts_of(json) == Some(counts)
                    },
                    SuiteEvent::Failed { counts } => {
                        &&& member_text(json, "event"@) == Some("failed"@)
                        &&& counts_of(json) == Some(counts)
                    },
                }
            },
            TestResultView::Test { event, name } => {
                &&& member_text(json, "type"@) == Some("test"@)
                &&& member_text(json, "name"@) == Some(name)
                &&& match event {
                    TestEventView::Started => member_text(json, "event"@) == Some("started"@),
                    TestEventView::Passed => member_text(json, "event"@) == Some("ok"@),
                    TestEventView::Failed { test_output } => {
                        &&& member_text(json, "event"@) == Some("failed"@)
                        &&& member_text(json, "stdout"@) == Some(test_output)
                    },
                }
            },
        },
{
}

fn same_text(left: &str, right: &str) -> (same: bool)
    ensures
        same == (left@ == right@),
{
    left.to_owned() == right.to_owned()
}

fn text_member<'a>(value: &'a serde_json::Value, key: &str) -> (r: Option<&'a str>)
    ensures
        match r {
            Some(s) => member_text(json_of(*value), key@) == Some(s@),
            None => member_text(json_of(*value), key@) is None,
        },
{
    match value_member(value, key) {
        Some(found) => value_text(found),
        None => None,
    }
}

fn count_member(value: &serde_json::Value, key: &str) -> (r: Option<u32>)
    ensures
        r == member_count(json_of(*value), key@),
{
    match value_member(value, key) {
        Some(found) => match value_unsigned(found) {
            Some(n) => if n <= u32::MAX as u64 {
                Some(n as u32)
            } else {
                None
            },
            None => None,
        },
        None => None,
    }
}

fn decode_counts(value: &serde_json::Value) -> (r: Option<CommonTestCounts>)
    ensures
        r == counts_of(json_of(*value)),
{
    let passed = count_member(value, "passed");
    let failed = count_member(value, "failed");
    let allowed_fail = count_member(value, "allowed_fail");
    let ignored = count_member(value, "ignored");
    let measured = count_member(value, "measured");
    let filtered_out = count_member(value, "filtered_out");
    match (passed, failed, allowed_fail, ignored, measured, filtered_out) {
        (
            Some(passed),
            Some(failed),
            Some(allowed_fail),
            Some(ignored),
            Some(measured),
            Some(filtered_out),
        ) => Some(
            CommonTestCounts { passed, failed, allowed_fail, ignored, measured, filtered_out },
        ),
        _ => None,
    }
}

fn decode_suite_event(value: &serde_json::Value) -> (r: Option<SuiteEvent>)
    ensures
        r == suite_event_of(json_of(*value)),
{
    match text_member(value, "event") {
        Some(tag) => if same_text(tag, "started") {
            match count_member(value, "test_count") {
                Some(test_count) => Some(SuiteEvent::Started { test_count }),
                None => None,
            }
        } else if same_text(tag, "ok") {
            match decode_counts(value) {
                Some(counts) => Some(SuiteEvent::Passed { counts }),
                None => None,
            }
        } else if same_text(tag, "failed") {
            match decode_counts(value) {
                Some(counts) => Some(SuiteEvent::Failed { counts }),
                None => None,
            }
        } else {
            None
        },
        None => None,
    }
}

fn decode_test_event(value: &serde_json::Value) -> (r: Option<TestEvent>)
    ensures
        match r {
            Some(event) => test_event_of(json_of(*value)) == Some(event@),
            None => test_event_of(json_of(*value)) is None,
        },
{
    match text_member(value, "event") {
        Some(tag) => if same_text(tag, "started") {
            Some(TestEvent::Started)
        } else if same_text(tag, "ok") {
            Some(TestEvent::Passed)
        } else if same_text(tag, "failed") {
            match text_member(value, "stdout") {
                Some(output) => Some(TestEvent::Failed { test_output: output.to_owned() }),
                None => None,
            }
        } else {
            None
        },
        None => None,
    }
}

fn decode_test_name(value: &serde_json::Value) -> (r: Option<String>)
    ensures
        match r {
            Some(name) => test_name_of(json_of(*value)) == Some(name@),
            None => test_name_of(json_of(*value)) is None,
        },
{
    match text_member(value, "name") {
        Some(name) => if name.is_empty() {
            None
        } else {
            Some(name.to_owned())
        },
        None => None,
    }
}

/// Decodes a JSON value that was read from a line of the stream.
///
/// The `type` member selects a suite or a test record and the `event`
/// member the step in its life; the members that the step requires must be
/// there with their types, and any other member is ignored. A value that is
/// no such record yields `None`.
pub fn decode(value: &serde_json::Value) -> (r: Option<TestResult>)
    ensures
        yields(r, event_of(json_of(*value))),
        r matches Some(event) ==> event@.well_formed(),
{
    match text_member(value, "type") {
        Some(kind) => if same_text(kind, "suite") {
            match decode_suite_event(value) {
                Some(event) => Some(TestResult::Suite { event }),
                None => None,
            }
        } else if same_text(kind, "test") {
            match (decode_test_event(value), decode_test_name(value)) {
                (Some(event), Some(name)) => Some(TestResult::Test { event, name }),
                _ => None,
            }
        } else {
            None
        },
        None => None,
    }
}

/// Decodes one line of the stream.
///
/// A line that is not JSON text is a `Syntax` error and a line that is JSON
/// but no record of the schema a `Schema` error; neither is fatal, and what
/// to do with such a line is left to the caller.
pub fn decode_line(line: &str) -> (r: Result<TestResult, DecodeError>)
    ensures
        decodes_to(r, event_of_line(line@)),
        r matches Ok(event) ==> event@.well_formed(),
{
    match read_value(line) {
        Ok(value) => match decode(&value) {
            Some(event) => Ok(event),
            None => Err(DecodeError::Schema),
        },
        Err(_) => Err(DecodeError::Syntax),
    }
}

} // verus!

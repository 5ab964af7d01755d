use test_tally::count::TestCount;
use test_tally::failed::FailedTests;
use test_tally::feed;
use test_tally::parse::{decode_line, TestEvent, TestResult};

pub const TEST_STARTED: &str =
    r#"{ "type": "test", "event": "started", "name": "tests::we_dont_use_this_value" }"#;
pub const TEST_OK: &str =
    r#"{ "type": "test", "name": "tests::test_ok_parsed_properly", "event": "ok" }"#;
pub const TEST_FAILED: &str = r#"
    { "type": "test", "name": "tests::test_ok_parsed_properly", "event": "failed",
      "stdout": "thread 'main' panicked at 'assertion failed: `(left == right)`\n  left: `\"tests::test_ok_parsed_properly\"`,\n right: `\"\"`', src/main.rs:117:34\nnote: run with `RUST_BACKTRACE=1` environment variable to display a backtrace.\n" }
    "#;

#[test]
fn test_ok_works() {
    let started: TestResult = decode_line(TEST_STARTED).unwrap();
    let result: TestResult = decode_line(TEST_OK).unwrap();
    let mut count = TestCount::default();
    let mut failed = FailedTests::default();

    feed(&mut count, &mut failed, &started);
    feed(&mut count, &mut failed, &result);

    println!("{:#?}", count);
    assert!(count.was_successful());
    assert_eq!(count.failed_count, 0);
}

#[test]
fn test_failed_works() {
    let started: TestResult = decode_line(TEST_STARTED).unwrap();
    let result: TestResult = decode_line(TEST_FAILED).unwrap();
    let mut count = TestCount::default();
    let mut failed = FailedTests::default();

    feed(&mut count, &mut failed, &started);
    feed(&mut count, &mut failed, &result);

    println!("{:#?}", count);
    assert!(!count.was_successful());
    assert_eq!(count.failed_count, 1);
}

fn started(name: &str) -> TestResult {
    TestResult::Test { event: TestEvent::Started, name: name.to_string() }
}

fn passed(name: &str) -> TestResult {
    TestResult::Test { event: TestEvent::Passed, name: name.to_string() }
}

fn failure(name: &str, output: &str) -> TestResult {
    TestResult::Test {
        event: TestEvent::Failed { test_output: output.to_string() },
        name: name.to_string(),
    }
}

#[test]
fn a_fresh_count_is_zero_and_no_success() {
    let count = TestCount::default();
    assert_eq!(count, TestCount { ran_count: 0, failed_count: 0 });
    assert!(!count.was_successful());
    assert_eq!(count.summary(), "0/0 tests failed");
}

#[test]
fn started_then_passed_is_a_success() {
    let mut count = TestCount::default();
    count.feed(&started("A"));
    count.feed(&passed("A"));
    assert_eq!(count, TestCount { ran_count: 1, failed_count: 0 });
    assert!(count.was_successful());
    assert_eq!(count.summary(), "1 tests passed");
}

#[test]
fn started_then_failed_is_no_success() {
    let mut count = TestCount::default();
    count.feed(&started("A"));
    count.feed(&failure("A", "boom"));
    assert_eq!(count, TestCount { ran_count: 1, failed_count: 1 });
    assert!(!count.was_successful());
    assert_eq!(count.summary(), "1/1 tests failed");
}

#[test]
fn suite_events_do_not_count() {
    let mut count = TestCount { ran_count: 3, failed_count: 1 };
    for line in [
        r#"{"type":"suite","event":"started","test_count":9}"#,
        r#"{"type":"suite","event":"ok","passed":9,"failed":0,"allowed_fail":0,"ignored":0,"measured":0,"filtered_out":0}"#,
        r#"{"type":"suite","event":"failed","passed":2,"failed":7,"allowed_fail":0,"ignored":0,"measured":0,"filtered_out":0}"#,
    ] {
        count.feed(&decode_line(line).unwrap());
    }
    assert_eq!(count, TestCount { ran_count: 3, failed_count: 1 });
}

#[test]
fn a_failure_without_a_start_is_counted_all_the_same() {
    let mut count = TestCount::default();
    count.feed(&failure("ghost", ""));
    assert_eq!(count, TestCount { ran_count: 0, failed_count: 1 });
    assert!(!count.was_successful());
    assert_eq!(count.summary(), "1/0 tests failed");
}

#[test]
fn the_counters_reach_their_last_value() {
    let mut count = TestCount { ran_count: u32::MAX - 1, failed_count: u32::MAX - 1 };
    count.feed(&started("A"));
    count.feed(&failure("A", ""));
    assert_eq!(count, TestCount { ran_count: u32::MAX, failed_count: u32::MAX });
    assert_eq!(count.summary(), "4294967295/4294967295 tests failed");
    count.feed(&passed("B"));
    assert_eq!(count, TestCount { ran_count: u32::MAX, failed_count: u32::MAX });
}

#[test]
fn the_summary_counts_in_decimal() {
    assert_eq!(TestCount { ran_count: 10, failed_count: 0 }.summary(), "10 tests passed");
    assert_eq!(TestCount { ran_count: 1205, failed_count: 0 }.summary(), "1205 tests passed");
    assert_eq!(TestCount { ran_count: 120, failed_count: 7 }.summary(), "7/120 tests failed");
    assert_eq!(
        TestCount { ran_count: 4294967295, failed_count: 0 }.summary(),
        "4294967295 tests passed"
    );
}

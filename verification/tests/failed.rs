use test_tally::failed::FailedTests;
use test_tally::parse::{decode_line, TestEvent, TestResult};

#[test]
fn failing_test() {
    //        assert!(false);
}

fn failure(name: &str) -> TestResult {
    TestResult::Test {
        event: TestEvent::Failed { test_output: String::from("panicked") },
        name: name.to_string(),
    }
}

#[test]
fn a_fresh_list_is_empty() {
    let failed = FailedTests::default();
    assert!(failed.0.is_empty());
    assert!(failed.first(5).is_empty());
}

#[test]
fn only_failures_are_listed() {
    let mut failed = FailedTests::default();
    failed.feed(&TestResult::Test { event: TestEvent::Started, name: "a".to_string() });
    failed.feed(&TestResult::Test { event: TestEvent::Passed, name: "a".to_string() });
    failed.feed(&decode_line(r#"{"type":"suite","event":"started","test_count":2}"#).unwrap());
    failed.feed(
        &decode_line(r#"{"type":"suite","event":"failed","passed":0,"failed":2,"allowed_fail":0,"ignored":0,"measured":0,"filtered_out":0}"#)
            .unwrap(),
    );
    assert!(failed.0.is_empty());
    failed.feed(&failure("b"));
    assert_eq!(failed.0, vec!["b".to_string()]);
}

#[test]
fn failures_are_listed_in_order_with_repeats() {
    let mut failed = FailedTests::default();
    for name in ["z", "a", "z", "m", "a"] {
        failed.feed(&failure(name));
    }
    assert_eq!(failed.0, vec!["z", "a", "z", "m", "a"]);
    assert_eq!(failed.0.len(), 5);
}

#[test]
fn the_first_names_keep_their_order() {
    let mut failed = FailedTests::default();
    for name in ["one", "two", "three"] {
        failed.feed(&failure(name));
    }
    assert!(failed.first(0).is_empty());
    assert_eq!(failed.first(1), ["one"]);
    assert_eq!(failed.first(2), ["one", "two"]);
    assert_eq!(failed.first(3), ["one", "two", "three"]);
    assert_eq!(failed.first(4), ["one", "two", "three"]);
    assert_eq!(failed.first(usize::MAX), ["one", "two", "three"]);
}

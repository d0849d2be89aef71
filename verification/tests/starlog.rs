use starlog::collector::{collect_entries, entry_of, read_stdin};
use starlog::config::{ConfigError, SlackHook};
use starlog::notify::{webhook_client, DeliveryError};
use starlog::report::{make_msg, make_msg_at};
use starlog::stardate::{day_index, u64_to_dec, SECONDS_PER_DAY};
use starlog::text::trim_str;

fn strings(items: &[&str]) -> Vec<String> {
    items.iter().map(|s| s.to_string()).collect()
}

#[test]
fn trim_removes_ends_only() {
    assert_eq!(trim_str("  a b  "), "a b");
    assert_eq!(trim_str("a"), "a");
    assert_eq!(trim_str(""), "");
    assert_eq!(trim_str(" \t\r\n "), "");
}

#[test]
fn trim_handles_unicode_whitespace() {
    assert_eq!(trim_str("\u{2003}x\u{a0}"), "x");
    assert_eq!(trim_str("\u{3000}\u{85}"), "");
    assert_eq!(trim_str("a\u{1680}b"), "a\u{1680}b");
}

#[test]
fn entry_of_trims_and_detects_blank() {
    assert_eq!(entry_of("\t hello \n"), Some("hello".to_string()));
    assert_eq!(entry_of(" \n"), None);
    assert_eq!(entry_of(""), None);
}

#[test]
fn collector_returns_lines_before_blank_trimmed_in_order() {
    let lines = strings(&["  Wrote spec  ", "Review PR", "   ", "ignored"]);
    let (entries, consumed) = collect_entries(&lines);
    assert_eq!(entries, strings(&["Wrote spec", "Review PR"]));
    assert_eq!(consumed, 3);
}

#[test]
fn collector_without_blank_takes_everything() {
    let lines = strings(&["a", "b"]);
    let (entries, consumed) = collect_entries(&lines);
    assert_eq!(entries, strings(&["a", "b"]));
    assert_eq!(consumed, 2);
}

#[test]
fn collector_stops_at_leading_blank() {
    let lines = strings(&["   ", "a"]);
    let (entries, consumed) = collect_entries(&lines);
    assert_eq!(entries, Vec::<String>::new());
    assert_eq!(consumed, 1);

    let (entries, consumed) = collect_entries(&Vec::new());
    assert_eq!(entries, Vec::<String>::new());
    assert_eq!(consumed, 0);
}

#[test]
fn day_index_counts_whole_days() {
    assert_eq!(day_index(0), 0);
    assert_eq!(day_index(SECONDS_PER_DAY - 1), 0);
    assert_eq!(day_index(SECONDS_PER_DAY), 1);
    assert_eq!(day_index(19000 * SECONDS_PER_DAY + 5), 19000);
}

#[test]
fn day_index_steps_by_one_per_day() {
    let base: u64 = 1_641_600_000;
    assert_eq!(day_index(base + SECONDS_PER_DAY), day_index(base) + 1);
    assert!(day_index(base) <= day_index(base + 1));
}

#[test]
fn decimal_numerals_are_exact() {
    assert_eq!(u64_to_dec(0), "0");
    assert_eq!(u64_to_dec(7), "7");
    assert_eq!(u64_to_dec(19000), "19000");
    assert_eq!(u64_to_dec(u64::MAX), "18446744073709551615");
}

#[test]
fn one_day_window_report() {
    let r = make_msg_at(
        &strings(&["Wrote spec"]),
        &strings(&["Review PR"]),
        false,
        19000 * SECONDS_PER_DAY,
    );
    assert_eq!(
        r.unwrap(),
        "#checkin\nStardate 19000\nYesterday:\n* Wrote spec\nToday:\n* Review PR\n"
    );
}

#[test]
fn two_day_window_report() {
    let r = make_msg_at(
        &strings(&["Wrote spec"]),
        &strings(&["Review PR"]),
        true,
        19000 * SECONDS_PER_DAY,
    );
    assert_eq!(
        r.unwrap(),
        "#checkin\nStardate 19000\nToday:\n* Wrote spec\nTomorrow:\n* Review PR\n"
    );
}

#[test]
fn report_keeps_entry_order() {
    let r = make_msg_at(
        &strings(&["one", "two", "three"]),
        &strings(&["four"]),
        false,
        0,
    );
    assert_eq!(
        r.unwrap(),
        "#checkin\nStardate 0\nYesterday:\n* one\n* two\n* three\nToday:\n* four\n"
    );
}

#[test]
fn empty_done_is_rejected_in_both_modes() {
    let r = make_msg_at(&Vec::new(), &strings(&["x"]), false, 0);
    assert_eq!(r.unwrap_err(), "Empty Done or Todo!");
    let r = make_msg_at(&Vec::new(), &strings(&["x"]), true, 0);
    assert_eq!(r.unwrap_err(), "Empty Done or Todo!");
}

#[test]
fn empty_todo_is_rejected_in_both_modes() {
    let r = make_msg_at(&strings(&["x"]), &Vec::new(), false, 0);
    assert_eq!(r.unwrap_err(), "Empty Done or Todo!");
    let r = make_msg_at(&strings(&["x"]), &Vec::new(), true, 0);
    assert_eq!(r.unwrap_err(), "Empty Done or Todo!");
}

#[test]
fn formatting_is_deterministic_at_a_fixed_instant() {
    let done = strings(&["a", "b"]);
    let todo = strings(&["c"]);
    let first = make_msg_at(&done, &todo, true, 123_456_789).unwrap();
    let second = make_msg_at(&done, &todo, true, 123_456_789).unwrap();
    assert_eq!(first, second);
}

#[test]
fn make_msg_uses_the_clock_and_validates() {
    let r = make_msg(strings(&["a"]), strings(&["b"]), false).unwrap();
    assert!(r.starts_with("#checkin\nStardate "));
    assert!(r.contains("Yesterday:\n* a\n"));
    assert!(r.ends_with("Today:\n* b\n"));

    let r = make_msg(Vec::new(), Vec::new(), false);
    assert_eq!(r.unwrap_err(), "Empty Done or Todo!");
}

#[test]
fn missing_environment_values_fail_in_checking_order() {
    let some = || Some("v".to_string());
    assert_eq!(
        SlackHook::new(None, some(), some()).unwrap_err(),
        ConfigError::MissingHook
    );
    assert_eq!(
        SlackHook::new(some(), None, some()).unwrap_err(),
        ConfigError::MissingChannel
    );
    assert_eq!(
        SlackHook::new(some(), some(), None).unwrap_err(),
        ConfigError::MissingUsername
    );
    assert_eq!(
        SlackHook::new(None, None, None).unwrap_err(),
        ConfigError::MissingHook
    );
}

#[test]
fn config_keeps_the_given_values() {
    let h = SlackHook::new(
        Some("https://hooks.example.com/services/x".to_string()),
        Some("#general".to_string()),
        Some("me".to_string()),
    )
    .unwrap();
    assert_eq!(h.url, "https://hooks.example.com/services/x");
    assert_eq!(h.channel, "#general");
    assert_eq!(h.username, "me");
}

#[test]
fn config_errors_name_the_missing_key() {
    assert_eq!(
        ConfigError::MissingHook.message(),
        "Please add STARLOG_HOOK to your environment variables"
    );
    assert_eq!(
        ConfigError::MissingChannel.message(),
        "Please add STARLOG_CHANNEL to your environment variables"
    );
    assert_eq!(
        ConfigError::MissingUsername.message(),
        "Please add STARLOG_USERNAME to your environment variables"
    );
}

#[test]
fn webhook_client_accepts_a_well_formed_url() {
    let h = SlackHook {
        username: "me".to_string(),
        channel: "#general".to_string(),
        url: "https://hooks.example.com/services/x".to_string(),
    };
    assert!(webhook_client(&h).is_ok());
}

#[test]
fn webhook_client_rejects_a_malformed_url() {
    let h = SlackHook {
        username: "me".to_string(),
        channel: "#general".to_string(),
        url: "not a url".to_string(),
    };
    assert_eq!(webhook_client(&h).unwrap_err(), DeliveryError::InvalidUrl);
}

#[test]
fn read_stdin_signature_accepts_the_process_stream() {
    // Nothing is piped to the test harness, so the first read sees the end
    // of input at once and the collector returns an empty list.
    let lines = read_stdin(&std::io::stdin()).unwrap();
    assert_eq!(lines, Vec::<String>::new());
}

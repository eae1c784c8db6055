use pm2_alerter::restart::{find_process, parse_process_id, ID_GROUP, RESTART_PATTERN};

#[test]
fn pattern_is_the_restart_sentence() {
    assert_eq!(
        RESTART_PATTERN,
        "Process (?P<id>\\d+) restarted because it exceeds --max-memory-restart"
    );
    assert_eq!(ID_GROUP, "id");
}

#[test]
fn find_process_reads_the_identifier() {
    let text = "Process 42 restarted because it exceeds --max-memory-restart";
    assert_eq!(find_process(text), Some(42));
}

#[test]
fn find_process_reads_the_identifier_inside_a_record() {
    let text = "\u{1}s:log:PM2:{\"data\":\"[PM2][WORKER] Process 7 restarted because it exceeds --max-memory-restart value (current_memory=1 max_memory_limit=0)\\n\"}";
    assert_eq!(find_process(text), Some(7));
}

#[test]
fn find_process_without_the_sentence_finds_nothing() {
    assert_eq!(find_process("s:log:PM2 nothing to see"), None);
    assert_eq!(find_process(""), None);
}

#[test]
fn find_process_needs_digits() {
    assert_eq!(find_process("Process  restarted because it exceeds --max-memory-restart"), None);
    assert_eq!(find_process("Process x restarted because it exceeds --max-memory-restart"), None);
    assert_eq!(find_process("Process -3 restarted because it exceeds --max-memory-restart"), None);
}

#[test]
fn find_process_needs_the_whole_sentence() {
    assert_eq!(find_process("Process 42 restarted because it exceeds"), None);
    assert_eq!(find_process("process 42 restarted because it exceeds --max-memory-restart"), None);
}

#[test]
fn find_process_takes_the_leftmost_sentence() {
    let text = "Process 42 restarted because it exceeds --max-memory-restart; \
                Process 99 restarted because it exceeds --max-memory-restart";
    assert_eq!(find_process(text), Some(42));
}

#[test]
fn find_process_reads_zero_and_leading_zeros() {
    assert_eq!(
        find_process("Process 0 restarted because it exceeds --max-memory-restart"),
        Some(0)
    );
    assert_eq!(
        find_process("Process 007 restarted because it exceeds --max-memory-restart"),
        Some(7)
    );
}

#[test]
fn find_process_reads_the_largest_identifier() {
    let text = "Process 9223372036854775807 restarted because it exceeds --max-memory-restart";
    assert_eq!(find_process(text), Some(i64::MAX));
}

#[test]
fn find_process_rejects_an_identifier_that_does_not_fit() {
    let text = "Process 9223372036854775808 restarted because it exceeds --max-memory-restart";
    assert_eq!(find_process(text), None);
    let text = "Process 99999999999999999999999999 restarted because it exceeds --max-memory-restart";
    assert_eq!(find_process(text), None);
}

#[test]
fn find_process_rejects_digits_outside_ascii() {
    let text = "Process \u{663}\u{664} restarted because it exceeds --max-memory-restart";
    assert_eq!(find_process(text), None);
}

#[test]
fn parse_process_id_reads_decimal_digits() {
    assert_eq!(parse_process_id("0"), Some(0));
    assert_eq!(parse_process_id("42"), Some(42));
    assert_eq!(parse_process_id("0042"), Some(42));
    assert_eq!(parse_process_id("1234567890"), Some(1234567890));
}

#[test]
fn parse_process_id_rejects_what_is_no_run_of_digits() {
    assert_eq!(parse_process_id(""), None);
    assert_eq!(parse_process_id("12a"), None);
    assert_eq!(parse_process_id("a12"), None);
    assert_eq!(parse_process_id("+5"), None);
    assert_eq!(parse_process_id("-5"), None);
    assert_eq!(parse_process_id(" 5"), None);
    assert_eq!(parse_process_id("\u{663}"), None);
}

#[test]
fn parse_process_id_stops_at_the_bounds_of_i64() {
    assert_eq!(parse_process_id("9223372036854775807"), Some(i64::MAX));
    assert_eq!(parse_process_id("9223372036854775808"), None);
    assert_eq!(parse_process_id("9223372036854775810"), None);
    assert_eq!(parse_process_id("92233720368547758070"), None);
    assert_eq!(parse_process_id("00000000000000000000009223372036854775807"), Some(i64::MAX));
}

#[test]
fn parse_process_id_rejects_an_overflow_followed_by_a_letter() {
    assert_eq!(parse_process_id("99999999999999999999x"), None);
}

use terminal_cell::prompt::{
    bytes_to_signal_bytes, last_match_gap, literal_suffix_gap, prompt_suffix_trailing_count,
    signal_bytes_to_bytes, signal_prompt_state,
};
use terminal_cell::signal::{PromptPattern, PromptState};
use terminal_cell::{ConnectionError, ErrorKind};

fn literal(bytes: &[u8]) -> PromptPattern {
    PromptPattern::LiteralSuffix(bytes_to_signal_bytes(bytes))
}

fn regular(bytes: &[u8]) -> PromptPattern {
    PromptPattern::RegexSuffix(bytes_to_signal_bytes(bytes))
}

#[test]
fn integers_keep_their_low_byte() {
    assert_eq!(
        signal_bytes_to_bytes(&[0, 65, 255, 256, 321, -1, i64::MIN, i64::MAX]),
        vec![0, 65, 255, 0, 65, 255, 0, 255]
    );
}

#[test]
fn widened_bytes_come_back() {
    let bytes: Vec<u8> = (0..=255).collect();
    let widened = bytes_to_signal_bytes(&bytes);
    assert_eq!(widened[200], 200);
    assert_eq!(signal_bytes_to_bytes(&widened), bytes);
}

#[test]
fn literal_gap_counts_behind_the_last_occurrence() {
    assert_eq!(literal_suffix_gap(b"ready> dirty", b"ready> "), 5);
    assert_eq!(literal_suffix_gap(b"ready> ready> x", b"ready> "), 1);
    assert_eq!(literal_suffix_gap(b"ready> ", b"ready> "), 0);
    assert_eq!(literal_suffix_gap(b"aaa", b"aa"), 0);
    assert_eq!(literal_suffix_gap(b"aaab", b"aa"), 1);
    assert_eq!(literal_suffix_gap(b"nothing", b"ready> "), 7);
    assert_eq!(literal_suffix_gap(b"dy> ", b"ready> "), 4);
    assert_eq!(literal_suffix_gap(b"", b"ready> "), 0);
    assert_eq!(literal_suffix_gap(b"anything", b""), 0);
    assert_eq!(literal_suffix_gap(b"", b""), 0);
}

#[test]
fn last_match_decides_the_gap() {
    assert_eq!(last_match_gap(b"0123456789", &[2, 7]), 3);
    assert_eq!(last_match_gap(b"0123456789", &[10]), 0);
    assert_eq!(last_match_gap(b"0123456789", &[]), 10);
}

#[test]
fn regular_expressions_are_matched_by_the_regex_crate() {
    assert_eq!(
        prompt_suffix_trailing_count(&regular(br"\$ "), b"a$ b$ ls"),
        Ok(2)
    );
    assert_eq!(
        prompt_suffix_trailing_count(&regular(br"agent-ready\r+\n$"), b"agent-ready\r\r\n"),
        Ok(0)
    );
    assert_eq!(
        prompt_suffix_trailing_count(&regular(b"ready> "), b"nothing"),
        Ok(7)
    );
    assert_eq!(
        prompt_suffix_trailing_count(&regular(b""), b"\xff\xfe"),
        Ok(0)
    );
    assert_eq!(
        prompt_suffix_trailing_count(&literal(b"> "), b"> dirty"),
        Ok(5)
    );
}

#[test]
fn count_and_last_match_fill_the_transcript() {
    let transcript = b"one> two> three";
    let found = regex::bytes::Regex::new("> ").expect("pattern is valid");
    let end = found
        .find_iter(transcript)
        .last()
        .expect("pattern occurs")
        .end();
    let count = prompt_suffix_trailing_count(&regular(b"> "), transcript).expect("pattern counts");
    assert_eq!(end + count, transcript.len());
    assert_eq!(count, 5);
}

#[test]
fn pattern_that_is_no_regular_expression_is_refused_with_the_reason() {
    let error = regex::bytes::Regex::new("(").expect_err("pattern is unclosed");
    assert_eq!(
        prompt_suffix_trailing_count(&regular(b"("), b"text"),
        Err(ConnectionError::new(
            ErrorKind::InvalidData,
            format!("prompt regex pattern is invalid: {error}")
        ))
    );
}

#[test]
fn pattern_that_is_not_utf8_is_refused_with_the_reason() {
    let error = String::from_utf8(vec![0xc3]).expect_err("bytes are not text");
    assert_eq!(
        prompt_suffix_trailing_count(&regular(b"\xc3"), b"text"),
        Err(ConnectionError::new(
            ErrorKind::InvalidData,
            format!("prompt regex pattern is not utf-8: {error}")
        ))
    );
}

#[test]
fn prompt_state_tells_clean_from_dirty() {
    assert_eq!(
        signal_prompt_state(&Some(literal(b"> ")), b"> "),
        Ok(PromptState::Clean)
    );
    assert_eq!(
        signal_prompt_state(&Some(regular(b"ready> ")), b"ready> dirty"),
        Ok(PromptState::Dirty(5))
    );
    assert_eq!(
        signal_prompt_state(&None, b"anything"),
        Ok(PromptState::Dirty(8))
    );
    assert_eq!(signal_prompt_state(&None, b""), Ok(PromptState::Dirty(0)));
    assert_eq!(
        signal_prompt_state(&Some(regular(b"[")), b"x").map_err(|error| error.kind),
        Err(ErrorKind::InvalidData)
    );
}

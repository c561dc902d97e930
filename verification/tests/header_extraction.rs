use mollysocket::WebSocketRequestMessage;
use mollysocket::headers::find_header;

fn with_headers(headers: Vec<&str>) -> WebSocketRequestMessage {
    WebSocketRequestMessage {
        verb: Some("PUT".to_string()),
        path: Some("/api/v1/message".to_string()),
        body: None,
        headers: headers.into_iter().map(|s| s.to_string()).collect(),
        id: Some(1),
    }
}

#[test]
fn finds_timestamp_among_other_headers() {
    let request = with_headers(vec!["Other: 1", "X-Signal-Timestamp: 12345"]);
    assert_eq!(find_header(&request), Some("12345".to_string()));
}

#[test]
fn empty_header_list_has_no_match() {
    let request = with_headers(vec![]);
    assert_eq!(find_header(&request), None);
}

#[test]
fn no_matching_entry_has_no_match() {
    let request = with_headers(vec!["Other: 1", "Content-Type: application/json"]);
    assert_eq!(find_header(&request), None);
}

#[test]
fn header_name_matches_case_insensitively() {
    let request = with_headers(vec!["x-signal-timestamp: 7"]);
    assert_eq!(find_header(&request), Some("7".to_string()));
}

#[test]
fn header_value_is_lower_cased() {
    let request = with_headers(vec!["X-Signal-Timestamp: ABC"]);
    assert_eq!(find_header(&request), Some("abc".to_string()));
}

#[test]
fn header_name_and_value_are_trimmed() {
    let request = with_headers(vec!["  X-Signal-Timestamp  :   12345   "]);
    assert_eq!(find_header(&request), Some("12345".to_string()));
}

#[test]
fn only_first_colon_separates() {
    let request = with_headers(vec!["X-Signal-Timestamp: 12:34"]);
    assert_eq!(find_header(&request), Some("12:34".to_string()));
}

#[test]
fn first_match_wins() {
    let request = with_headers(vec![
        "X-Signal-Timestamp: 1",
        "X-Signal-Timestamp: 2",
    ]);
    assert_eq!(find_header(&request), Some("1".to_string()));
}

#[test]
fn entry_without_colon_does_not_match() {
    let request = with_headers(vec!["X-Signal-Timestamp", "X-Signal-Timestamp: 8"]);
    assert_eq!(find_header(&request), Some("8".to_string()));
}

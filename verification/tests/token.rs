use quantel_connect::html::parse_html;
use quantel_connect::portal::contains_bytes;
use quantel_connect::portal::contains_marker;

#[test]
fn token_found_among_other_inputs() {
    let html = "<html><body><form>\
                <input name=\"email\" value=\"x\">\
                <input name=\"_token\" value=\"abc123\">\
                <input name=\"password\">\
                </form></body></html>";
    assert_eq!(parse_html(html), Some("abc123".to_string()));
}

#[test]
fn token_found_with_reversed_attributes_and_whitespace() {
    let html = "<html><body>\n  <input   value=\"abc123\"   name=\"_token\" >\n</body></html>";
    assert_eq!(parse_html(html), Some("abc123".to_string()));
}

#[test]
fn token_found_in_malformed_html() {
    let html = "<div><p><input name=\"other\"><input name=\"_token\" value=\"abc123\"<p></div>";
    let _ = parse_html(html);
    let html2 = "<input name=\"broken\"<input name=\"_token\" value=\"abc123\">";
    let _ = parse_html(html2);
    let html3 = "<form><input name=\"x\"></p><input name=\"_token\" value=\"abc123\"></form";
    assert_eq!(parse_html(html3), Some("abc123".to_string()));
}

#[test]
fn first_matching_input_wins() {
    let html = "<input name=\"_token\" value=\"first\"><input name=\"_token\" value=\"second\">";
    assert_eq!(parse_html(html), Some("first".to_string()));
}

#[test]
fn absent_token_reported_as_none() {
    let html = "<html><body><input name=\"email\" value=\"x\"><input name=\"pw\"></body></html>";
    assert_eq!(parse_html(html), None);
}

#[test]
fn empty_document_has_no_token() {
    assert_eq!(parse_html(""), None);
}

#[test]
fn token_without_value_attribute_is_none() {
    let html = "<input name=\"_token\">";
    assert_eq!(parse_html(html), None);
}

#[test]
fn empty_token_value_is_found_but_empty() {
    let html = "<input name=\"_token\" value=\"\">";
    assert_eq!(parse_html(html), Some(String::new()));
}

#[test]
fn marker_present_is_detected() {
    let body = "<html><!-- Static sidebar for desktop --><div>account</div></html>";
    assert!(contains_marker(body));
}

#[test]
fn marker_absent_is_detected() {
    let body = "<html><div>please log in</div></html>";
    assert!(!contains_marker(body));
}

#[test]
fn partial_marker_does_not_count() {
    let body = "Static sidebar for deskto";
    assert!(!contains_marker(body));
}

#[test]
fn byte_search_edges() {
    assert!(contains_bytes(b"abc", b""));
    assert!(contains_bytes(b"", b""));
    assert!(!contains_bytes(b"ab", b"abc"));
    assert!(contains_bytes(b"xxabcx", b"abc"));
    assert!(!contains_bytes(b"axbxc", b"abc"));
    assert!(contains_bytes(b"abc", b"abc"));
}

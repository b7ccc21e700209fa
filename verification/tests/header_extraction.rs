use vendor_ingest::header::extract;

fn names(bytes: &[u8]) -> Vec<String> {
    extract(&bytes.to_vec()).expect("header should parse")
}

#[test]
fn plain_header_in_original_order() {
    assert_eq!(names(b"id,name,qty\n1,widget,5\n"), vec!["id", "name", "qty"]);
}

#[test]
fn header_without_trailing_newline() {
    assert_eq!(names(b"alpha,beta"), vec!["alpha", "beta"]);
}

#[test]
fn header_with_crlf_terminator() {
    assert_eq!(names(b"a,b\r\nrest,of,file\n"), vec!["a", "b"]);
}

#[test]
fn single_column_header() {
    assert_eq!(names(b"only\nrow\n"), vec!["only"]);
}

#[test]
fn empty_column_names_are_kept() {
    assert_eq!(names(b",,\n"), vec!["", "", ""]);
}

#[test]
fn quoted_field_may_hold_delimiter_and_newline() {
    assert_eq!(names(b"\"a,b\",c\nx,y\n"), vec!["a,b", "c"]);
    assert_eq!(names(b"\"line\nbreak\",c\n"), vec!["line\nbreak", "c"]);
}

#[test]
fn doubled_quote_escapes_a_quote() {
    assert_eq!(names(b"\"he said \"\"hi\"\"\",rest\n"), vec!["he said \"hi\"", "rest"]);
}

#[test]
fn non_ascii_column_names_are_decoded() {
    // "naïve" in UTF-8; a header that came back as raw bytes would not
    // compare equal to the decoded string.
    let bytes = "na\u{ef}ve,qty\n".as_bytes().to_vec();
    assert_eq!(extract(&bytes).unwrap(), vec!["na\u{ef}ve", "qty"]);
}

#[test]
fn quoted_empty_field_is_an_empty_name() {
    assert_eq!(names(b"\"\",b\n"), vec!["", "b"]);
}

#[test]
fn duplicate_column_names_are_returned_as_they_stand() {
    assert_eq!(names(b"id,id,qty\n"), vec!["id", "id", "qty"]);
}

#[test]
fn empty_buffer_is_a_parse_error() {
    assert!(extract(&Vec::new()).is_err());
}

#[test]
fn quote_inside_unquoted_field_is_malformed() {
    assert!(extract(&b"ab\"c,d\n".to_vec()).is_err());
}

#[test]
fn unterminated_quote_is_malformed() {
    assert!(extract(&b"\"unterminated".to_vec()).is_err());
}

#[test]
fn content_after_closing_quote_is_malformed() {
    assert!(extract(&b"\"a\"x,b\n".to_vec()).is_err());
}

#[test]
fn bare_carriage_return_is_malformed() {
    assert!(extract(&b"a\rb\n".to_vec()).is_err());
}

#[test]
fn invalid_utf8_in_a_column_name_is_a_parse_error() {
    assert!(extract(&vec![0xff, 0xfe, b'\n']).is_err());
}

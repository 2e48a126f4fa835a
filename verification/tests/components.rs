use wapc::components::{reverse_uppercase, 
    add, add_packets, byte_count, copy, exit_code_for_contents, http_handler_message, http_handler_response, power,
    reverse, take_file_argument, test_component, uppercase, validate, Collection, LengthError,
};
use wapc::http::{HttpVersion, StatusCode};

#[test]
fn validate_refuses_short_and_long() {
    assert_eq!(validate("short").err(), Some(LengthError::TooShort));
    assert_eq!(validate(&"x".repeat(513)).err(), Some(LengthError::TooLong));
    assert_eq!(validate("12345678").unwrap(), "12345678");
    assert_eq!(validate(&"y".repeat(512)).unwrap(), "y".repeat(512));
    // Four two-byte characters are eight bytes.
    assert_eq!(validate("éééé").unwrap(), "éééé");
}

#[test]
fn length_error_messages() {
    assert_eq!(LengthError::TooShort.to_string(), "Needs to be longer than 8 characters");
    assert_eq!(LengthError::TooLong.to_string(), "Needs to be shorter than 512 characters");
}

#[test]
fn reverse_reverses_characters() {
    assert_eq!(reverse("hello"), "olleh");
    assert_eq!(reverse(""), "");
    assert_eq!(reverse("añb"), "bña");
    assert_eq!(reverse(&reverse("round trip")), "round trip");
}

#[test]
fn uppercase_uses_unicode() {
    assert_eq!(uppercase("hello"), "HELLO");
    assert_eq!(uppercase("straße"), "STRASSE");
}

#[test]
fn copy_repeats_input() {
    assert_eq!(copy("a", 3), vec!["a".to_owned(), "a".to_owned(), "a".to_owned()]);
    assert!(copy("a", 0).is_empty());
    assert!(copy("a", -4).is_empty());
}

#[test]
fn byte_count_counts_utf8_bytes() {
    assert_eq!(byte_count("abc"), Ok(3));
    assert_eq!(byte_count("é"), Ok(2));
    assert_eq!(byte_count(""), Ok(0));
}

#[test]
fn file_argument_is_the_last_one() {
    let mut argv = vec!["prog".to_owned(), "file.txt".to_owned()];
    assert_eq!(take_file_argument(&mut argv), Ok("file.txt".to_owned()));
    assert_eq!(argv, vec!["prog".to_owned()]);
    let mut none: Vec<String> = vec![];
    assert_eq!(take_file_argument(&mut none), Err("No argument passed as first argument".to_owned()));
}

#[test]
fn exit_code_depends_on_contents() {
    assert_eq!(exit_code_for_contents("data"), 0);
    assert_eq!(exit_code_for_contents(""), 1);
}

#[test]
fn add_and_add_packets() {
    assert_eq!(add(2, 40), 42);
    assert_eq!(add_packets(Ok(1), Ok(2)), Ok(3));
    assert_eq!(add_packets(Err("left".to_owned()), Err("right".to_owned())), Err("Error adding numbers: left".to_owned()));
    assert_eq!(add_packets(Ok(1), Err("right".to_owned())), Err("Error adding numbers: right".to_owned()));
}

#[test]
fn power_raises() {
    assert_eq!(power(2, 3), 8);
    assert_eq!(power(7, 0), 1);
    assert_eq!(power(0, 5), 0);
    assert_eq!(power(2, 63), 1u64 << 63);
}

#[test]
fn test_component_prefixes() {
    assert_eq!(test_component("some_input"), "TEST: some_input");
}

#[test]
fn collection_invokes_operations() {
    let c = Collection {};
    assert_eq!(c.invoke("test-component", "x"), Some(Ok("TEST: x".to_owned())));
    assert_eq!(c.invoke("error", "x"), Some(Err("Always errors".to_owned())));
    assert_eq!(c.invoke("other", "x"), None);
}

#[test]
fn collection_lists_its_signature() {
    let c = Collection {};
    let list = c.get_list();
    assert_eq!(list.len(), 1);
    assert_eq!(list[0].name, Some("test-native-collection".to_owned()));
    assert_eq!(list[0].version, "0.1.0");
    let names: Vec<&str> = list[0].operations.iter().map(|o| o.name.as_str()).collect();
    assert_eq!(names, vec!["error", "test-component"]);
    assert_eq!(list[0].operations[1].inputs, vec![("input", "string")]);
    assert_eq!(list[0].operations[1].outputs, vec![("output", "string")]);
}

#[test]
fn http_handler_builds_response() {
    let r = http_handler_response(27);
    assert_eq!(r.version, HttpVersion::Http11);
    assert_eq!(r.status, StatusCode::OkStatus);
    assert_eq!(
        r.headers,
        vec![
            ("Content-Type".to_owned(), vec!["application/json".to_owned()]),
            ("Access-Control-Allow-Origin".to_owned(), vec!["*".to_owned()]),
            ("Content-Length".to_owned(), vec!["27".to_owned()]),
        ]
    );
    assert_eq!(http_handler_response(0).headers[2].1, vec!["0".to_owned()]);
    assert_eq!(http_handler_response(1000).headers[2].1, vec!["1000".to_owned()]);
    assert_eq!(http_handler_message("hello"), "olleh");
}

#[test]
fn reverse_uppercase_composes_both() {
    assert_eq!(reverse_uppercase("abc"), "CBA");
    assert_eq!(reverse_uppercase(""), "");
}

use gtranslate::scanner::parse_message;

#[test]
fn test_parse_message() {
    const TEST: &'static str = "[[[\"I am not you. \",\"Mi estas ne vin.\",,,0],[\"You are not me.\",\"Vi estas ne min.\",,,0]],,\"eo\",,,,0.070792444,,[[\"eo\"],,[0.070792444],[\"eo\"]]]";
    let mut output = String::new();
    parse_message(TEST, &mut output);
    assert_eq!(output.as_str(), "I am not you. You are not me.")
}

#[test]
fn single_element() {
    let input = "[[[\"Hello\",\"Bonjour\",,,0]],,\"fr\",,,0]]";
    let mut output = String::new();
    parse_message(input, &mut output);
    assert_eq!(output.as_str(), "Hello");
}

#[test]
fn escaped_quote_resolved() {
    let input = "[[[\"She said \\\"hi\\\".\",\"Sxi diris.\",,,0]],,\"eo\",,,0]]";
    let mut output = String::new();
    parse_message(input, &mut output);
    assert_eq!(output.as_str(), "She said \"hi\".");
}

#[test]
fn escaped_backslash_resolved() {
    let input = "[[[\"a\\\\b\",\"x\",,,0]],,\"eo\",,,0]]";
    let mut output = String::new();
    parse_message(input, &mut output);
    assert_eq!(output.as_str(), "a\\b");
}

#[test]
fn truncated_before_any_sentinel() {
    let input = "[[[\"Hel";
    let mut output = String::new();
    parse_message(input, &mut output);
    assert_eq!(output.as_str(), "Hel");
}

#[test]
fn no_terminal_sentinel() {
    let input = "[[[\"Hi\",\"Yo\",,,0],[\"There";
    let mut output = String::new();
    parse_message(input, &mut output);
    assert_eq!(output.as_str(), "HiThere");
}

#[test]
fn empty_input() {
    let mut output = String::new();
    parse_message("", &mut output);
    assert_eq!(output.as_str(), "");
}

#[test]
fn input_shorter_than_prefix() {
    let mut output = String::new();
    parse_message("[[[", &mut output);
    assert_eq!(output.as_str(), "");
}

#[test]
fn prefix_dropped_unexamined() {
    // The first four characters are discarded whatever they are.
    let input = "XYZWHello\",\"Bonjour\",,,0]]";
    let mut output = String::new();
    parse_message(input, &mut output);
    assert_eq!(output.as_str(), "Hello");
}

#[test]
fn appends_to_existing_buffer() {
    let input = "[[[\"Hello\",\"Bonjour\",,,0]],,\"fr\",,,0]]";
    let mut output = String::from("Result: ");
    parse_message(input, &mut output);
    assert_eq!(output.as_str(), "Result: Hello");
}

#[test]
fn deterministic_across_calls() {
    const TEST: &'static str = "[[[\"I am not you. \",\"Mi estas ne vin.\",,,0],[\"You are not me.\",\"Vi estas ne min.\",,,0]],,\"eo\",,,,0.070792444,,[[\"eo\"],,[0.070792444],[\"eo\"]]]";
    let mut first = String::new();
    parse_message(TEST, &mut first);
    let mut second = String::new();
    parse_message(TEST, &mut second);
    assert_eq!(first, second);
}

#[test]
fn trailing_metadata_ignored() {
    let input = "[[[\"Hi\",\"Yo\",,,0]],,\"eo\",,,0]]\"this never shows up\"";
    let mut output = String::new();
    parse_message(input, &mut output);
    assert_eq!(output.as_str(), "Hi");
}

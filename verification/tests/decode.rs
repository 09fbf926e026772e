use completers::Completion;
use completers::CompletersError;
use completers::CompletionType;

fn args(v: &[&str]) -> Vec<String> {
    v.iter().map(|s| s.to_string()).collect()
}

#[test]
fn test_completion_from_args() {
    let args = vec![
        "1".to_string(),            // index
        "my_command s".to_string(), // line
        "12".to_string(),           // cursor index
        "33".to_string(),           // completion type
        "9".to_string(),            // key
        "my_command".to_string(),   // words
        "s".to_string(),            // words
    ];
    let completion = Completion::from_args(args).unwrap();
    assert_eq!(completion.words, vec!["my_command", "s"]);
    assert_eq!(completion.word_index, 1);
    assert_eq!(completion.line, "my_command s");
    assert_eq!(completion.cursor_index, 12);
    assert_eq!(completion.completion_type, CompletionType::ListAlternatives);
    assert_eq!(completion.key, '\t');
}

#[test]
fn fewer_than_five_args_is_missing_field() {
    assert!(matches!(
        Completion::from_args(args(&[])),
        Err(CompletersError::MissingField)
    ));
    assert!(matches!(
        Completion::from_args(args(&["1"])),
        Err(CompletersError::MissingField)
    ));
    assert!(matches!(
        Completion::from_args(args(&["1", "ls", "2", "9"])),
        Err(CompletersError::MissingField)
    ));
}

#[test]
fn exactly_five_args_gives_empty_words() {
    let completion = Completion::from_args(args(&["0", "ls ", "3", "9", "9"])).unwrap();
    assert!(completion.words.is_empty());
    assert_eq!(completion.word_index, 0);
    assert_eq!(completion.line, "ls ");
    assert_eq!(completion.cursor_index, 3);
    assert_eq!(completion.completion_type, CompletionType::Normal);
    assert_eq!(completion.key, '\t');
}

#[test]
fn decode_is_deterministic() {
    let input = args(&["1", "my_command s", "12", "33", "9", "my_command", "s"]);
    let first = Completion::from_args(input.clone()).unwrap();
    let second = Completion::from_args(input).unwrap();
    assert_eq!(first.words, second.words);
    assert_eq!(first.word_index, second.word_index);
    assert_eq!(first.line, second.line);
    assert_eq!(first.cursor_index, second.cursor_index);
    assert_eq!(first.completion_type, second.completion_type);
    assert_eq!(first.key, second.key);
}

#[test]
fn bad_word_index_names_the_field() {
    let r = Completion::from_args(args(&["x", "ls", "2", "9", "9"]));
    assert_eq!(
        r.unwrap_err(),
        CompletersError::InvalidValue {
            field: "word_index".to_string(),
            value: "x".to_string(),
            what: "invalid digit found in string".to_string(),
        }
    );
}

#[test]
fn empty_word_index_is_an_empty_parse() {
    let r = Completion::from_args(args(&["", "ls", "2", "9", "9"]));
    assert_eq!(
        r.unwrap_err(),
        CompletersError::InvalidValue {
            field: "word_index".to_string(),
            value: "".to_string(),
            what: "cannot parse integer from empty string".to_string(),
        }
    );
}

#[test]
fn bad_cursor_index_names_the_field() {
    let r = Completion::from_args(args(&["1", "ls", "12a", "9", "9"]));
    assert_eq!(
        r.unwrap_err(),
        CompletersError::InvalidValue {
            field: "cursor_index".to_string(),
            value: "12a".to_string(),
            what: "invalid digit found in string".to_string(),
        }
    );
}

#[test]
fn oversized_completion_type_overflows() {
    let r = Completion::from_args(args(&["1", "ls", "2", "999", "9"]));
    assert_eq!(
        r.unwrap_err(),
        CompletersError::InvalidValue {
            field: "completion_type".to_string(),
            value: "999".to_string(),
            what: "number too large to fit in target type".to_string(),
        }
    );
}

#[test]
fn unknown_completion_type_code_is_rejected() {
    let r = Completion::from_args(args(&["1", "ls", "2", "65", "9"]));
    assert_eq!(
        r.unwrap_err(),
        CompletersError::InvalidValue {
            field: "completion_type".to_string(),
            value: "65".to_string(),
            what: "Cannot interpret completion type".to_string(),
        }
    );
}

#[test]
fn leading_zeros_in_completion_type_are_canonicalized_in_the_error() {
    let r = Completion::from_args(args(&["1", "ls", "2", "065", "9"]));
    assert_eq!(
        r.unwrap_err(),
        CompletersError::InvalidValue {
            field: "completion_type".to_string(),
            value: "65".to_string(),
            what: "Cannot interpret completion type".to_string(),
        }
    );
}

#[test]
fn bad_key_names_the_field() {
    let r = Completion::from_args(args(&["1", "ls", "2", "9", "key"]));
    assert_eq!(
        r.unwrap_err(),
        CompletersError::InvalidValue {
            field: "key".to_string(),
            value: "key".to_string(),
            what: "invalid digit found in string".to_string(),
        }
    );
}

#[test]
fn plus_signs_parse_like_the_standard_parser() {
    let completion = Completion::from_args(args(&["+1", "ls a", "+4", "+33", "+63"])).unwrap();
    assert_eq!(completion.word_index, 1);
    assert_eq!(completion.cursor_index, 4);
    assert_eq!(completion.completion_type, CompletionType::ListAlternatives);
    assert_eq!(completion.key, '?');
}

#[test]
fn lone_plus_is_an_invalid_digit() {
    let r = Completion::from_args(args(&["+", "ls", "2", "9", "9"]));
    assert_eq!(
        r.unwrap_err(),
        CompletersError::InvalidValue {
            field: "word_index".to_string(),
            value: "+".to_string(),
            what: "invalid digit found in string".to_string(),
        }
    );
}

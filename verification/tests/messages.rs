use completers::CompletersError;
use completers::ShellCodeError;

#[test]
fn missing_field_message() {
    assert_eq!(
        CompletersError::MissingField.message(),
        "Missing required field"
    );
}

#[test]
fn invalid_value_message_names_field_value_and_cause() {
    let e = CompletersError::InvalidValue {
        field: "word_index".to_string(),
        value: "x".to_string(),
        what: "invalid digit found in string".to_string(),
    };
    assert_eq!(
        e.message(),
        "Invalid value for field word_index: x (invalid digit found in string)"
    );
}

#[test]
fn unrecognized_env_var_message_carries_the_value() {
    let e = CompletersError::UnrecognizedEnvVar("zsh".to_string());
    assert_eq!(e.message(), "Unrecognized environment variable value: zsh");
}

#[test]
fn custom_message_is_prefixed() {
    let e = CompletersError::Custom("boom".to_string());
    assert_eq!(e.message(), "Custom error: boom");
}

#[test]
fn shell_code_messages_nest() {
    let io = ShellCodeError::IO("pipe closed".to_string());
    assert_eq!(io.message(), "IO error: pipe closed");
    let enc = ShellCodeError::Encoding("bad name".to_string());
    assert_eq!(enc.message(), "Encoding error: bad name");
    let wrapped = CompletersError::from(enc);
    assert_eq!(wrapped.message(), "Shell code error: Encoding error: bad name");
}

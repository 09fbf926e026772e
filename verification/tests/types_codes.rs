use completers::CompletionType;

#[test]
fn every_variant_round_trips_through_its_code() {
    let variants = [
        CompletionType::Normal,
        CompletionType::List,
        CompletionType::ListAlternatives,
        CompletionType::ListUnmodified,
        CompletionType::Menu,
    ];
    for v in variants {
        assert_eq!(CompletionType::from_code(v.as_code()), Some(v));
    }
}

#[test]
fn the_codes_are_the_documented_bytes() {
    assert_eq!(CompletionType::Normal.as_code(), b'\t');
    assert_eq!(CompletionType::List.as_code(), b'?');
    assert_eq!(CompletionType::ListAlternatives.as_code(), b'!');
    assert_eq!(CompletionType::ListUnmodified.as_code(), b'@');
    assert_eq!(CompletionType::Menu.as_code(), b'%');
    assert_eq!(CompletionType::Normal.as_char(), '\t');
    assert_eq!(CompletionType::Menu.as_char(), '%');
}

#[test]
fn unrecognized_codes_fail_to_decode() {
    for code in 0u8..=255 {
        let decoded = CompletionType::from_code(code);
        match code {
            b'\t' | b'?' | b'!' | b'@' | b'%' => {
                assert_eq!(decoded.unwrap().as_code(), code);
            }
            _ => assert!(decoded.is_none()),
        }
    }
}

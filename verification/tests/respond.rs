use completers::Completion;
use completers::CompletionType;
use completers::Response;

fn sample() -> Completion {
    Completion {
        words: vec!["my_command".to_string(), "s".to_string()],
        word_index: 1,
        line: "my_command s".to_string(),
        cursor_index: 12,
        completion_type: CompletionType::ListAlternatives,
        key: '\t',
    }
}

#[test]
fn candidates_render_one_per_line_in_order() {
    let r = Response::Candidates(vec!["apple".to_string(), "apricot".to_string()]);
    assert_eq!(r.render(), vec!["apple", "apricot"]);
}

#[test]
fn no_candidates_render_no_lines() {
    let r = Response::Candidates(vec![]);
    assert!(r.render().is_empty());
}

#[test]
fn delegate_renders_marker_fields_and_words_in_decoder_order() {
    let r = Response::Delegate(sample());
    assert_eq!(
        r.render(),
        vec![
            "COMPLETERS_DELEGATE",
            "1",
            "my_command s",
            "12",
            "33",
            "9",
            "my_command",
            "s",
        ]
    );
}

#[test]
fn delegate_lines_re_decode_to_the_same_request() {
    let lines = Response::Delegate(sample()).render();
    let again = Completion::from_args(lines[1..].to_vec()).unwrap();
    let original = sample();
    assert_eq!(again.words, original.words);
    assert_eq!(again.word_index, original.word_index);
    assert_eq!(again.line, original.line);
    assert_eq!(again.cursor_index, original.cursor_index);
    assert_eq!(again.completion_type, original.completion_type);
    assert_eq!(again.key, original.key);
}

#[test]
fn current_word_is_the_word_at_the_index() {
    let c = sample();
    assert_eq!(c.current_word(), Some(&"s".to_string()));
    let mut out_of_range = sample();
    out_of_range.word_index = 2;
    assert_eq!(out_of_range.current_word(), None);
}

#[test]
fn retarget_splices_words_and_shifts_the_index() {
    let c = sample();
    let r = c.retarget(vec!["wrapper".to_string()]);
    assert_eq!(r.words, vec!["wrapper", "my_command", "s"]);
    assert_eq!(r.word_index, 2);
    assert_eq!(r.line, "wrapper my_command s");
    assert_eq!(r.cursor_index, "wrapper my_command s".len());
    assert_eq!(r.completion_type, CompletionType::ListAlternatives);
    assert_eq!(r.key, '\t');
}

#[test]
fn retarget_places_the_cursor_at_the_end_of_the_target_word() {
    let mut c = sample();
    c.word_index = 0;
    let r = c.retarget(vec!["outer".to_string(), "inner".to_string()]);
    assert_eq!(r.words, vec!["outer", "inner", "my_command", "s"]);
    assert_eq!(r.word_index, 2);
    assert_eq!(r.line, "outer inner my_command s");
    assert_eq!(r.cursor_index, "outer inner my_command".len());
}

use completers::Completion;
use completers::ShellCodeError;
use completers::ShellKind;

#[test]
fn bash_script_registers_the_named_program() {
    let script = Completion::generate_bash("my-tool", "/usr/local/bin/my-tool").unwrap();
    assert!(script.contains("_completer_my-tool"));
    assert!(script.contains("complete -F _completer_my-tool my-tool"));
    assert!(script.contains("/usr/local/bin/my-tool"));
    assert!(script.contains("COMPLETE=1"));
}

#[test]
fn bash_script_forwards_the_fields_in_decoder_order() {
    let script = Completion::generate_bash("t", "/bin/t").unwrap();
    let cword = script.find("$COMP_CWORD").unwrap();
    let line = script.find("$COMP_LINE").unwrap();
    let point = script.find("$COMP_POINT").unwrap();
    let ctype = script.find("$COMP_TYPE").unwrap();
    let key = script.find("$COMP_KEY").unwrap();
    let words = script.find("${COMP_WORDS[@]}").unwrap();
    assert!(cword < line && line < point && point < ctype && ctype < key && key < words);
}

#[test]
fn nu_script_names_the_program_and_path() {
    let script = Completion::generate_nu("my-tool", "/usr/local/bin/my-tool").unwrap();
    assert!(script.contains("my-tool"));
    assert!(script.contains("run-external '/usr/local/bin/my-tool'"));
    assert!(script.contains("COMPLETE=1"));
}

#[test]
fn unsafe_name_fails_closed() {
    let r = Completion::generate_bash("my tool", "/usr/local/bin/my-tool");
    assert_eq!(
        r.unwrap_err(),
        ShellCodeError::Encoding("Program name contains unsafe characters".to_string())
    );
}

#[test]
fn unsafe_path_fails_closed() {
    let r = Completion::generate_bash("my-tool", "/usr/local/bin/my tool; rm -rf x");
    assert_eq!(
        r.unwrap_err(),
        ShellCodeError::Encoding("Program path contains unsafe characters".to_string())
    );
    let r = Completion::generate_nu("my-tool", "$(boom)");
    assert_eq!(
        r.unwrap_err(),
        ShellCodeError::Encoding("Program path contains unsafe characters".to_string())
    );
}

#[test]
fn different_inputs_render_different_scripts() {
    let a = Completion::generate_bash("alpha", "/bin/alpha").unwrap();
    let b = Completion::generate_bash("beta", "/bin/beta").unwrap();
    assert_ne!(a, b);
    let c = Completion::generate_bash("alpha", "/opt/alpha").unwrap();
    assert_ne!(a, c);
    let d = Completion::generate_nu("alpha", "/bin/alpha").unwrap();
    let e = Completion::generate_nu("alpha", "/opt/alpha").unwrap();
    assert_ne!(d, e);
}

#[test]
fn generate_dispatches_on_the_shell_kind() {
    let bash = Completion::generate(ShellKind::Bash, "t", "/bin/t").unwrap();
    let nu = Completion::generate(ShellKind::Nu, "t", "/bin/t").unwrap();
    assert_eq!(bash, Completion::generate_bash("t", "/bin/t").unwrap());
    assert_eq!(nu, Completion::generate_nu("t", "/bin/t").unwrap());
}

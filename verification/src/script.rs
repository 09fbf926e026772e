//! Installer-script generation: a fixed template per supported shell, with
//! the validated program name and path substituted in.

use crate::Completion;
use crate::errors::ShellCodeError;
use crate::safety::is_safe;
use crate::safety::is_safe_seq;
use crate::safety::lemma_safe_seq_excludes;
use vstd::prelude::*;
use vstd::string::StringExecFns;

verus! {

/// Two concatenations that agree, whose front parts are both free of the
/// delimiter `c` and whose back parts both start with it, split at the
/// same place: the fronts agree and the backs agree.
proof fn lemma_unique_split(x1: Seq<char>, y1: Seq<char>, x2: Seq<char>, y2: Seq<char>, c: char)
    requires
        x1 + y1 == x2 + y2,
        forall|i: int| 0 <= i < x1.len() ==> x1[i] != c,
        forall|i: int| 0 <= i < x2.len() ==> x2[i] != c,
        y1.len() > 0,
        y1[0] == c,
        y2.len() > 0,
        y2[0] == c,
    ensures
        x1 == x2,
        y1 == y2,
{
    let s = x1 + y1;
    assert(s.len() == x1.len() + y1.len());
    assert((x2 + y2).len() == x2.len() + y2.len());
    assert(s[x1.len() as int] == c);
    assert(s[x2.len() as int] == c);
    if x1.len() < x2.len() {
        assert(s[x1.len() as int] == x2[x1.len() as int]);
    }
    if x2.len() < x1.len() {
        assert(s[x2.len() as int] == x1[x2.len() as int]);
    }
    assert(x1.len() == x2.len());
    assert forall|i: int| 0 <= i < x1.len() implies x1[i] == x2[i] by {
        assert(s[i] == x1[i]);
        assert((x2 + y2)[i] == x2[i]);
    }
    assert(x1 =~= x2);
    assert forall|i: int| 0 <= i < y1.len() implies y1[i] == y2[i] by {
        assert(s[x1.len() + i] == y1[i]);
        assert((x2 + y2)[x2.len() + i] == y2[i]);
    }
    assert(y1 =~= y2);
}

/// Equal concatenations with the same front have the same back.
proof fn lemma_cancel_prefix(a: Seq<char>, b1: Seq<char>, b2: Seq<char>)
    requires
        a + b1 == a + b2,
    ensures
        b1 == b2,
{
    assert((a + b1).len() == a.len() + b1.len());
    assert((a + b2).len() == a.len() + b2.len());
    assert(b1.len() == b2.len());
    assert forall|i: int| 0 <= i < b1.len() implies b1[i] == b2[i] by {
        assert((a + b1)[a.len() + i] == b1[i]);
        assert((a + b2)[a.len() + i] == b2[i]);
    }
    assert(b1 =~= b2);
}

/// The shells an installer script can be generated for.
#[derive(Debug, Clone, Copy, PartialEq, Eq, Structural)]
pub enum ShellKind {
    /// GNU Bash.
    Bash,
    /// Nushell.
    Nu,
}

/// The Bash installer script for a program called `name` living at `path`:
/// a completion function that re-invokes the program with the mode switch
/// set to `1`, forwarding Bash's own completion variables positionally in
/// decoder order — word index, line, cursor index, completion type, key,
/// then all words — and the `complete` registration for it.
pub open spec fn bash_script(name: Seq<char>, path: Seq<char>) -> Seq<char> {
    "_completer_"@ + name
        + "() {\n    local IFS=$'\\n'\n    COMPREPLY=( $(COMPLETE=1 \""@ + path
        + "\" \"$COMP_CWORD\" \"$COMP_LINE\" \"$COMP_POINT\" \"$COMP_TYPE\" \"$COMP_KEY\" \"${COMP_WORDS[@]}\") )\n}\ncomplete -F _completer_"@
        + name + " "@ + name + "\n"@
}

/// The Nushell installer script for a program called `name` living at
/// `path`: an external completer that re-invokes the program with the mode
/// switch set to `1`, forwarding the spans in decoder order.
pub open spec fn nu_script(name: Seq<char>, path: Seq<char>) -> Seq<char> {
    "# External completer for "@ + name
        + "\n$env.config.completions.external.completer = {|spans|\n    if ($spans | first) == '"@
        + name + "' {\n        COMPLETE=1 run-external '"@ + path
        + "' (($spans | length) - 1 | into string) ($spans | str join ' ') ($spans | str join ' ' | str length | into string) '9' '9' ...$spans | lines\n    } else {\n        null\n    }\n}\n"@
}

/// Whether `e` is the encoding error for an unsafe program name.
pub open spec fn is_unsafe_name_err(e: ShellCodeError) -> bool {
    match e {
        ShellCodeError::Encoding(m) => m@ == "Program name contains unsafe characters"@,
        _ => false,
    }
}

/// Whether `e` is the encoding error for an unsafe program path.
pub open spec fn is_unsafe_path_err(e: ShellCodeError) -> bool {
    match e {
        ShellCodeError::Encoding(m) => m@ == "Program path contains unsafe characters"@,
        _ => false,
    }
}

/// Fails closed with the encoding error for an unsafe program name.
fn unsafe_name_error() -> (e: ShellCodeError)
    ensures
        e matches ShellCodeError::Encoding(m) && m@ == "Program name contains unsafe characters"@,
{
    ShellCodeError::Encoding(String::from_str("Program name contains unsafe characters"))
}

/// Fails closed with the encoding error for an unsafe program path.
fn unsafe_path_error() -> (e: ShellCodeError)
    ensures
        e matches ShellCodeError::Encoding(m) && m@ == "Program path contains unsafe characters"@,
{
    ShellCodeError::Encoding(String::from_str("Program path contains unsafe characters"))
}

impl Completion {
    /// Generates the Bash completion installer script for the program
    /// called `name` living at `path`, exactly [`bash_script`]. Both
    /// strings are untrusted — they originate from the installation
    /// directory — so both must pass the safety whitelist before they are
    /// spliced verbatim into shell source; otherwise generation fails
    /// closed with an encoding error naming the offender.
    pub fn generate_bash(name: &str, path: &str) -> (r: Result<String, ShellCodeError>)
        ensures
            match r {
                Ok(s) => is_safe_seq(name@) && is_safe_seq(path@) && s@ == bash_script(
                    name@,
                    path@,
                ),
                Err(e) => (!is_safe_seq(name@) && is_unsafe_name_err(e)) || (is_safe_seq(name@)
                    && !is_safe_seq(path@) && is_unsafe_path_err(e)),
            },
    {
        if !is_safe(name) {
            return Err(unsafe_name_error());
        }
        if !is_safe(path) {
            return Err(unsafe_path_error());
        }
        let mut s = String::from_str("_completer_");
        s.append(name);
        s.append("() {\n    local IFS=$'\\n'\n    COMPREPLY=( $(COMPLETE=1 \"");
        s.append(path);
        s.append(
            "\" \"$COMP_CWORD\" \"$COMP_LINE\" \"$COMP_POINT\" \"$COMP_TYPE\" \"$COMP_KEY\" \"${COMP_WORDS[@]}\") )\n}\ncomplete -F _completer_",
        );
        s.append(name);
        s.append(" ");
        s.append(name);
        s.append("\n");
        Ok(s)
    }

    /// Generates the Nushell completion installer script for the program
    /// called `name` living at `path`, exactly [`nu_script`], after the
    /// same safety validation as the Bash generator.
    pub fn generate_nu(name: &str, path: &str) -> (r: Result<String, ShellCodeError>)
        ensures
            match r {
                Ok(s) => is_safe_seq(name@) && is_safe_seq(path@) && s@ == nu_script(
                    name@,
                    path@,
                ),
                Err(e) => (!is_safe_seq(name@) && is_unsafe_name_err(e)) || (is_safe_seq(name@)
                    && !is_safe_seq(path@) && is_unsafe_path_err(e)),
            },
    {
        if !is_safe(name) {
            return Err(unsafe_name_error());
        }
        if !is_safe(path) {
            return Err(unsafe_path_error());
        }
        let mut s = String::from_str("# External completer for ");
        s.append(name);
        s.append(
            "\n$env.config.completions.external.completer = {|spans|\n    if ($spans | first) == '",
        );
        s.append(name);
        s.append("' {\n        COMPLETE=1 run-external '");
        s.append(path);
        s.append(
            "' (($spans | length) - 1 | into string) ($spans | str join ' ') ($spans | str join ' ' | str length | into string) '9' '9' ...$spans | lines\n    } else {\n        null\n    }\n}\n",
        );
        Ok(s)
    }

    /// Generates the installer script for `shell`, dispatching to the
    /// generator of that shell.
    pub fn generate(shell: ShellKind, name: &str, path: &str) -> (r: Result<
        String,
        ShellCodeError,
    >)
        ensures
            match r {
                Ok(s) => is_safe_seq(name@) && is_safe_seq(path@) && s@ == (match shell {
                    ShellKind::Bash => bash_script(name@, path@),
                    ShellKind::Nu => nu_script(name@, path@),
                }),
                Err(e) => (!is_safe_seq(name@) && is_unsafe_name_err(e)) || (is_safe_seq(name@)
                    && !is_safe_seq(path@) && is_unsafe_path_err(e)),
            },
    {
        match shell {
            ShellKind::Bash => Completion::generate_bash(name, path),
            ShellKind::Nu => Completion::generate_nu(name, path),
        }
    }
}

/// Bash script generation is injective in the pair (name, path): two
/// generated scripts that agree letter for letter came from the same valid
/// name and the same valid path. The template's fixed text differs from
/// the substituted placeholders at characters the safety whitelist
/// excludes, so the placeholders can always be read back off.
pub proof fn lemma_bash_script_injective(n1: Seq<char>, p1: Seq<char>, n2: Seq<char>, p2: Seq<char>)
    requires
        is_safe_seq(n1),
        is_safe_seq(p1),
        is_safe_seq(n2),
        is_safe_seq(p2),
        bash_script(n1, p1) == bash_script(n2, p2),
    ensures
        n1 == n2,
        p1 == p2,
{
    let pre = "_completer_"@;
    let mid1 = "() {\n    local IFS=$'\\n'\n    COMPREPLY=( $(COMPLETE=1 \""@;
    let mid2 =
        "\" \"$COMP_CWORD\" \"$COMP_LINE\" \"$COMP_POINT\" \"$COMP_TYPE\" \"$COMP_KEY\" \"${COMP_WORDS[@]}\") )\n}\ncomplete -F _completer_"@;
    let sp = " "@;
    let nl = "\n"@;
    reveal_strlit("_completer_");
    reveal_strlit("() {\n    local IFS=$'\\n'\n    COMPREPLY=( $(COMPLETE=1 \"");
    reveal_strlit(
        "\" \"$COMP_CWORD\" \"$COMP_LINE\" \"$COMP_POINT\" \"$COMP_TYPE\" \"$COMP_KEY\" \"${COMP_WORDS[@]}\") )\n}\ncomplete -F _completer_",
    );
    reveal_strlit(" ");
    reveal_strlit("\n");
    let t1 = mid2 + (n1 + (sp + (n1 + nl)));
    let t2 = mid2 + (n2 + (sp + (n2 + nl)));
    let y1 = mid1 + (p1 + t1);
    let y2 = mid1 + (p2 + t2);
    assert(bash_script(n1, p1) =~= (pre + n1) + y1);
    assert(bash_script(n2, p2) =~= (pre + n2) + y2);
    lemma_safe_seq_excludes(n1, '(');
    lemma_safe_seq_excludes(n2, '(');
    assert(forall|i: int| 0 <= i < (pre + n1).len() ==> #[trigger] (pre + n1)[i] != '(');
    assert(forall|i: int| 0 <= i < (pre + n2).len() ==> #[trigger] (pre + n2)[i] != '(');
    assert(y1[0] == '(');
    assert(y2[0] == '(');
    lemma_unique_split(pre + n1, y1, pre + n2, y2, '(');
    lemma_cancel_prefix(pre, n1, n2);
    lemma_cancel_prefix(mid1, p1 + t1, p2 + t2);
    lemma_safe_seq_excludes(p1, '"');
    lemma_safe_seq_excludes(p2, '"');
    assert(t1[0] == '"');
    assert(t2[0] == '"');
    lemma_unique_split(p1, t1, p2, t2, '"');
}

/// Nushell script generation is injective in the pair (name, path), for
/// the same reason as the Bash generator.
pub proof fn lemma_nu_script_injective(n1: Seq<char>, p1: Seq<char>, n2: Seq<char>, p2: Seq<char>)
    requires
        is_safe_seq(n1),
        is_safe_seq(p1),
        is_safe_seq(n2),
        is_safe_seq(p2),
        nu_script(n1, p1) == nu_script(n2, p2),
    ensures
        n1 == n2,
        p1 == p2,
{
    let pre = "# External completer for "@;
    let mid1 =
        "\n$env.config.completions.external.completer = {|spans|\n    if ($spans | first) == '"@;
    let mid2 = "' {\n        COMPLETE=1 run-external '"@;
    let tail =
        "' (($spans | length) - 1 | into string) ($spans | str join ' ') ($spans | str join ' ' | str length | into string) '9' '9' ...$spans | lines\n    } else {\n        null\n    }\n}\n"@;
    reveal_strlit("# External completer for ");
    reveal_strlit(
        "\n$env.config.completions.external.completer = {|spans|\n    if ($spans | first) == '",
    );
    reveal_strlit("' {\n        COMPLETE=1 run-external '");
    reveal_strlit(
        "' (($spans | length) - 1 | into string) ($spans | str join ' ') ($spans | str join ' ' | str length | into string) '9' '9' ...$spans | lines\n    } else {\n        null\n    }\n}\n",
    );
    let y1 = mid1 + (n1 + (mid2 + (p1 + tail)));
    let y2 = mid1 + (n2 + (mid2 + (p2 + tail)));
    assert(nu_script(n1, p1) =~= (pre + n1) + y1);
    assert(nu_script(n2, p2) =~= (pre + n2) + y2);
    lemma_safe_seq_excludes(n1, '\n');
    lemma_safe_seq_excludes(n2, '\n');
    assert(forall|i: int| 0 <= i < (pre + n1).len() ==> #[trigger] (pre + n1)[i] != '\n');
    assert(forall|i: int| 0 <= i < (pre + n2).len() ==> #[trigger] (pre + n2)[i] != '\n');
    assert(y1[0] == '\n');
    assert(y2[0] == '\n');
    lemma_unique_split(pre + n1, y1, pre + n2, y2, '\n');
    lemma_cancel_prefix(pre, n1, n2);
    lemma_cancel_prefix(mid1, n1 + (mid2 + (p1 + tail)), n2 + (mid2 + (p2 + tail)));
    lemma_cancel_prefix(n1, mid2 + (p1 + tail), mid2 + (p2 + tail));
    lemma_cancel_prefix(mid2, p1 + tail, p2 + tail);
    lemma_safe_seq_excludes(p1, '\'');
    lemma_safe_seq_excludes(p2, '\'');
    assert(tail[0] == '\'');
    lemma_unique_split(p1, tail, p2, tail, '\'');
}

} // verus!

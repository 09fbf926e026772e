//! Shell tab-completion plumbing for command-line programs.
//!
//! A host shell invokes the program in a completion-probe mode, passing the
//! command line's words, cursor position and invocation metadata as plain
//! process arguments selected by one environment variable. This crate decodes
//! that probe into a structured [`Completion`] request, decides among the
//! possible modes, renders the response lines the shell expects, and
//! generates the one-time installer script a user sources to register the
//! probe — validating every untrusted string before it is spliced into
//! generated shell source.

pub mod errors;
pub mod numbers;
pub mod safety;
pub mod script;
pub mod types;

pub use crate::errors::CompletersError;
pub use crate::errors::ShellCodeError;
pub use crate::script::ShellKind;
pub use crate::types::CompletionType;

use crate::numbers::NumError;
use crate::numbers::dec_digits;
use crate::numbers::num_msg;
use crate::numbers::parse_u8;
use crate::numbers::parse_usize;
use crate::numbers::spec_parse;
use crate::numbers::u8_to_string;
use crate::numbers::usize_to_string;
use crate::types::code_of;
use crate::types::type_of_code;
use vstd::prelude::*;
use vstd::string::StrSliceExecFns;
use vstd::string::StringExecFns;

verus! {

/// A completion request: one probe invocation's command line, decoded.
#[derive(Debug, Clone)]
pub struct Completion {
    /// Every word of the command line being completed, including the
    /// invoked program's own name as the first word.
    pub words: Vec<String>,
    /// The index into [`words`](Completion::words) of the word currently
    /// being completed. Out-of-range means "no current word", not a fault.
    pub word_index: usize,
    /// The raw command-line text.
    pub line: String,
    /// The byte offset of the cursor within [`line`](Completion::line).
    pub cursor_index: usize,
    /// The kind of completion the shell attempted.
    pub completion_type: CompletionType,
    /// The key (or final key of a key sequence) that triggered the probe.
    pub key: char,
}

/// Whether `r` is the invalid-value error naming `field`, carrying the
/// offending raw `value` and the cause `what`.
pub open spec fn is_invalid_value(
    r: Result<Completion, CompletersError>,
    field: Seq<char>,
    value: Seq<char>,
    what: Seq<char>,
) -> bool {
    match r {
        Err(CompletersError::InvalidValue { field: f, value: v, what: w }) => f@ == field && v@
            == value && w@ == what,
        _ => false,
    }
}

/// Everything decoding promises, as a relation between the argument tail
/// `a` and the outcome `r`: fewer than five elements is a missing field;
/// otherwise the five positional scalars are parsed in fixed order —
/// word index, line, cursor index, completion type, key — naming the first
/// field that fails, and on success every field of the request is pinned,
/// with the remainder of `a` as the words.
pub open spec fn decode_post(a: Seq<Seq<char>>, r: Result<Completion, CompletersError>) -> bool {
    if a.len() < 5 {
        r matches Err(CompletersError::MissingField)
    } else {
        let wi = spec_parse(a[0], usize::MAX as int);
        let ci = spec_parse(a[2], usize::MAX as int);
        let ct = spec_parse(a[3], 255);
        let ky = spec_parse(a[4], 255);
        if wi is Err {
            is_invalid_value(r, "word_index"@, a[0], num_msg(wi->Err_0))
        } else if ci is Err {
            is_invalid_value(r, "cursor_index"@, a[2], num_msg(ci->Err_0))
        } else if ct is Err {
            is_invalid_value(r, "completion_type"@, a[3], num_msg(ct->Err_0))
        } else if type_of_code(ct->Ok_0 as u8) is None {
            is_invalid_value(
                r,
                "completion_type"@,
                dec_digits(ct->Ok_0),
                "Cannot interpret completion type"@,
            )
        } else if ky is Err {
            is_invalid_value(r, "key"@, a[4], num_msg(ky->Err_0))
        } else {
            match r {
                Ok(c) => {
                    &&& c.words.deep_view() == a.skip(5)
                    &&& c.word_index as int == wi->Ok_0
                    &&& c.line@ == a[1]
                    &&& c.cursor_index as int == ci->Ok_0
                    &&& Some(c.completion_type) == type_of_code(ct->Ok_0 as u8)
                    &&& c.key as u32 == ky->Ok_0
                },
                Err(_) => false,
            }
        }
    }
}

/// Whether decoding `a` succeeds: five or more elements, the three numeric
/// fields parse within their bounds, and the completion-type byte is one of
/// the five recognized codes.
pub open spec fn decode_ok(a: Seq<Seq<char>>) -> bool {
    &&& a.len() >= 5
    &&& spec_parse(a[0], usize::MAX as int) is Ok
    &&& spec_parse(a[2], usize::MAX as int) is Ok
    &&& spec_parse(a[3], 255) is Ok
    &&& type_of_code(spec_parse(a[3], 255)->Ok_0 as u8) is Some
    &&& spec_parse(a[4], 255) is Ok
}

/// Decoding is total: it returns a request exactly on the well-formed
/// argument tails, and an error on all others.
pub proof fn lemma_decode_total(a: Seq<Seq<char>>, r: Result<Completion, CompletersError>)
    requires
        decode_post(a, r),
    ensures
        r is Ok <==> decode_ok(a),
{
}

/// Decoding is deterministic: two outcomes for the same argument tail
/// agree on every field of the request, and on the error and all its
/// parts otherwise.
pub proof fn lemma_decode_deterministic(
    a: Seq<Seq<char>>,
    r1: Result<Completion, CompletersError>,
    r2: Result<Completion, CompletersError>,
)
    requires
        decode_post(a, r1),
        decode_post(a, r2),
    ensures
        r1 is Ok <==> r2 is Ok,
        r1 matches Ok(c1) ==> r2 matches Ok(c2) && c1.words.deep_view() == c2.words.deep_view()
            && c1.word_index == c2.word_index && c1.line@ == c2.line@ && c1.cursor_index
            == c2.cursor_index && c1.completion_type == c2.completion_type && c1.key == c2.key,
        r1 matches Err(e1) ==> r2 matches Err(e2) && crate::errors::completers_message(e1)
            == crate::errors::completers_message(e2),
{
    if a.len() >= 5 {
        let ky = spec_parse(a[4], 255);
        if decode_ok(a) {
            assert(r1 matches Ok(c1) && r2 matches Ok(c2) ==> c1.key as u32 == c2.key as u32
                && c1.key == c2.key);
        }
    }
}

/// Compares two strings character by character.
fn str_eq(a: &str, b: &str) -> (r: bool)
    ensures
        r == (a@ == b@),
{
    let n = a.unicode_len();
    if n != b.unicode_len() {
        return false;
    }
    let mut i: usize = 0;
    while i < n
        invariant
            0 <= i <= n,
            n == a@.len(),
            n == b@.len(),
            forall|j: int| 0 <= j < i ==> a@[j] == b@[j],
        decreases n - i,
    {
        if a.get_char(i) != b.get_char(i) {
            return false;
        }
        i = i + 1;
    }
    proof {
        assert(a@ =~= b@);
    }
    true
}

/// Builds the invalid-value error for `field`, with the raw `value` and
/// the parse failure `e` as the cause.
fn invalid_number(field: &str, value: String, e: NumError) -> (r: CompletersError)
    ensures
        r matches CompletersError::InvalidValue { field: f, value: v, what: w } && f@ == field@
            && v@ == value@ && w@ == num_msg(e),
{
    CompletersError::InvalidValue {
        field: String::from_str(field),
        value,
        what: e.message(),
    }
}

impl Completion {
    /// Decodes a probe's argument tail — the five positional scalars in
    /// fixed order (word index, line, cursor index, completion type, key),
    /// then the words — into a request, exactly as [`decode_post`] says.
    /// A pure function of its input: no side effects.
    pub fn from_args(args: Vec<String>) -> (r: Result<Completion, CompletersError>)
        ensures
            decode_post(args.deep_view(), r),
    {
        let ghost a: Seq<Seq<char>> = args.deep_view();
        if args.len() < 5 {
            return Err(CompletersError::MissingField);
        }
        let word_index: usize = match parse_usize(args[0].as_str()) {
            Ok(v) => v,
            Err(e) => {
                return Err(invalid_number("word_index", args[0].clone(), e));
            },
        };
        let cursor_index: usize = match parse_usize(args[2].as_str()) {
            Ok(v) => v,
            Err(e) => {
                return Err(invalid_number("cursor_index", args[2].clone(), e));
            },
        };
        let type_code: u8 = match parse_u8(args[3].as_str()) {
            Ok(v) => v,
            Err(e) => {
                return Err(invalid_number("completion_type", args[3].clone(), e));
            },
        };
        let completion_type: CompletionType = match CompletionType::from_code(type_code) {
            Some(t) => t,
            None => {
                return Err(CompletersError::InvalidValue {
                    field: String::from_str("completion_type"),
                    value: u8_to_string(type_code),
                    what: String::from_str("Cannot interpret completion type"),
                });
            },
        };
        let key_code: u8 = match parse_u8(args[4].as_str()) {
            Ok(v) => v,
            Err(e) => {
                return Err(invalid_number("key", args[4].clone(), e));
            },
        };
        let key: char = key_code as char;
        let line: String = args[1].clone();
        let mut words: Vec<String> = Vec::new();
        let mut i: usize = 5;
        while i < args.len()
            invariant
                5 <= i <= args.len(),
                a == args.deep_view(),
                a.len() == args.len(),
                words@.len() == i - 5,
                forall|j: int| 0 <= j < i - 5 ==> #[trigger] words@[j]@ == a[5 + j],
            decreases args.len() - i,
        {
            words.push(args[i].clone());
            i = i + 1;
        }
        proof {
            assert forall|j: int| 0 <= j < words.deep_view().len() implies #[trigger] words.deep_view()[j] == a.skip(5)[j] by {
                assert(words@[j]@ == a[5 + j]);
            }
            assert(words.deep_view() =~= a.skip(5));
        }
        Ok(
            Completion {
                words,
                word_index,
                line,
                cursor_index,
                completion_type,
                key,
            },
        )
    }

    /// The word currently being completed, or nothing when the word index
    /// is out of range.
    pub fn current_word(&self) -> (w: Option<&String>)
        ensures
            match w {
                Some(s) => self.word_index < self.words.len() && s@ == self.words@.index(
                    self.word_index as int,
                )@,
                None => self.word_index >= self.words.len(),
            },
    {
        if self.word_index < self.words.len() {
            Some(&self.words[self.word_index])
        } else {
            None
        }
    }
}

/// The words `ws` joined into one line by single spaces.
pub open spec fn join_words(ws: Seq<Seq<char>>) -> Seq<char>
    decreases ws.len(),
{
    if ws.len() == 0 {
        Seq::empty()
    } else if ws.len() == 1 {
        ws[0]
    } else {
        join_words(ws.drop_last()) + " "@ + ws.last()
    }
}

/// Where the cursor sits when it is assumed to rest at the end of word `k`
/// of the line joined from `ws`: the length of the join of the first
/// `k + 1` words, or of the whole line when `k` is out of range.
pub open spec fn word_end_cursor(ws: Seq<Seq<char>>, k: int) -> int {
    if 0 <= k < ws.len() {
        join_words(ws.take(k + 1)).len() as int
    } else {
        join_words(ws).len() as int
    }
}

/// Joins the first `upto` words of `ws` by single spaces.
fn join_upto(ws: &Vec<String>, upto: usize) -> (r: String)
    requires
        upto <= ws@.len(),
    ensures
        r@ == join_words(ws.deep_view().take(upto as int)),
{
    let mut r = String::new();
    let mut i: usize = 0;
    while i < upto
        invariant
            0 <= i <= upto <= ws@.len(),
            r@ == join_words(ws.deep_view().take(i as int)),
        decreases upto - i,
    {
        if i > 0 {
            r.append(" ");
        }
        r.append(ws[i].as_str());
        proof {
            let dv = ws.deep_view();
            assert(dv.take(i + 1).drop_last() =~= dv.take(i as int));
            assert(dv.take(i + 1).last() == dv[i as int]);
            if i == 0 {
                assert(join_words(dv.take(1)) == dv[0]);
                assert(r@ == dv[0]);
            }
        }
        i = i + 1;
    }
    r
}

impl Completion {
    /// Rewrites this request to target another program: the given words
    /// are spliced in front of the existing ones, the word index shifts by
    /// exactly the number of inserted words, the line is rebuilt as the
    /// words joined by single spaces, and the cursor is placed at the end
    /// of the target word, counted in characters of the rebuilt line. The
    /// cursor recomputation assumes the cursor sits at the end of the word
    /// being completed — an approximation, kept as a documented
    /// limitation. The completion type and key pass through unchanged.
    pub fn retarget(self, prefix: Vec<String>) -> (r: Completion)
        requires
            prefix@.len() + self.word_index <= usize::MAX,
        ensures
            r.words.deep_view() == prefix.deep_view() + self.words.deep_view(),
            r.word_index == self.word_index + prefix@.len(),
            r.line@ == join_words(r.words.deep_view()),
            r.cursor_index == word_end_cursor(r.words.deep_view(), r.word_index as int),
            r.completion_type == self.completion_type,
            r.key == self.key,
    {
        let ghost prefix_dv = prefix.deep_view();
        let ghost self_dv = self.words.deep_view();
        let prefix_len = prefix.len();
        let mut words = prefix;
        let mut i: usize = 0;
        while i < self.words.len()
            invariant
                0 <= i <= self.words@.len(),
                words@.len() == prefix_dv.len() + i,
                self_dv.len() == self.words@.len(),
                self_dv == self.words.deep_view(),
                forall|j: int|
                    0 <= j < words@.len() ==> #[trigger] words@[j]@ == (prefix_dv + self_dv.take(
                        i as int,
                    ))[j],
            decreases self.words.len() - i,
        {
            words.push(self.words[i].clone());
            i = i + 1;
        }
        proof {
            assert forall|j: int| 0 <= j < words.deep_view().len() implies #[trigger] words.deep_view()[j]
                == (prefix_dv + self_dv)[j] by {
                assert(words@[j]@ == (prefix_dv + self_dv.take(self_dv.len() as int))[j]);
                assert(self_dv.take(self_dv.len() as int) =~= self_dv);
            }
            assert(words.deep_view() =~= prefix_dv + self_dv);
        }
        let word_index = self.word_index + prefix_len;
        let line = join_upto(&words, words.len());
        proof {
            assert(words.deep_view().take(words@.len() as int) =~= words.deep_view());
        }
        let upto = if word_index < words.len() {
            word_index + 1
        } else {
            words.len()
        };
        let partial = join_upto(&words, upto);
        let cursor_index = partial.unicode_len();
        proof {
            if word_index >= words@.len() {
                assert(words.deep_view().take(words@.len() as int) =~= words.deep_view());
            }
        }
        Completion {
            words,
            word_index,
            line,
            cursor_index,
            completion_type: self.completion_type,
            key: self.key,
        }
    }
}

/// What the mode dispatcher decided for this invocation.
#[derive(Debug)]
pub enum InitOutcome {
    /// The mode switch is unset, empty or `0`: the completion machinery is
    /// inactive and the program proceeds as normal.
    Inactive,
    /// The mode switch is `1`: the argument tail decoded into a request.
    Request(Completion),
    /// The mode switch names a shell: the caller should print that shell's
    /// installer script and exit successfully.
    Script(ShellKind),
}

/// Everything the mode dispatcher promises, as a relation between the mode
/// switch `mode`, the argument tail `a` and the outcome `r`.
pub open spec fn init_post(
    mode: Option<Seq<char>>,
    a: Seq<Seq<char>>,
    r: Result<InitOutcome, CompletersError>,
) -> bool {
    match mode {
        None => r matches Ok(InitOutcome::Inactive),
        Some(m) => {
            if m == ""@ || m == "0"@ {
                r matches Ok(InitOutcome::Inactive)
            } else if m == "1"@ {
                match r {
                    Ok(InitOutcome::Request(c)) => decode_post(a, Ok(c)),
                    Err(e) => decode_post(a, Err(e)),
                    _ => false,
                }
            } else if m == "bash"@ {
                r matches Ok(InitOutcome::Script(ShellKind::Bash))
            } else if m == "nu"@ || m == "nushell"@ {
                r matches Ok(InitOutcome::Script(ShellKind::Nu))
            } else {
                r matches Err(CompletersError::UnrecognizedEnvVar(v)) && v@ == m
            }
        },
    }
}

impl Completion {
    /// The mode dispatcher: reads nothing itself, but decides from the
    /// value of the mode switch (the `COMPLETE` environment variable, or
    /// nothing when it is unset) and the process's argument tail what this
    /// invocation is, exactly as [`init_post`] says. The caller performs
    /// the outcome: proceed, answer the request, or print a script and
    /// exit.
    pub fn init(mode: Option<String>, args: Vec<String>) -> (r: Result<
        InitOutcome,
        CompletersError,
    >)
        ensures
            init_post(mode.deep_view(), args.deep_view(), r),
    {
        let m: String = match mode {
            None => {
                return Ok(InitOutcome::Inactive);
            },
            Some(m) => m,
        };
        if str_eq(m.as_str(), "") || str_eq(m.as_str(), "0") {
            Ok(InitOutcome::Inactive)
        } else if str_eq(m.as_str(), "1") {
            match Completion::from_args(args) {
                Ok(c) => Ok(InitOutcome::Request(c)),
                Err(e) => Err(e),
            }
        } else if str_eq(m.as_str(), "bash") {
            Ok(InitOutcome::Script(ShellKind::Bash))
        } else if str_eq(m.as_str(), "nu") || str_eq(m.as_str(), "nushell") {
            Ok(InitOutcome::Script(ShellKind::Nu))
        } else {
            Err(CompletersError::UnrecognizedEnvVar(m))
        }
    }
}

/// What one probe invocation answers: either candidate suggestions, or the
/// signal that another program should take the request over.
#[derive(Debug)]
pub enum Response {
    /// Zero or more completion suggestions, shown by the shell in the
    /// given order.
    Candidates(Vec<String>),
    /// Forward the (possibly rewritten) request to another program.
    Delegate(Completion),
}

/// The lines a delegated request is written as: a distinguishing marker,
/// then each positional field in decoder order — word index, line, cursor
/// index, completion-type code, key code — then each word.
pub open spec fn delegate_lines(c: Completion) -> Seq<Seq<char>> {
    seq![
        "COMPLETERS_DELEGATE"@,
        dec_digits(c.word_index as int),
        c.line@,
        dec_digits(c.cursor_index as int),
        dec_digits(code_of(c.completion_type) as int),
        dec_digits(c.key as u32 as int),
    ] + c.words.deep_view()
}

impl Response {
    /// Renders this response as the lines to print to standard output, in
    /// order: candidates stand one per line (an empty list renders as no
    /// lines at all); a delegated request is written as [`delegate_lines`]
    /// says, so an outer process can re-decode the stream.
    pub fn render(&self) -> (lines: Vec<String>)
        ensures
            match self {
                Response::Candidates(cs) => lines.deep_view() == cs.deep_view(),
                Response::Delegate(c) => lines.deep_view() == delegate_lines(*c),
            },
    {
        match self {
            Response::Candidates(cs) => {
                let mut lines: Vec<String> = Vec::new();
                let mut i: usize = 0;
                while i < cs.len()
                    invariant
                        0 <= i <= cs.len(),
                        lines@.len() == i,
                        forall|j: int| 0 <= j < i ==> #[trigger] lines@[j]@ == cs@[j]@,
                    decreases cs.len() - i,
                {
                    lines.push(cs[i].clone());
                    i = i + 1;
                }
                proof {
                    assert forall|j: int| 0 <= j < lines.deep_view().len() implies #[trigger] lines.deep_view()[j] == cs.deep_view()[j] by {
                        assert(lines@[j]@ == cs@[j]@);
                    }
                    assert(lines.deep_view() =~= cs.deep_view());
                }
                lines
            },
            Response::Delegate(c) => {
                let mut lines: Vec<String> = Vec::new();
                lines.push(String::from_str("COMPLETERS_DELEGATE"));
                lines.push(usize_to_string(c.word_index));
                lines.push(c.line.clone());
                lines.push(usize_to_string(c.cursor_index));
                lines.push(u8_to_string(c.completion_type.as_code()));
                lines.push(usize_to_string(char_code(c.key)));
                let mut i: usize = 0;
                while i < c.words.len()
                    invariant
                        0 <= i <= c.words.len(),
                        lines@.len() == 6 + i,
                        forall|j: int| 0 <= j < 6 + i ==> #[trigger] lines@[j]@ == delegate_lines(*c)[j],
                        delegate_lines(*c).len() == 6 + c.words@.len(),
                    decreases c.words.len() - i,
                {
                    lines.push(c.words[i].clone());
                    i = i + 1;
                }
                proof {
                    assert forall|j: int| 0 <= j < lines.deep_view().len() implies #[trigger] lines.deep_view()[j] == delegate_lines(*c)[j] by {
                        assert(lines@[j]@ == delegate_lines(*c)[j]);
                    }
                    assert(lines.deep_view() =~= delegate_lines(*c));
                }
                lines
            },
        }
    }
}

/// The wire contract between the response encoder and the request
/// decoder: decoding the rendered lines of a delegated request, after the
/// marker, yields a request that agrees with the original field for
/// field. Asked of keys in the single-byte wire range — the only keys the
/// decoder itself ever produces.
pub proof fn lemma_delegate_roundtrip(c: Completion, r: Result<Completion, CompletersError>)
    requires
        c.key as u32 <= 255,
        decode_post(delegate_lines(c).skip(1), r),
    ensures
        r matches Ok(c2) && c2.words.deep_view() == c.words.deep_view() && c2.word_index
            == c.word_index && c2.line@ == c.line@ && c2.cursor_index == c.cursor_index
            && c2.completion_type == c.completion_type && c2.key == c.key,
{
    let a = delegate_lines(c).skip(1);
    let words_dv = c.words.deep_view();
    assert(a.len() == 5 + words_dv.len());
    assert(a[0] == dec_digits(c.word_index as int));
    assert(a[1] == c.line@);
    assert(a[2] == dec_digits(c.cursor_index as int));
    assert(a[3] == dec_digits(code_of(c.completion_type) as int));
    assert(a[4] == dec_digits(c.key as u32 as int));
    crate::numbers::lemma_parse_dec_digits(c.word_index as int, usize::MAX as int);
    crate::numbers::lemma_parse_dec_digits(c.cursor_index as int, usize::MAX as int);
    crate::numbers::lemma_parse_dec_digits(code_of(c.completion_type) as int, 255);
    crate::numbers::lemma_parse_dec_digits(c.key as u32 as int, 255);
    crate::types::lemma_completion_type_roundtrip();
    assert(a.skip(5) =~= words_dv);
}
fn char_code(key: char) -> (n: usize)
    ensures
        n == key as u32 as int,
{
    key as u32 as usize
}

} // verus!

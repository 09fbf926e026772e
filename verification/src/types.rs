//! The closed set of completion kinds a shell can ask for, and the
//! single-byte wire codes that stand for them.

use vstd::prelude::*;

verus! {

/// The kind of completion the shell attempted.
///
/// Each variant corresponds to a fixed ASCII byte on the wire: tab for
/// [`Normal`](CompletionType::Normal), `?` for [`List`](CompletionType::List),
/// `!` for [`ListAlternatives`](CompletionType::ListAlternatives), `@` for
/// [`ListUnmodified`](CompletionType::ListUnmodified) and `%` for
/// [`Menu`](CompletionType::Menu).
#[derive(Debug, Clone, Copy, PartialEq, Eq, Structural)]
pub enum CompletionType {
    /// Normal completion.
    Normal,
    /// Listing completions after successive tabs.
    List,
    /// Listing alternatives on partial word completion.
    ListAlternatives,
    /// Listing completions if the word is unmodified.
    ListUnmodified,
    /// Menu completion.
    Menu,
}

/// The wire code of a completion type: tab, `?`, `!`, `@` or `%`.
pub open spec fn code_of(t: CompletionType) -> u8 {
    match t {
        CompletionType::Normal => 9,
        CompletionType::List => 63,
        CompletionType::ListAlternatives => 33,
        CompletionType::ListUnmodified => 64,
        CompletionType::Menu => 37,
    }
}

/// The completion type a wire code stands for, if any.
pub open spec fn type_of_code(code: u8) -> Option<CompletionType> {
    if code == 9 {
        Some(CompletionType::Normal)
    } else if code == 63 {
        Some(CompletionType::List)
    } else if code == 33 {
        Some(CompletionType::ListAlternatives)
    } else if code == 64 {
        Some(CompletionType::ListUnmodified)
    } else if code == 37 {
        Some(CompletionType::Menu)
    } else {
        None
    }
}

impl CompletionType {
    /// The single-byte wire code of this completion type.
    pub fn as_code(self) -> (code: u8)
        ensures
            code == code_of(self),
    {
        match self {
            CompletionType::Normal => 9,
            CompletionType::List => 63,
            CompletionType::ListAlternatives => 33,
            CompletionType::ListUnmodified => 64,
            CompletionType::Menu => 37,
        }
    }

    /// The wire code of this completion type, as a character.
    pub fn as_char(self) -> (c: char)
        ensures
            c == code_of(self) as char,
    {
        self.as_code() as char
    }

    /// Decodes a wire code back into a completion type; any byte outside
    /// the five recognized codes is rejected.
    pub fn from_code(code: u8) -> (t: Option<CompletionType>)
        ensures
            t == type_of_code(code),
    {
        if code == 9 {
            Some(CompletionType::Normal)
        } else if code == 63 {
            Some(CompletionType::List)
        } else if code == 33 {
            Some(CompletionType::ListAlternatives)
        } else if code == 64 {
            Some(CompletionType::ListUnmodified)
        } else if code == 37 {
            Some(CompletionType::Menu)
        } else {
            None
        }
    }
}

/// Encoding a completion type to its wire code and decoding it back yields
/// the original variant; decoding succeeds exactly on the five recognized
/// codes, and on those the decoded variant encodes back to the same code.
pub proof fn lemma_completion_type_roundtrip()
    ensures
        forall|t: CompletionType| type_of_code(code_of(t)) == Some(t),
        forall|code: u8|
            #[trigger] type_of_code(code) matches Some(t) ==> code_of(t) == code,
        forall|code: u8|
            !(code == 9 || code == 63 || code == 33 || code == 64 || code == 37)
                ==> #[trigger] type_of_code(code) is None,
{
}

} // verus!

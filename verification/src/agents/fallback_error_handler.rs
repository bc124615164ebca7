//! Classification of provider errors: which ones warrant falling back to the agent CLI.
use vstd::prelude::*;

use crate::text::{chars_of, contains, contains_exec};

verus! {

broadcast use vstd::string::group_string_axioms;

/// Error-message fragments that mark a transient provider failure.
pub const FALLBACK_ERROR_PATTERNS: [&'static str; 7] = [
    "429",
    "500",
    "502",
    "503",
    "ECONNREFUSED",
    "ETIMEDOUT",
    "fetch failed",
];

/// `message` contains one of the fallback patterns.
pub open spec fn is_fallback_message(message: Seq<char>) -> bool {
    exists|i: int| 0 <= i < 7 && contains(message, #[trigger] FALLBACK_ERROR_PATTERNS@[i]@)
}

/// A transient provider failure is one whose message mentions HTTP status 429, 500, 502 or
/// 503, a refused connection (`ECONNREFUSED`), a timeout (`ETIMEDOUT`) or `fetch failed`;
/// a message without any of these is not one.
pub proof fn law_fallback_messages(message: Seq<char>)
    ensures
        is_fallback_message(message) == (contains(message, "429"@) || contains(message, "500"@) || contains(
            message,
            "502"@,
        ) || contains(message, "503"@) || contains(message, "ECONNREFUSED"@) || contains(message, "ETIMEDOUT"@)
            || contains(message, "fetch failed"@)),
{
    let pats = FALLBACK_ERROR_PATTERNS@;
    assert(pats[0]@ == "429"@ && pats[1]@ == "500"@ && pats[2]@ == "502"@ && pats[3]@ == "503"@);
    assert(pats[4]@ == "ECONNREFUSED"@ && pats[5]@ == "ETIMEDOUT"@ && pats[6]@ == "fetch failed"@);
    if contains(message, "429"@) || contains(message, "500"@) || contains(message, "502"@) || contains(
        message,
        "503"@,
    ) || contains(message, "ECONNREFUSED"@) || contains(message, "ETIMEDOUT"@) || contains(message, "fetch failed"@) {
        if contains(message, "429"@) {
            assert(contains(message, pats[0]@));
        } else if contains(message, "500"@) {
            assert(contains(message, pats[1]@));
        } else if contains(message, "502"@) {
            assert(contains(message, pats[2]@));
        } else if contains(message, "503"@) {
            assert(contains(message, pats[3]@));
        } else if contains(message, "ECONNREFUSED"@) {
            assert(contains(message, pats[4]@));
        } else if contains(message, "ETIMEDOUT"@) {
            assert(contains(message, pats[5]@));
        } else {
            assert(contains(message, pats[6]@));
        }
    }
}

#[derive(Debug, Clone, Default, PartialEq, Eq)]
pub struct ErrorInfo {
    pub name: Option<String>,
    pub message: Option<String>,
}

impl ErrorInfo {
    pub fn message(message: impl Into<String>) -> (r: Self)
        ensures
            r.name is None,
            r.message is Some,
    {
        Self { name: None, message: Some(message.into()) }
    }

    pub fn named(name: impl Into<String>, message: impl Into<String>) -> (r: Self)
        ensures
            r.name is Some,
            r.message is Some,
    {
        Self { name: Some(name.into()), message: Some(message.into()) }
    }
}

/// Whether the displayed form of `error` marks a transient provider failure.
pub fn should_fallback_to_claude(error: impl std::fmt::Display) -> (r: bool)
    ensures
        exists|s: String|
            vstd::string::to_string_from_display_ensures(&error, s) && r == is_fallback_message(
                s@,
            ),
{
    let s = error.to_string();
    should_fallback_to_claude_message(s.as_str())
}

/// Whether a structured error's message marks a transient provider failure; an absent error
/// or message does not.
pub fn should_fallback_to_claude_info(error: Option<&ErrorInfo>) -> (r: bool)
    ensures
        r == match error {
            None => false,
            Some(e) => match e.message {
                Some(m) => is_fallback_message(m@),
                None => is_fallback_message(Seq::empty()),
            },
        },
{
    let Some(error) = error else {
        return false;
    };
    match &error.message {
        Some(m) => should_fallback_to_claude_message(m.as_str()),
        None => {
            proof {
                reveal_strlit("");
            }
            assert(""@ =~= Seq::<char>::empty());
            should_fallback_to_claude_message("")
        },
    }
}

/// Whether `message` contains one of `FALLBACK_ERROR_PATTERNS`.
pub fn should_fallback_to_claude_message(message: &str) -> (r: bool)
    ensures
        r == is_fallback_message(message@),
{
    let m = chars_of(message);
    let mut i: usize = 0;
    while i < 7
        invariant
            i <= 7,
            m@ == message@,
            forall|j: int| 0 <= j < i ==> !contains(message@, #[trigger] FALLBACK_ERROR_PATTERNS@[j]@),
        decreases 7 - i,
    {
        let p = chars_of(FALLBACK_ERROR_PATTERNS[i]);
        if contains_exec(m.as_slice(), p.as_slice()) {
            return true;
        }
        i = i + 1;
    }
    false
}

/// Whether a structured error is named `AbortError`.
pub fn is_abort_error_info(error: Option<&ErrorInfo>) -> (r: bool)
    ensures
        r == match error {
            Some(e) => match e.name {
                Some(n) => n@ == "AbortError"@,
                None => false,
            },
            None => false,
        },
{
    match error {
        Some(e) => match &e.name {
            Some(n) => is_abort_error_name(n.as_str()),
            None => false,
        },
        None => false,
    }
}

pub fn is_abort_error_name(name: &str) -> (r: bool)
    ensures
        r == (name@ == "AbortError"@),
{
    let n = chars_of(name);
    crate::text::chars_eq_str(n.as_slice(), "AbortError")
}

} // verus!

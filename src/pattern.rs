//! Compiling a pattern text into a [`PatternState`], and matching with it.
//!
//! Compilation and matching are done by the `regex` crate; the functions
//! below name what it decides and state what the library builds on top.

use regex::Regex;
use vstd::prelude::*;

verus! {

#[verifier::external_type_specification]
#[verifier::external_body]
pub struct ExRegex(Regex);

/// Whether `regex::Regex::new` accepts `pattern`. With the default builder
/// settings this depends on the pattern text alone.
pub uninterp spec fn compiles(pattern: Seq<char>) -> bool;

/// Whether a regex built by `regex::Regex::new` from `pattern` finds a match
/// anywhere in `haystack`.
pub uninterp spec fn finds(pattern: Seq<char>, haystack: Seq<char>) -> bool;

/// The pattern text that a compiled regex was built from.
pub uninterp spec fn source_of(re: Regex) -> Seq<char>;

/// The diagnostic that `regex::Regex::new` writes for a pattern it rejects.
pub uninterp spec fn diagnostic_of(pattern: Seq<char>) -> Seq<char>;

/// Relies on `regex::Regex::new`: it succeeds exactly on the patterns that
/// compile, and the regex it returns keeps the text it was built from (what
/// `Regex::as_str` returns). On failure the error is turned into its
/// `Display` text, which for the errors `Regex::new` returns is never empty.
#[verifier::external_body]
fn compile_regex(text: &str) -> (r: Result<Regex, String>)
    ensures
        r is Ok <==> compiles(text@),
        r matches Ok(re) ==> source_of(re) == text@,
        r matches Err(m) ==> m@ == diagnostic_of(text@) && m@.len() > 0,
{
    match Regex::new(text) {
        Ok(re) => Ok(re),
        Err(e) => Err(e.to_string()),
    }
}

/// A regex compiled by [`compile_pattern`] with the default settings.
#[derive(Debug)]
pub struct CompiledRegex {
    re: Regex,
}

impl CompiledRegex {
    /// The pattern text this regex was compiled from.
    pub closed spec fn source(&self) -> Seq<char> {
        source_of(self.re)
    }
}

/// Relies on `regex::Regex::is_match`: true if and only if the regex matches
/// somewhere in `haystack`. Every `CompiledRegex` comes from `Regex::new`, so
/// the result is a function of its source text and the haystack.
#[verifier::external_body]
fn regex_is_match(c: &CompiledRegex, haystack: &str) -> (r: bool)
    ensures
        r == finds(c.source(), haystack@),
{
    c.re.is_match(haystack)
}

/// What is known of a pattern text: nothing entered, a compiled regex, or
/// the text that failed together with the engine's diagnostic.
#[derive(Debug)]
pub enum PatternState {
    Empty,
    Valid(CompiledRegex),
    Invalid(String, String),
}

/// `state` is the one that `pattern` yields: `Empty` exactly for the empty
/// text, `Valid` exactly for a non-empty text that compiles (holding a regex
/// built from it), and `Invalid` otherwise, carrying the text and the
/// engine's diagnostic for it, which is never empty.
pub open spec fn state_of_text(state: PatternState, pattern: Seq<char>) -> bool {
    match state {
        PatternState::Empty => pattern.len() == 0,
        PatternState::Valid(re) => pattern.len() > 0 && compiles(pattern) && re.source() == pattern,
        PatternState::Invalid(text, message) => pattern.len() > 0 && !compiles(pattern) && text@
            == pattern && message@ == diagnostic_of(pattern) && message@.len() > 0,
    }
}

/// Whether `haystack` counts as matched under `state`: only a valid pattern
/// matches anything.
pub open spec fn verdict(state: PatternState, haystack: Seq<char>) -> bool {
    match state {
        PatternState::Valid(re) => finds(re.source(), haystack),
        _ => false,
    }
}

/// Each string of `tests` with its verdict under `state`, in order.
pub open spec fn evaluation_of(state: PatternState, tests: Seq<Seq<char>>) -> Seq<(Seq<char>, bool)> {
    tests.map_values(|s: Seq<char>| (s, verdict(state, s)))
}

/// Compiles `text` into the state it stands for. An empty text is `Empty`
/// and is never handed to the regex engine.
pub fn compile_pattern(text: &str) -> (r: PatternState)
    ensures
        state_of_text(r, text@),
{
    if text.is_empty() {
        PatternState::Empty
    } else {
        match compile_regex(text) {
            Ok(re) => PatternState::Valid(CompiledRegex { re }),
            Err(message) => PatternState::Invalid(text.to_owned(), message),
        }
    }
}

/// Whether `haystack` counts as matched under `state`.
pub fn state_matches(state: &PatternState, haystack: &str) -> (r: bool)
    ensures
        r == verdict(*state, haystack@),
{
    match state {
        PatternState::Valid(re) => regex_is_match(re, haystack),
        _ => false,
    }
}

/// The state a pattern text yields is `Empty` exactly when the text is empty.
pub proof fn law_empty_iff_blank(state: PatternState, pattern: Seq<char>)
    requires
        state_of_text(state, pattern),
    ensures
        (state is Empty) <==> pattern.len() == 0,
{
}

/// A non-empty pattern text that does not compile yields `Invalid`, holding
/// that text and the engine's diagnostic for it, which is not empty.
pub proof fn law_rejected_text_is_invalid(state: PatternState, pattern: Seq<char>)
    requires
        state_of_text(state, pattern),
        pattern.len() > 0,
        !compiles(pattern),
    ensures
        state matches PatternState::Invalid(text, message) && text@ == pattern && message@
            == diagnostic_of(pattern) && message@.len() > 0,
{
}

/// A non-empty pattern text that compiles yields `Valid`, and under it each
/// test string's verdict is whether that pattern finds a match in it.
pub proof fn law_compiled_text_decides(
    state: PatternState,
    pattern: Seq<char>,
    tests: Seq<Seq<char>>,
)
    requires
        state_of_text(state, pattern),
        pattern.len() > 0,
        compiles(pattern),
    ensures
        state is Valid,
        evaluation_of(state, tests).len() == tests.len(),
        forall|i: int|
            0 <= i < tests.len() ==> (#[trigger] evaluation_of(state, tests)[i]) == (
                tests[i],
                finds(pattern, tests[i]),
            ),
{
}

/// Evaluation depends on the pattern text and the test strings alone: any two
/// states yielded by one text (the same state read twice among them) give the
/// same results.
pub proof fn law_evaluation_determined(
    a: PatternState,
    b: PatternState,
    pattern: Seq<char>,
    tests: Seq<Seq<char>>,
)
    requires
        state_of_text(a, pattern),
        state_of_text(b, pattern),
    ensures
        evaluation_of(a, tests) == evaluation_of(b, tests),
{
    assert(evaluation_of(a, tests) =~= evaluation_of(b, tests));
}

/// Under an `Invalid` state no test string is matched.
pub proof fn law_invalid_matches_nothing(state: PatternState, tests: Seq<Seq<char>>)
    requires
        state is Invalid,
    ensures
        forall|i: int| 0 <= i < tests.len() ==> !(#[trigger] evaluation_of(state, tests)[i]).1,
{
}

} // verus!

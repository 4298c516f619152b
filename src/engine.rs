//! The validation engine: the current pattern text, its compiled state, and
//! the ordered list of test strings.

use crate::pattern::{
    compile_pattern, evaluation_of, state_matches, state_of_text, verdict, PatternState,
};
use vstd::prelude::*;

verus! {

/// The views of a list of strings.
pub open spec fn views_of(v: Seq<String>) -> Seq<Seq<char>> {
    v.map_values(|s: String| s@)
}

/// Owns the pattern text, the state compiled from it, and the test strings.
/// The state is always the one that the current text yields.
pub struct ValidationEngine {
    pattern: String,
    state: PatternState,
    test_strings: Vec<String>,
}

impl ValidationEngine {
    #[verifier::type_invariant]
    spec fn state_follows_pattern(&self) -> bool {
        state_of_text(self.state, self.pattern@)
    }

    /// The current pattern text.
    pub closed spec fn pattern_text(&self) -> Seq<char> {
        self.pattern@
    }

    /// The state compiled from the current pattern text.
    pub closed spec fn current_state(&self) -> PatternState {
        self.state
    }

    /// The test strings, in order.
    pub closed spec fn tests(&self) -> Seq<Seq<char>> {
        views_of(self.test_strings@)
    }

    /// Each test string with its verdict under the current state, in order.
    pub open spec fn evaluation(&self) -> Seq<(Seq<char>, bool)> {
        evaluation_of(self.current_state(), self.tests())
    }

    /// An engine with no pattern and no test strings.
    pub fn new() -> (r: ValidationEngine)
        ensures
            r.pattern_text().len() == 0,
            r.current_state() is Empty,
            state_of_text(r.current_state(), r.pattern_text()),
            r.tests().len() == 0,
    {
        ValidationEngine { pattern: String::new(), state: PatternState::Empty, test_strings: Vec::new() }
    }

    /// Replaces the pattern text and recompiles it; the test strings stay.
    pub fn set_pattern(&mut self, text: &str)
        ensures
            final(self).pattern_text() == text@,
            state_of_text(final(self).current_state(), text@),
            final(self).tests() == old(self).tests(),
    {
        proof {
            use_type_invariant(&*self);
        }
        let state = compile_pattern(text);
        let mut fresh = ValidationEngine { pattern: text.to_owned(), state, test_strings: Vec::new() };
        std::mem::swap(&mut fresh.test_strings, &mut self.test_strings);
        *self = fresh;
    }

    /// Applies a preset's pattern text: the same as typing it.
    pub fn apply_preset(&mut self, pattern: &str)
        ensures
            final(self).pattern_text() == pattern@,
            state_of_text(final(self).current_state(), pattern@),
            final(self).tests() == old(self).tests(),
    {
        self.set_pattern(pattern);
    }

    /// Appends `s` to the test strings, unless it is empty.
    pub fn add_test_string(&mut self, s: &str)
        ensures
            final(self).pattern_text() == old(self).pattern_text(),
            final(self).current_state() == old(self).current_state(),
            s@.len() == 0 ==> final(self).tests() == old(self).tests(),
            s@.len() > 0 ==> final(self).tests() == old(self).tests().push(s@),
    {
        proof {
            use_type_invariant(&*self);
        }
        if !s.is_empty() {
            let mut list: Vec<String> = Vec::new();
            std::mem::swap(&mut list, &mut self.test_strings);
            list.push(s.to_owned());
            std::mem::swap(&mut list, &mut self.test_strings);
            proof {
                assert(views_of(self.test_strings@) =~= views_of(old(self).test_strings@).push(s@));
            }
        }
    }

    /// Removes the test string at `index`; an index past the end changes
    /// nothing.
    pub fn remove_test_string(&mut self, index: usize)
        ensures
            final(self).pattern_text() == old(self).pattern_text(),
            final(self).current_state() == old(self).current_state(),
            index < old(self).tests().len() ==> final(self).tests() == old(self).tests().remove(
                index as int,
            ),
            index >= old(self).tests().len() ==> final(self).tests() == old(self).tests(),
    {
        proof {
            use_type_invariant(&*self);
        }
        if index < self.test_strings.len() {
            let mut list: Vec<String> = Vec::new();
            std::mem::swap(&mut list, &mut self.test_strings);
            list.remove(index);
            std::mem::swap(&mut list, &mut self.test_strings);
            proof {
                assert(views_of(self.test_strings@) =~= views_of(old(self).test_strings@).remove(
                    index as int,
                ));
            }
        }
    }

    /// Whether `haystack` counts as matched under the current state.
    pub fn is_match(&self, haystack: &str) -> (r: bool)
        ensures
            r == verdict(self.current_state(), haystack@),
    {
        state_matches(&self.state, haystack)
    }

    /// Each string of `strings` with its verdict under the current state, in
    /// order. It reads the engine and changes nothing.
    pub fn evaluate_strings(&self, strings: &Vec<String>) -> (r: Vec<(String, bool)>)
        ensures
            r@.len() == strings@.len(),
            forall|i: int| 0 <= i < r@.len() ==> ((#[trigger] r@[i]).0@, r@[i].1) == evaluation_of(
                self.current_state(),
                views_of(strings@),
            )[i],
    {
        let mut out: Vec<(String, bool)> = Vec::new();
        let mut i: usize = 0;
        while i < strings.len()
            invariant
                i <= strings@.len(),
                out@.len() == i,
                forall|j: int| 0 <= j < i ==> (#[trigger] out@[j]).0@ == strings@[j]@ && out@[j].1
                    == verdict(self.state, strings@[j]@),
            decreases strings@.len() - i,
        {
            let s = &strings[i];
            let matched = state_matches(&self.state, s.as_str());
            out.push((s.clone(), matched));
            i = i + 1;
        }
        out
    }

    /// Each test string with its verdict under the current state, in order.
    /// It reads the engine and changes nothing.
    pub fn evaluate(&self) -> (r: Vec<(String, bool)>)
        ensures
            r@.len() == self.evaluation().len(),
            forall|i: int| 0 <= i < r@.len() ==> ((#[trigger] r@[i]).0@, r@[i].1) == self.evaluation()[i],
    {
        self.evaluate_strings(&self.test_strings)
    }

    /// The state compiled from the current pattern text.
    pub fn state(&self) -> (r: &PatternState)
        ensures
            *r == self.current_state(),
            state_of_text(*r, self.pattern_text()),
    {
        proof {
            use_type_invariant(self);
        }
        &self.state
    }

    /// The current pattern text.
    pub fn pattern(&self) -> (r: &str)
        ensures
            r@ == self.pattern_text(),
    {
        self.pattern.as_str()
    }

    /// The test strings, in order.
    pub fn test_strings(&self) -> (r: &Vec<String>)
        ensures
            views_of(r@) == self.tests(),
    {
        &self.test_strings
    }
}

impl Default for ValidationEngine {
    /// The same as [`ValidationEngine::new`].
    fn default() -> (r: ValidationEngine)
        ensures
            r.pattern_text().len() == 0,
            r.current_state() is Empty,
            r.tests().len() == 0,
    {
        ValidationEngine::new()
    }
}

} // verus!

//! Parsing a selector text and matching it against an element.
//!
//! The selector grammar and the matching of one selector against one element
//! are the work of others. What is decided here is the verdict on a text, and
//! the course of a match request: the selectors of a list are tested in
//! order, the first that matches ends the request, and a list without a match
//! is no error.

use vstd::prelude::*;
use vstd::string::*;
use crate::results::{accepted, rejected, ParseResult, ParseResultView, SelectorMatchResult, SelectorMatchResultView};

verus! {

/// The verdict on a selector text, given what the selector grammar made of
/// it.
pub open spec fn selector_verdict(parsed: Result<usize, String>) -> ParseResultView {
    match parsed {
        Ok(_) => accepted(),
        Err(diagnostic) => rejected("Failed to parse selector: "@, diagnostic@),
    }
}

/// Gives the verdict on a selector text from what the selector grammar made
/// of it: `Ok` with the number of selectors in the list, `Err` with its
/// diagnostic.
///
/// The verdict depends on nothing else, so one outcome never gives two
/// verdicts.
pub fn parse_selector(parsed: Result<usize, String>) -> (r: ParseResult)
    ensures
        r@ == selector_verdict(parsed),
        r.success <==> parsed is Ok,
{
    match parsed {
        Ok(_) => ParseResult::accepted(),
        Err(diagnostic) => ParseResult::rejected("Failed to parse selector: ", diagnostic.as_str()),
    }
}

/// Where a match request stands.
pub enum MatchState {
    /// The selector at `next` is to be tested against the element; the list
    /// holds `count` selectors.
    Test { next: usize, count: usize },
    /// The request is answered.
    Finished(SelectorMatchResult),
}

/// A `MatchState` with its message as a sequence of characters.
pub enum MatchStateView {
    Test { next: usize, count: usize },
    Finished(SelectorMatchResultView),
}

impl View for MatchState {
    type V = MatchStateView;

    open spec fn view(&self) -> MatchStateView {
        match self {
            MatchState::Test { next, count } => MatchStateView::Test { next: *next, count: *count },
            MatchState::Finished(result) => MatchStateView::Finished(result@),
        }
    }
}

/// The answer of a request in which a selector matched, or none did.
pub open spec fn answered(matches: bool) -> MatchStateView {
    MatchStateView::Finished(
        SelectorMatchResultView { matches: matches, error_message: Seq::empty() },
    )
}

/// The state in which a request starts.
pub open spec fn started(parsed: Result<usize, String>) -> MatchStateView {
    match parsed {
        Err(diagnostic) => MatchStateView::Finished(
            SelectorMatchResultView {
                matches: false,
                error_message: "Failed to parse selector: "@ + diagnostic@,
            },
        ),
        Ok(count) => if count == 0 {
            answered(false)
        } else {
            MatchStateView::Test { next: 0, count: count }
        },
    }
}

/// The state after the selector at `next` was tested.
pub open spec fn advanced(state: MatchStateView, matched: bool) -> MatchStateView {
    match state {
        MatchStateView::Finished(_) => state,
        MatchStateView::Test { next, count } => if matched {
            answered(true)
        } else if next + 1 < count {
            MatchStateView::Test { next: (next + 1) as usize, count: count }
        } else {
            answered(false)
        },
    }
}

/// How many selectors are still to be tested at most.
pub open spec fn remaining(state: MatchStateView) -> nat {
    match state {
        MatchStateView::Finished(_) => 0,
        MatchStateView::Test { next, count } => if next < count {
            (count - next) as nat
        } else {
            1
        },
    }
}

/// The answer that a request comes to from a state, where `outcomes` tells
/// for each selector of the list whether it matches the element.
pub open spec fn conclusion(state: MatchStateView, outcomes: Seq<bool>) -> SelectorMatchResultView
    decreases remaining(state),
{
    match state {
        MatchStateView::Finished(result) => result,
        MatchStateView::Test { next, count } => conclusion(
            advanced(state, outcomes[next as int]),
            outcomes,
        ),
    }
}

/// How many selectors are tested from a state on until the request is
/// answered.
pub open spec fn tests_made(state: MatchStateView, outcomes: Seq<bool>) -> nat
    decreases remaining(state),
{
    match state {
        MatchStateView::Finished(_) => 0,
        MatchStateView::Test { next, count } => 1 + tests_made(
            advanced(state, outcomes[next as int]),
            outcomes,
        ),
    }
}

impl MatchState {
    /// Takes the outcome of the test that this state asked for: whether the
    /// selector at `next` matches the element.
    ///
    /// A match answers the request. Without one the next selector is asked
    /// for, and after the last the request is answered with no match and no
    /// error. An answered request stays as it is.
    pub fn advance(self, matched: bool) -> (state: MatchState)
        ensures
            state@ == advanced(self@, matched),
            remaining(state@) < remaining(self@) || self is Finished,
    {
        match self {
            MatchState::Finished(result) => MatchState::Finished(result),
            MatchState::Test { next, count } => {
                if matched {
                    MatchState::Finished(
                        SelectorMatchResult { matches: true, error_message: String::new() },
                    )
                } else if count > 0 && next < count - 1 {
                    MatchState::Test { next: next + 1, count }
                } else {
                    MatchState::Finished(
                        SelectorMatchResult { matches: false, error_message: String::new() },
                    )
                }
            },
        }
    }
}

/// Starts a match request from what the selector grammar made of the text:
/// `Ok` with the number of selectors in the list, `Err` with its diagnostic.
///
/// A text that the grammar refused is answered at once, with no match and
/// the diagnostic. Else the first selector is asked for.
pub fn match_selector(parsed: Result<usize, String>) -> (state: MatchState)
    ensures
        state@ == started(parsed),
        state is Test <==> (parsed is Ok && parsed->Ok_0 > 0),
{
    match parsed {
        Err(diagnostic) => MatchState::Finished(
            SelectorMatchResult {
                matches: false,
                error_message: String::from_str("Failed to parse selector: ").concat(
                    diagnostic.as_str(),
                ),
            },
        ),
        Ok(count) => {
            if count == 0 {
                MatchState::Finished(
                    SelectorMatchResult { matches: false, error_message: String::new() },
                )
            } else {
                MatchState::Test { next: 0, count }
            }
        },
    }
}

/// From the selector at `next` on, a request matches exactly where one of
/// the selectors left does, and it tests no selector beyond the first that
/// matches.
proof fn lemma_conclusion_from(next: usize, count: usize, outcomes: Seq<bool>)
    requires
        next < count,
        outcomes.len() == count,
    ensures
        ({
            let state = MatchStateView::Test { next: next, count: count };
            let result = conclusion(state, outcomes);
            let tested = tests_made(state, outcomes);
            &&& result.error_message == Seq::<char>::empty()
            &&& result.matches <==> exists|i: int| next <= i < count && outcomes[i]
            &&& 1 <= tested <= count - next
            &&& forall|i: int| next <= i < next + tested - 1 ==> !outcomes[i]
            &&& result.matches ==> outcomes[next + tested - 1]
            &&& !result.matches ==> tested == count - next
        }),
    decreases count - next,
{
    let state = MatchStateView::Test { next: next, count: count };
    if !outcomes[next as int] && next + 1 < count {
        lemma_conclusion_from((next + 1) as usize, count, outcomes);
        let rest = MatchStateView::Test { next: (next + 1) as usize, count: count };
        assert(advanced(state, outcomes[next as int]) == rest);
        assert(conclusion(state, outcomes) == conclusion(rest, outcomes));
        assert(tests_made(state, outcomes) == 1 + tests_made(rest, outcomes));
    } else {
        let end = advanced(state, outcomes[next as int]);
        assert(end == answered(outcomes[next as int]));
        assert(conclusion(state, outcomes) == conclusion(end, outcomes));
        assert(tests_made(state, outcomes) == 1 + tests_made(end, outcomes));
    }
}

/// A selector list matches an element exactly where one of its selectors
/// does, and that is no error. The selectors are tested in order and none is
/// tested after the first that matches.
pub proof fn lemma_match_is_first_match(count: usize, outcomes: Seq<bool>)
    requires
        outcomes.len() == count,
    ensures
        ({
            let state = started(Ok(count));
            let result = conclusion(state, outcomes);
            let tested = tests_made(state, outcomes);
            &&& result.error_message == Seq::<char>::empty()
            &&& result.matches <==> exists|i: int| 0 <= i < count && outcomes[i]
            &&& tested <= count
            &&& forall|i: int| 0 <= i < tested - 1 ==> !outcomes[i]
            &&& result.matches ==> tested >= 1 && outcomes[tested - 1]
            &&& !result.matches ==> tested == count
        }),
{
    if count > 0 {
        lemma_conclusion_from(0, count, outcomes);
    }
}

/// A text that the selector grammar refused matches no element, whatever the
/// element, and no selector is tested for it.
pub proof fn lemma_refused_text_matches_nothing(diagnostic: String, outcomes: Seq<bool>)
    ensures
        !conclusion(started(Err(diagnostic)), outcomes).matches,
        conclusion(started(Err(diagnostic)), outcomes).error_message.len() > 0,
        tests_made(started(Err(diagnostic)), outcomes) == 0,
{
    reveal_strlit("Failed to parse selector: ");
}

/// The verdict on a selector text is settled by what the grammar made of it:
/// it is a success exactly where the grammar accepted the text, so two
/// readings that the grammar treats alike succeed or fail together, and one
/// outcome has one verdict.
pub proof fn lemma_selector_verdict_is_settled(
    first: Result<usize, String>,
    second: Result<usize, String>,
)
    requires
        first is Ok <==> second is Ok,
    ensures
        selector_verdict(first).success == selector_verdict(second).success,
        selector_verdict(first).success <==> first is Ok,
        first == second ==> selector_verdict(first) == selector_verdict(second),
{
}

/// An element that none of the selectors matches gets no match, whatever the
/// text was. This is the case of the element that is none, which answers no
/// to every requirement that a selector makes.
pub proof fn lemma_no_match_without_a_matching_selector(
    parsed: Result<usize, String>,
    outcomes: Seq<bool>,
)
    requires
        parsed matches Ok(count) ==> outcomes.len() == count,
        forall|i: int| 0 <= i < outcomes.len() ==> !outcomes[i],
    ensures
        !conclusion(started(parsed), outcomes).matches,
{
    match parsed {
        Ok(count) => {
            lemma_match_is_first_match(count, outcomes);
        },
        Err(diagnostic) => {},
    }
}

} // verus!

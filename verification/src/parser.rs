//! Turning the model's free text into a decision by looking for literal markers.

use crate::decision::{
    ActionView, AgentAction, AgentDecision, AgentFinish, DecisionView, FinishView, ParserError,
    Parameters,
};
use crate::text::{
    chars_of, find, first_occurrence, lemma_first_occurrence_total, occurs, slice_chars,
    trim_range, trimmed,
};
use vstd::prelude::*;
use vstd::string::*;

verus! {

/// The texts of a list of strings.
pub open spec fn texts(list: Seq<String>) -> Seq<Seq<char>> {
    list.map_values(|s: String| s@)
}

/// `k` is the first marker of `finishes`, in list order, that occurs in `text`.
pub open spec fn is_first_finish(text: Seq<char>, finishes: Seq<Seq<char>>, k: int) -> bool {
    &&& 0 <= k < finishes.len()
    &&& occurs(text, finishes[k])
    &&& forall|j: int| 0 <= j < k ==> !occurs(text, #[trigger] finishes[j])
}

/// The index of the first marker of `finishes`, in list order, that occurs in `text`.
pub open spec fn first_finish(text: Seq<char>, finishes: Seq<Seq<char>>) -> Option<int> {
    if exists|k: int| is_first_finish(text, finishes, k) {
        Some(choose|k: int| is_first_finish(text, finishes, k))
    } else {
        None
    }
}

/// The first finish marker is unique.
pub proof fn lemma_first_finish_is(text: Seq<char>, finishes: Seq<Seq<char>>, k: int)
    requires
        is_first_finish(text, finishes, k),
    ensures
        first_finish(text, finishes) == Some(k),
{
    let c = choose|c: int| is_first_finish(text, finishes, c);
    if c < k {
        assert(!occurs(text, finishes[c]));
    } else if k < c {
        assert(!occurs(text, finishes[k]));
    }
}

/// The name under which a follow-up question is sent to a tool.
pub open spec fn followup_tool() -> Seq<char> {
    "Intermediate Answer"@
}

/// The key under which a final answer is returned.
pub open spec fn output_key() -> Seq<char> {
    "output"@
}

/// What the markers make of `text`.
///
/// A follow-up marker decides first: the question is what stands between
/// its end and the earliest intermediate-answer marker, trimmed, and the log
/// is the text before that second marker. Without a second marker at or
/// after the end of the first, the text is rejected. Without a follow-up
/// marker, the first finish marker of the list that occurs anywhere decides:
/// the answer is what follows its earliest occurrence, trimmed. Otherwise the
/// text is rejected. A rejection carries the text.
pub open spec fn parse_outcome(
    followup: Seq<char>,
    intermediate: Seq<char>,
    finishes: Seq<Seq<char>>,
    text: Seq<char>,
) -> Result<DecisionView, Seq<char>> {
    match first_occurrence(text, followup) {
        Some(f) => match first_occurrence(text, intermediate) {
            Some(a) => if f + followup.len() <= a {
                Ok(
                    DecisionView::Action(
                        ActionView {
                            tool: followup_tool(),
                            tool_input: trimmed(text.subrange(f + followup.len(), a)),
                            log: text.subrange(0, a),
                        },
                    ),
                )
            } else {
                Err(text)
            },
            None => Err(text),
        },
        None => match first_finish(text, finishes) {
            Some(k) => {
                let at = first_occurrence(text, finishes[k]).unwrap();
                Ok(
                    DecisionView::Finish(
                        FinishView {
                            return_values: Map::<Seq<char>, Seq<char>>::empty().insert(
                                output_key(),
                                trimmed(text.subrange(at + finishes[k].len(), text.len() as int)),
                            ),
                            log: text,
                        },
                    ),
                )
            },
            None => Err(text),
        },
    }
}

/// Where a follow-up marker occurs, the outcome is never a final answer,
/// whatever finish markers the text holds besides.
pub proof fn follow_up_excludes_finish(
    followup: Seq<char>,
    intermediate: Seq<char>,
    finishes: Seq<Seq<char>>,
    text: Seq<char>,
)
    requires
        occurs(text, followup),
    ensures
        !(parse_outcome(followup, intermediate, finishes, text) matches Ok(DecisionView::Finish(_))),
{
    lemma_first_occurrence_total(text, followup);
}

/// Where a follow-up marker occurs and the earliest intermediate-answer
/// marker stands at or after its end, the outcome is an action for the
/// follow-up tool, whatever finish markers the text holds besides.
pub proof fn follow_up_takes_precedence(
    followup: Seq<char>,
    intermediate: Seq<char>,
    finishes: Seq<Seq<char>>,
    text: Seq<char>,
)
    requires
        first_occurrence(text, followup) is Some,
        first_occurrence(text, intermediate) is Some,
        first_occurrence(text, followup).unwrap() + followup.len() <= first_occurrence(
            text,
            intermediate,
        ).unwrap(),
    ensures
        parse_outcome(followup, intermediate, finishes, text) matches Ok(DecisionView::Action(a))
            && a.tool == followup_tool() && a.tool_input == trimmed(
            text.subrange(
                first_occurrence(text, followup).unwrap() + followup.len(),
                first_occurrence(text, intermediate).unwrap(),
            ),
        ) && a.log == text.subrange(0, first_occurrence(text, intermediate).unwrap()),
{
}

/// A follow-up marker without an intermediate-answer marker is rejected,
/// and the rejection carries the text.
pub proof fn follow_up_alone_is_rejected(
    followup: Seq<char>,
    intermediate: Seq<char>,
    finishes: Seq<Seq<char>>,
    text: Seq<char>,
)
    requires
        occurs(text, followup),
        !occurs(text, intermediate),
    ensures
        parse_outcome(followup, intermediate, finishes, text) == Err::<DecisionView, Seq<char>>(
            text,
        ),
{
    lemma_first_occurrence_total(text, followup);
    lemma_first_occurrence_total(text, intermediate);
}

/// A text that holds none of the markers is rejected, and the rejection
/// carries the text.
pub proof fn no_marker_is_rejected(
    followup: Seq<char>,
    intermediate: Seq<char>,
    finishes: Seq<Seq<char>>,
    text: Seq<char>,
)
    requires
        !occurs(text, followup),
        forall|k: int| 0 <= k < finishes.len() ==> !occurs(text, #[trigger] finishes[k]),
    ensures
        parse_outcome(followup, intermediate, finishes, text) == Err::<DecisionView, Seq<char>>(
            text,
        ),
{
    lemma_first_occurrence_total(text, followup);
}

/// Without a follow-up marker, a text that holds a finish marker gives a
/// final answer whose log is the text and whose only value stands under
/// the output key.
pub proof fn finish_marker_gives_finish(
    followup: Seq<char>,
    intermediate: Seq<char>,
    finishes: Seq<Seq<char>>,
    text: Seq<char>,
    k: int,
)
    requires
        !occurs(text, followup),
        0 <= k < finishes.len(),
        occurs(text, finishes[k]),
    ensures
        parse_outcome(followup, intermediate, finishes, text) matches Ok(DecisionView::Finish(f))
            && f.log == text && f.return_values.dom() =~= set![output_key()],
{
    lemma_first_occurrence_total(text, followup);
    lemma_some_finish(text, finishes, k);
}

/// Below any finish marker that occurs there is a first one.
proof fn lemma_some_finish(text: Seq<char>, finishes: Seq<Seq<char>>, k: int)
    requires
        0 <= k < finishes.len(),
        occurs(text, finishes[k]),
    ensures
        exists|j: int| is_first_finish(text, finishes, j),
    decreases k,
{
    if exists|j: int| 0 <= j < k && occurs(text, #[trigger] finishes[j]) {
        let j = choose|j: int| 0 <= j < k && occurs(text, #[trigger] finishes[j]);
        lemma_some_finish(text, finishes, j);
    } else {
        assert(is_first_finish(text, finishes, k));
    }
}

/// The view of a parse result, with the error's text in place of the error.
pub open spec fn parsed_view(r: Result<AgentDecision, ParserError>) -> Result<
    DecisionView,
    Seq<char>,
> {
    match r {
        Ok(d) => Ok(d@),
        Err(e) => Err(e@),
    }
}

/// A parser of planning text, set up with the markers it looks for.
pub struct ConversationalOutputParser {
    followup_prefix: String,
    intermediate_answer_prefix: String,
    acceptable_finish_prefixes: Vec<String>,
}

impl ConversationalOutputParser {
    /// The marker that introduces a follow-up question.
    pub closed spec fn followup(&self) -> Seq<char> {
        self.followup_prefix@
    }

    /// The marker that ends a follow-up question.
    pub closed spec fn intermediate(&self) -> Seq<char> {
        self.intermediate_answer_prefix@
    }

    /// The markers that introduce a final answer, in order of priority.
    pub closed spec fn finishes(&self) -> Seq<Seq<char>> {
        texts(self.acceptable_finish_prefixes@)
    }

    /// A parser that looks for the given markers.
    pub fn new(
        followup_prefix: &str,
        intermediate_answer_prefix: &str,
        acceptable_finish_prefixes: &[&str],
    ) -> (r: Self)
        ensures
            r.followup() == followup_prefix@,
            r.intermediate() == intermediate_answer_prefix@,
            r.finishes() == acceptable_finish_prefixes@.map_values(|s: &str| s@),
    {
        let mut finishes: Vec<String> = Vec::new();
        let n: usize = acceptable_finish_prefixes.len();
        let mut i: usize = 0;
        while i < n
            invariant
                n == acceptable_finish_prefixes@.len(),
                i <= n,
                finishes@.len() == i,
                forall|j: int| 0 <= j < i ==> (#[trigger] finishes@[j])@ == acceptable_finish_prefixes@[j]@,
            decreases n - i,
        {
            finishes.push(acceptable_finish_prefixes[i].to_owned());
            i += 1;
        }
        proof {
            assert(texts(finishes@) =~= acceptable_finish_prefixes@.map_values(|s: &str| s@));
        }
        ConversationalOutputParser {
            followup_prefix: followup_prefix.to_owned(),
            intermediate_answer_prefix: intermediate_answer_prefix.to_owned(),
            acceptable_finish_prefixes: finishes,
        }
    }

    /// Decides what `text` asks for; see `parse_outcome`.
    pub fn parse(&self, text: String) -> (r: Result<AgentDecision, ParserError>)
        ensures
            parsed_view(r) == parse_outcome(
                self.followup(),
                self.intermediate(),
                self.finishes(),
                text@,
            ),
    {
        let chars = chars_of(text.as_str());
        let total: usize = chars.len();
        let followup = chars_of(self.followup_prefix.as_str());
        match find(&chars, &followup) {
            Some(f) => {
                let intermediate = chars_of(self.intermediate_answer_prefix.as_str());
                match find(&chars, &intermediate) {
                    Some(a) => {
                        let start: usize = f + followup.len();
                        if start <= a {
                            let (from, to) = trim_range(&chars, start, a);
                            let tool_input = slice_chars(text.as_str(), from, to);
                            let log = slice_chars(text.as_str(), 0, a);
                            Ok(
                                AgentDecision::Action(
                                    AgentAction {
                                        tool: "Intermediate Answer".to_owned(),
                                        tool_input,
                                        log,
                                    },
                                ),
                            )
                        } else {
                            Err(ParserError(text))
                        }
                    },
                    None => Err(ParserError(text)),
                }
            },
            None => {
                let n: usize = self.acceptable_finish_prefixes.len();
                let mut k: usize = 0;
                while k < n
                    invariant
                        n == self.acceptable_finish_prefixes@.len(),
                        k <= n,
                        chars@ == text@,
                        total == chars@.len(),
                        first_occurrence(text@, self.followup()) is None,
                        forall|j: int|
                            0 <= j < k ==> !occurs(text@, #[trigger] self.finishes()[j]),
                    decreases n - k,
                {
                    let marker = chars_of(self.acceptable_finish_prefixes[k].as_str());
                    proof {
                        assert(self.finishes()[k as int] == marker@);
                    }
                    match find(&chars, &marker) {
                        Some(at) => {
                            let (from, to) = trim_range(&chars, at + marker.len(), total);
                            let answer = slice_chars(text.as_str(), from, to);
                            proof {
                                assert(is_first_finish(text@, self.finishes(), k as int)) by {
                                    assert(crate::text::occurs_at(text@, marker@, at as int));
                                }
                                lemma_first_finish_is(text@, self.finishes(), k as int);
                            }
                            return Ok(
                                AgentDecision::Finish(
                                    AgentFinish {
                                        return_values: Parameters::new().with(
                                            "output",
                                            answer.as_str(),
                                        ),
                                        log: text,
                                    },
                                ),
                            );
                        },
                        None => {},
                    }
                    k += 1;
                }
                Err(ParserError(text))
            },
        }
    }
}

impl Default for ConversationalOutputParser {
    /// The parser with the customary markers.
    fn default() -> (r: Self)
        ensures
            r.followup() == "Follow up:"@,
            r.intermediate() == "Intermediate Answer:"@,
            r.finishes() == seq![
                "Final answer:"@,
                "So the final answer is:"@,
                "So the final answer could be:"@,
            ],
    {
        let finishes: [&str; 3] = [
            "Final answer:",
            "So the final answer is:",
            "So the final answer could be:",
        ];
        let r = ConversationalOutputParser::new(
            "Follow up:",
            "Intermediate Answer:",
            finishes.as_slice(),
        );
        proof {
            assert(r.finishes() =~= seq![
                "Final answer:"@,
                "So the final answer is:"@,
                "So the final answer could be:"@,
            ]);
        }
        r
    }
}

} // verus!

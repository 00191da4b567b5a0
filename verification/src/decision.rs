//! What one planning round can decide, and the record of a completed round.

use vstd::prelude::*;
use vstd::string::*;

verus! {

/// Whether two strings hold the same characters.
pub fn same_text(a: &str, b: &str) -> (r: bool)
    ensures
        r == (a@ == b@),
{
    let x: String = a.to_owned();
    let y: String = b.to_owned();
    x == y
}

/// The mapping that a sequence of key/value entries stands for: of two
/// entries with one key, the later one counts.
pub open spec fn entries_map(entries: Seq<(String, String)>) -> Map<Seq<char>, Seq<char>>
    decreases entries.len(),
{
    if entries.len() == 0 {
        Map::empty()
    } else {
        entries_map(entries.drop_last()).insert(entries.last().0@, entries.last().1@)
    }
}

/// A mapping from names to text values.
pub struct Parameters {
    pub entries: Vec<(String, String)>,
}

impl View for Parameters {
    type V = Map<Seq<char>, Seq<char>>;

    open spec fn view(&self) -> Map<Seq<char>, Seq<char>> {
        entries_map(self.entries@)
    }
}

impl Parameters {
    /// The empty mapping.
    pub fn new() -> (r: Self)
        ensures
            r@ == Map::<Seq<char>, Seq<char>>::empty(),
    {
        Parameters { entries: Vec::new() }
    }

    /// This mapping with `key` bound to `value`.
    pub fn with(self, key: &str, value: &str) -> (r: Self)
        ensures
            r@ == self@.insert(key@, value@),
    {
        let mut entries = self.entries;
        let ghost before = entries@;
        entries.push((key.to_owned(), value.to_owned()));
        proof {
            assert(entries@.drop_last() =~= before);
        }
        Parameters { entries }
    }

    /// The value bound to `key`, if there is one.
    pub fn get(&self, key: &str) -> (r: Option<&String>)
        ensures
            r is Some <==> self@.contains_key(key@),
            r matches Some(v) ==> v@ == self@[key@],
    {
        let mut i: usize = self.entries.len();
        proof {
            assert(self.entries@.take(i as int) =~= self.entries@);
        }
        while i > 0
            invariant
                i <= self.entries@.len(),
                entries_map(self.entries@).contains_key(key@) <==> entries_map(
                    self.entries@.take(i as int),
                ).contains_key(key@),
                entries_map(self.entries@).contains_key(key@) ==> entries_map(self.entries@)[key@]
                    == entries_map(self.entries@.take(i as int))[key@],
            decreases i,
        {
            proof {
                assert(self.entries@.take(i as int).drop_last() =~= self.entries@.take(i - 1));
                assert(self.entries@.take(i as int).last() == self.entries@[i - 1]);
            }
            if same_text(self.entries[i - 1].0.as_str(), key) {
                return Some(&self.entries[i - 1].1);
            }
            i -= 1;
        }
        proof {
            assert(self.entries@.take(0) =~= Seq::<(String, String)>::empty());
        }
        None
    }
}

/// The decision to call a tool.
pub struct AgentAction {
    /// The name of the tool.
    pub tool: String,
    /// The raw input for the tool.
    pub tool_input: String,
    /// The model's own text that led to this decision.
    pub log: String,
}

pub struct ActionView {
    pub tool: Seq<char>,
    pub tool_input: Seq<char>,
    pub log: Seq<char>,
}

impl View for AgentAction {
    type V = ActionView;

    open spec fn view(&self) -> ActionView {
        ActionView { tool: self.tool@, tool_input: self.tool_input@, log: self.log@ }
    }
}

/// The decision to stop with a result.
pub struct AgentFinish {
    /// The result; by convention the answer stands under `output`.
    pub return_values: Parameters,
    /// The model's own text that led to this decision.
    pub log: String,
}

pub struct FinishView {
    pub return_values: Map<Seq<char>, Seq<char>>,
    pub log: Seq<char>,
}

impl View for AgentFinish {
    type V = FinishView;

    open spec fn view(&self) -> FinishView {
        FinishView { return_values: self.return_values@, log: self.log@ }
    }
}

/// The outcome of one planning round: exactly one of the two.
pub enum AgentDecision {
    Action(AgentAction),
    Finish(AgentFinish),
}

pub enum DecisionView {
    Action(ActionView),
    Finish(FinishView),
}

impl View for AgentDecision {
    type V = DecisionView;

    open spec fn view(&self) -> DecisionView {
        match self {
            AgentDecision::Action(a) => DecisionView::Action(a@),
            AgentDecision::Finish(f) => DecisionView::Finish(f@),
        }
    }
}

/// A completed round: the action taken and what the tool answered.
pub struct AgentIntermediateStep {
    pub action: AgentAction,
    pub observation: String,
}

pub struct StepView {
    pub action: ActionView,
    pub observation: Seq<char>,
}

impl View for AgentIntermediateStep {
    type V = StepView;

    open spec fn view(&self) -> StepView {
        StepView { action: self.action@, observation: self.observation@ }
    }
}

/// What a round hands back to the loop.
pub enum AgentIntermediateStepOutput {
    Step(AgentIntermediateStep),
    Finish(AgentFinish),
}

pub enum StepOutputView {
    Step(StepView),
    Finish(FinishView),
}

impl View for AgentIntermediateStepOutput {
    type V = StepOutputView;

    open spec fn view(&self) -> StepOutputView {
        match self {
            AgentIntermediateStepOutput::Step(s) => StepOutputView::Step(s@),
            AgentIntermediateStepOutput::Finish(f) => StepOutputView::Finish(f@),
        }
    }
}

/// The model's text fitted none of the expected patterns; it is carried whole.
pub struct ParserError(pub String);

impl View for ParserError {
    type V = Seq<char>;

    open spec fn view(&self) -> Seq<char> {
        self.0@
    }
}

} // verus!

//! The bounded planning loop: what to send to the model, what to do with
//! its answer, and when to stop.
//!
//! The loop itself waits for the model and reads a clock, which is for the
//! caller to do. Between two waits the caller asks here what comes next:
//! `next_round` for the prompt of a round or the reason to stop,
//! `take_next_step` for what the model's answer leads to, and `record` for
//! the state after the round.

use crate::decision::{
    AgentDecision, AgentFinish, AgentIntermediateStep, AgentIntermediateStepOutput, DecisionView,
    ParserError, StepView,
};
use crate::handler::Tool;
use crate::parser::{parse_outcome, ConversationalOutputParser};
use crate::registry::{unboxed, Toolbox};
use crate::yaml::{descriptions_node, yaml_text};
use vstd::prelude::*;
use vstd::string::*;

verus! {

/// A span of time: whole seconds and the nanoseconds beyond them.
#[derive(Clone, Copy, Debug)]
pub struct Seconds {
    pub whole: u64,
    pub nanos: u32,
}

impl Seconds {
    /// The fraction stays below one second.
    pub open spec fn wf(&self) -> bool {
        self.nanos < 1_000_000_000
    }

    /// The span in nanoseconds.
    pub open spec fn total_nanos(&self) -> nat {
        (self.whole * 1_000_000_000 + self.nanos) as nat
    }

    /// Whether this span is no longer than `other`.
    pub fn at_most(&self, other: &Seconds) -> (r: bool)
        requires
            self.wf(),
            other.wf(),
        ensures
            r == (self.total_nanos() <= other.total_nanos()),
    {
        self.whole < other.whole || (self.whole == other.whole && self.nanos <= other.nanos)
    }
}

/// The bounds of a run. A bound that is not set never stops the loop.
#[derive(Clone, Copy, Debug)]
pub struct EarlyStoppingConfig {
    /// How many rounds a run may take.
    pub max_iterations: Option<u32>,
    /// How long a run may have taken when a round starts.
    pub max_time_elapsed_seconds: Option<Seconds>,
}

impl EarlyStoppingConfig {
    pub open spec fn wf(&self) -> bool {
        self.max_time_elapsed_seconds matches Some(t) ==> t.wf()
    }

    /// Another round may start: fewer rounds were taken than the bound
    /// allows, and no more time has passed than the bound allows.
    pub open spec fn allows(&self, iterations_elapsed: u32, time_elapsed: Seconds) -> bool {
        &&& self.max_iterations matches Some(m) ==> iterations_elapsed < m
        &&& self.max_time_elapsed_seconds matches Some(t) ==> time_elapsed.total_nanos()
            <= t.total_nanos()
    }
}

/// Why a run ended without a result.
pub enum AgentError<E> {
    /// The model returned no text.
    NoChoicesReturned,
    /// The model's text fitted none of the expected patterns.
    ParserError(ParserError),
    /// The model asked for a tool that is not registered.
    ToolNotFound(String),
    /// The tool that was called failed.
    ToolError(E),
    /// The descriptions of the tools could not be written as YAML.
    YamlError(serde_yaml::Error),
    /// A bound was reached before the model gave a final answer.
    RuntimeExceeded { time_elapsed_seconds: Seconds, iterations_elapsed: u32 },
}

/// The state of a run between two rounds.
pub struct RunState {
    /// The completed rounds, oldest first.
    pub intermediate_steps: Vec<AgentIntermediateStep>,
    /// How many rounds were taken.
    pub iterations: u32,
}

/// What a round leaves behind.
pub enum RoundOutcome {
    /// The run goes on from this state.
    Continue(RunState),
    /// The run is over, with its result and all completed rounds.
    Done(AgentFinish, Vec<AgentIntermediateStep>),
}

/// The views of a list of steps.
pub open spec fn step_views(steps: Seq<AgentIntermediateStep>) -> Seq<StepView> {
    steps.map_values(|s: AgentIntermediateStep| s@)
}

impl RunState {
    /// The state before the first round.
    pub fn new() -> (r: Self)
        ensures
            r.intermediate_steps@.len() == 0,
            r.iterations == 0,
    {
        RunState { intermediate_steps: Vec::new(), iterations: 0 }
    }
}

pub const INSTRUCTIONS: &'static str = "Assistant is a large language model.

Assistant is designed to be able to assist with a wide range of tasks, from answering simple questions to providing in-depth explanations and discussions on a wide range of topics. As a language model, Assistant is able to generate human-like text based on the input it receives, allowing it to engage in natural-sounding conversations and provide responses that are coherent and relevant to the topic at hand.

Assistant is constantly learning and improving, and its capabilities are constantly evolving. It is able to process and understand large amounts of text, and can use this knowledge to provide accurate and informative responses to a wide range of questions. Additionally, Assistant is able to generate its own text based on the input it receives, allowing it to engage in discussions and provide explanations and descriptions on a wide range of topics.

Overall, Assistant is a powerful system that can help with a wide range of tasks and provide valuable insights and information on a wide range of topics. Whether you need help with a specific question or just want to have a conversation about a particular topic, Assistant is here to assist.

";

pub const BEFORE_INPUT: &'static str = "

Here is the user's input:
";

pub const BEFORE_SCRATCHPAD: &'static str = "

Are followup tasks needed here:";

pub const ALTERNATIVE_TOOLS_PROMPT: &'static str = "
Assistant can ask the user to use tools to look up information that may be helpful in answering the users original question. You may only communicate that with YAML. You are provided with tools that you may ask the user to use by naming the tool you wish to invoke along with it's input.

For the user to invoke a tool write YAML like this, do not include output:
command: Command
input: 
  <INPUT IN YAML>


The following are the user's tools:";

/// The text that tells the model about the tools, given their descriptions.
pub open spec fn tools_prompt_text(described: Seq<char>) -> Seq<char> {
    ALTERNATIVE_TOOLS_PROMPT@ + described + "\n\n"@
}

/// The section of a prompt that presents tools described as `described`.
pub fn tools_prompt(described: &str) -> (r: String)
    ensures
        r@ == tools_prompt_text(described@),
{
    let mut s = ALTERNATIVE_TOOLS_PROMPT.to_owned();
    s.append(described);
    s.append("\n\n");
    s
}

/// The prompt of a round, from its three variable parts.
pub fn prompt(tools: &str, query: &str, scratchpad: &str) -> (r: String)
    ensures
        r@ == prompt_text(tools@, query@, scratchpad@),
{
    let mut p = INSTRUCTIONS.to_owned();
    p.append(tools);
    p.append(BEFORE_INPUT);
    p.append(query);
    p.append(BEFORE_SCRATCHPAD);
    p.append(scratchpad);
    p.append("\n");
    p
}

/// The section of a prompt that presents the tools of `tools`: a fixed
/// introduction, the descriptions of the tools as YAML, and a blank line.
/// It fails exactly where the YAML library returns an error for the
/// descriptions.
pub fn jailbreak_tools_prompt<T: Tool<E>, E>(tools: &Toolbox<T, E>) -> (r: Result<
    String,
    serde_yaml::Error,
>)
    requires
        tools.wf(),
    ensures
        match yaml_text(descriptions_node(tools.descriptions())) {
            Some(described) => r matches Ok(s) && s@ == tools_prompt_text(described),
            None => r is Err,
        },
{
    match tools.describe() {
        Ok(described) => Ok(tools_prompt(described.as_str())),
        Err(e) => Err(e),
    }
}

/// The text that recalls the completed rounds: for each, the model's own
/// text, then on a line of its own the observation behind its prefix, then
/// on the next line the prefix for the model to continue from.
pub open spec fn scratchpad(
    observation_prefix: Seq<char>,
    llm_prefix: Seq<char>,
    steps: Seq<StepView>,
) -> Seq<char>
    decreases steps.len(),
{
    if steps.len() == 0 {
        Seq::empty()
    } else {
        scratchpad(observation_prefix, llm_prefix, steps.drop_last()) + steps.last().action.log
            + "\n"@ + observation_prefix + steps.last().observation + "\n"@ + llm_prefix
    }
}

/// The prompt of a round: the instructions, the tools, the query and the
/// scratchpad, each in its place.
pub open spec fn prompt_text(tools: Seq<char>, query: Seq<char>, scratchpad: Seq<char>) -> Seq<
    char,
> {
    INSTRUCTIONS@ + tools + BEFORE_INPUT@ + query + BEFORE_SCRATCHPAD@ + scratchpad + "\n"@
}

/// An agent: a model to ask, tools to call, and the bounds of a run.
pub struct Agent<X, T, E> {
    executor: X,
    tools: Toolbox<T, E>,
    early_stopping_config: EarlyStoppingConfig,
    observation_prefix: String,
    llm_prefix: String,
    output_parser: ConversationalOutputParser,
}

impl<X, T: Tool<E>, E> Agent<X, T, E> {
    pub closed spec fn executor(&self) -> X {
        self.executor
    }

    pub closed spec fn tools(&self) -> Toolbox<T, E> {
        self.tools
    }

    pub closed spec fn config(&self) -> EarlyStoppingConfig {
        self.early_stopping_config
    }

    pub closed spec fn observation_prefix(&self) -> Seq<char> {
        self.observation_prefix@
    }

    pub closed spec fn llm_prefix(&self) -> Seq<char> {
        self.llm_prefix@
    }

    pub closed spec fn parser(&self) -> ConversationalOutputParser {
        self.output_parser
    }

    /// The registry and the bounds are well formed.
    pub open spec fn wf(&self) -> bool {
        self.tools().wf() && self.config().wf()
    }

    /// What the parser of this agent makes of `text`.
    pub open spec fn parsed(&self, text: Seq<char>) -> Result<DecisionView, Seq<char>> {
        parse_outcome(
            self.parser().followup(),
            self.parser().intermediate(),
            self.parser().finishes(),
            text,
        )
    }

    /// An agent with the customary markers and prefixes.
    pub fn new(executor: X, tools: Toolbox<T, E>, early_stopping_config: EarlyStoppingConfig) -> (r:
        Self)
        ensures
            r.executor() == executor,
            r.tools() == tools,
            r.config() == early_stopping_config,
            r.observation_prefix() == "Intermediate answer: "@,
            r.llm_prefix() == ""@,
            r.parser().followup() == "Follow up:"@,
            r.parser().intermediate() == "Intermediate Answer:"@,
            r.parser().finishes() == seq![
                "Final answer:"@,
                "So the final answer is:"@,
                "So the final answer could be:"@,
            ],
    {
        Agent {
            executor,
            tools,
            early_stopping_config,
            observation_prefix: "Intermediate answer: ".to_owned(),
            llm_prefix: "".to_owned(),
            output_parser: ConversationalOutputParser::default(),
        }
    }

    /// The model that this agent asks.
    pub fn model(&self) -> (r: &X)
        ensures
            *r == self.executor(),
    {
        &self.executor
    }

    /// Whether another round may start after `iterations_elapsed` rounds
    /// that took `time_elapsed_seconds` together.
    pub fn should_continue(&self, iterations_elapsed: u32, time_elapsed_seconds: Seconds) -> (r:
        bool)
        requires
            self.config().wf(),
            time_elapsed_seconds.wf(),
        ensures
            r == self.config().allows(iterations_elapsed, time_elapsed_seconds),
    {
        let rounds_left = match self.early_stopping_config.max_iterations {
            Some(max_iterations) => iterations_elapsed < max_iterations,
            None => true,
        };
        let time_left = match self.early_stopping_config.max_time_elapsed_seconds {
            Some(max_time_elapsed_seconds) => time_elapsed_seconds.at_most(
                &max_time_elapsed_seconds,
            ),
            None => true,
        };
        rounds_left && time_left
    }

    /// The completed rounds as one text for the model to continue from.
    pub fn build_agent_scratchpad(&self, intermediate_steps: &Vec<AgentIntermediateStep>) -> (r:
        String)
        ensures
            r@ == scratchpad(
                self.observation_prefix(),
                self.llm_prefix(),
                step_views(intermediate_steps@),
            ),
    {
        let mut pad = String::new();
        let n: usize = intermediate_steps.len();
        let mut i: usize = 0;
        while i < n
            invariant
                n == intermediate_steps@.len(),
                i <= n,
                pad@ == scratchpad(
                    self.observation_prefix(),
                    self.llm_prefix(),
                    step_views(intermediate_steps@).take(i as int),
                ),
            decreases n - i,
        {
            proof {
                let all = step_views(intermediate_steps@);
                assert(all.take(i + 1).drop_last() =~= all.take(i as int));
                assert(all.take(i + 1).last() == intermediate_steps@[i as int]@);
            }
            pad.append(intermediate_steps[i].action.log.as_str());
            pad.append("\n");
            pad.append(self.observation_prefix.as_str());
            pad.append(intermediate_steps[i].observation.as_str());
            pad.append("\n");
            pad.append(self.llm_prefix.as_str());
            i += 1;
        }
        proof {
            let all = step_views(intermediate_steps@);
            assert(all.take(n as int) =~= all);
        }
        pad
    }

    /// The prompt that asks the model what to do next about `query`, given
    /// the completed rounds.
    pub fn plan(&self, intermediate_steps: &Vec<AgentIntermediateStep>, query: &str) -> (r: Result<
        String,
        AgentError<E>,
    >)
        requires
            self.wf(),
        ensures
            match yaml_text(descriptions_node(self.tools().descriptions())) {
                Some(described) => r matches Ok(p) && p@ == prompt_text(
                    tools_prompt_text(described),
                    query@,
                    scratchpad(
                        self.observation_prefix(),
                        self.llm_prefix(),
                        step_views(intermediate_steps@),
                    ),
                ),
                None => r matches Err(e) && e is YamlError,
            },
    {
        let pad = self.build_agent_scratchpad(intermediate_steps);
        let tools = match jailbreak_tools_prompt(&self.tools) {
            Ok(t) => t,
            Err(e) => {
                return Err(AgentError::YamlError(e));
            },
        };
        Ok(prompt(tools.as_str(), query, pad.as_str()))
    }

    /// What the model's answer to a round leads to.
    ///
    /// No answer ends the run. An answer that the parser rejects ends it
    /// with the rejected text. A final answer is handed on. A call for a
    /// tool is carried out: the registry is asked for the tool by its exact
    /// name, and the tool's reply becomes the observation of a new step. A
    /// name that is not registered, or a tool that fails, ends the run.
    pub fn take_next_step(&self, completion: Option<String>) -> (r: Result<
        AgentIntermediateStepOutput,
        AgentError<E>,
    >)
        requires
            self.wf(),
        ensures
            match completion {
                None => r matches Err(AgentError::NoChoicesReturned),
                Some(text) => match self.parsed(text@) {
                    Err(rejected) => r matches Err(AgentError::ParserError(e)) && e@ == rejected,
                    Ok(DecisionView::Finish(finish)) => r matches Ok(
                        AgentIntermediateStepOutput::Finish(f),
                    ) && f@ == finish,
                    Ok(DecisionView::Action(action)) => if self.tools().has_tool(action.tool) {
                        let tool = self.tools().entries()[self.tools().index_of(action.tool)].tool;
                        exists|reply: Result<String, Box<E>>| #[trigger]
                            tool.replies(action.tool_input, reply) && match reply {
                                Ok(observation) => r matches Ok(
                                    AgentIntermediateStepOutput::Step(step),
                                ) && step.action@ == action && step.observation == observation,
                                Err(e) => r matches Err(AgentError::ToolError(x)) && x == *e,
                            }
                    } else {
                        r matches Err(AgentError::ToolNotFound(name)) && name@ == action.tool
                    },
                },
            },
    {
        let text = match completion {
            Some(text) => text,
            None => {
                return Err(AgentError::NoChoicesReturned);
            },
        };
        proof {
            assert(self.tools() == self.tools);
            assert(self.parser() == self.output_parser);
        }
        match self.output_parser.parse(text) {
            Err(e) => Err(AgentError::ParserError(e)),
            Ok(AgentDecision::Finish(finish)) => Ok(AgentIntermediateStepOutput::Finish(finish)),
            Ok(AgentDecision::Action(action)) => {
                let invoked = self.tools.invoke(action.tool.as_str(), action.tool_input.as_str());
                let ghost tool = self.tools().entries()[self.tools().index_of(action.tool@)].tool;
                let ghost input = action.tool_input@;
                let ghost act = action@;
                let ghost inner = choose|inner: Result<String, Box<E>>| #[trigger]
                    tool.replies(input, inner) && unboxed(inner, invoked->0);
                let r = match invoked {
                    None => Err(AgentError::ToolNotFound(action.tool)),
                    Some(Ok(observation)) => Ok(
                        AgentIntermediateStepOutput::Step(
                            AgentIntermediateStep { action, observation },
                        ),
                    ),
                    Some(Err(e)) => Err(AgentError::ToolError(e)),
                };
                proof {
                    if invoked is Some {
                        assert(tool.replies(act.tool_input, inner) && match inner {
                            Ok(observation) => r matches Ok(AgentIntermediateStepOutput::Step(step))
                                && step.action@ == act && step.observation == observation,
                            Err(e) => r matches Err(AgentError::ToolError(x)) && x == *e,
                        });
                    }
                }
                r
            },
        }
    }

    /// What comes before a round: the prompt to send, if another round may
    /// start, and else the report that a bound was reached, with the
    /// rounds taken and the time passed.
    pub fn next_round(&self, state: &RunState, time_elapsed_seconds: Seconds, query: &str) -> (r:
        Result<String, AgentError<E>>)
        requires
            self.wf(),
            time_elapsed_seconds.wf(),
        ensures
            !self.config().allows(state.iterations, time_elapsed_seconds) ==> (r matches Err(
                AgentError::RuntimeExceeded { time_elapsed_seconds: t, iterations_elapsed: n },
            ) && t == time_elapsed_seconds && n == state.iterations),
            self.config().allows(state.iterations, time_elapsed_seconds) ==> match yaml_text(
                descriptions_node(self.tools().descriptions()),
            ) {
                Some(described) => r matches Ok(p) && p@ == prompt_text(
                    tools_prompt_text(described),
                    query@,
                    scratchpad(
                        self.observation_prefix(),
                        self.llm_prefix(),
                        step_views(state.intermediate_steps@),
                    ),
                ),
                None => r matches Err(e) && e is YamlError,
            },
    {
        if self.should_continue(state.iterations, time_elapsed_seconds) {
            self.plan(&state.intermediate_steps, query)
        } else {
            Err(
                AgentError::RuntimeExceeded {
                    time_elapsed_seconds,
                    iterations_elapsed: state.iterations,
                },
            )
        }
    }
}

/// The state after a round: one more round was taken; a step is added
/// behind the earlier ones, which stay as they were, and a final answer
/// ends the run with all of them.
pub fn record(state: RunState, output: AgentIntermediateStepOutput) -> (r: RoundOutcome)
    requires
        state.iterations < u32::MAX,
    ensures
        match output {
            AgentIntermediateStepOutput::Step(step) => r matches RoundOutcome::Continue(next)
                && next.intermediate_steps@ == state.intermediate_steps@.push(step)
                && next.iterations == state.iterations + 1,
            AgentIntermediateStepOutput::Finish(finish) => r == RoundOutcome::Done(
                finish,
                state.intermediate_steps,
            ),
        },
{
    let mut steps = state.intermediate_steps;
    match output {
        AgentIntermediateStepOutput::Step(step) => {
            steps.push(step);
            RoundOutcome::Continue(
                RunState { intermediate_steps: steps, iterations: state.iterations + 1 },
            )
        },
        AgentIntermediateStepOutput::Finish(finish) => RoundOutcome::Done(finish, steps),
    }
}

/// The scratchpad is a function of the transcript: two transcripts that
/// read the same give the same text, character by character.
pub proof fn scratchpad_is_reproducible(
    observation_prefix: Seq<char>,
    llm_prefix: Seq<char>,
    first: Seq<AgentIntermediateStep>,
    second: Seq<AgentIntermediateStep>,
)
    requires
        step_views(first) == step_views(second),
    ensures
        scratchpad(observation_prefix, llm_prefix, step_views(first)) == scratchpad(
            observation_prefix,
            llm_prefix,
            step_views(second),
        ),
{
}

/// A step only ever extends the scratchpad: what was built from the
/// earlier steps stays at its front.
pub proof fn scratchpad_grows(
    observation_prefix: Seq<char>,
    llm_prefix: Seq<char>,
    steps: Seq<StepView>,
    step: StepView,
)
    ensures
        scratchpad(observation_prefix, llm_prefix, steps).is_prefix_of(
            scratchpad(observation_prefix, llm_prefix, steps.push(step)),
        ),
{
    assert(steps.push(step).drop_last() =~= steps);
}

/// Once as many rounds were taken as the bound allows, no further round
/// starts, whatever the time.
pub proof fn iteration_bound_stops(config: EarlyStoppingConfig, iterations: u32, time: Seconds)
    requires
        config.max_iterations matches Some(m) && iterations >= m,
    ensures
        !config.allows(iterations, time),
{
}

/// Without bounds a round may always start.
pub proof fn no_bound_never_stops(config: EarlyStoppingConfig, iterations: u32, time: Seconds)
    requires
        config.max_iterations is None,
        config.max_time_elapsed_seconds is None,
    ensures
        config.allows(iterations, time),
{
}

} // verus!

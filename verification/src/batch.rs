//! The batch executor's bookkeeping.
//!
//! A batch runs one parallel round per input, one round after the other.
//! Every round gets agents made afresh from the same configurations, each
//! under the id it is paired with, and all of them get the round's input as
//! their task. The driver runs the rounds; the batch decides what each round
//! is, and what the call returns.

use vstd::prelude::*;
use vstd::string::*;

use crate::agent::ConstructionError;
use crate::config::{AgentConfig, AgentConfigView, config_views};
use crate::parallel::{
    ExecutionError, ExecutionErrorView, JoinEventView, ParallelRunView, all_join, handed_in,
    lemma_parallel_returns_one_result_per_pair, return_view,
};
use crate::result::{AgentResult, AgentResultView, result_views};

verus! {

/// The characters of each string of a list, in the same order.
pub open spec fn text_views(texts: Seq<String>) -> Seq<Seq<char>> {
    texts.map_values(|text: String| text@)
}

/// The mathematical content of a list of ids, each with its configuration.
pub open spec fn pair_views(pairs: Seq<(String, AgentConfig)>) -> Seq<(Seq<char>, AgentConfigView)> {
    pairs.map_values(|pair: (String, AgentConfig)| (pair.0@, pair.1@))
}

/// Each configuration under the id it is paired with as its name.
pub open spec fn named(pairs: Seq<(Seq<char>, AgentConfigView)>) -> Seq<AgentConfigView> {
    pairs.map_values(|pair: (Seq<char>, AgentConfigView)| pair.1.renamed(pair.0))
}

/// `count` times the same task.
pub open spec fn repeated(task: Seq<char>, count: nat) -> Seq<Seq<char>> {
    Seq::new(count, |i: int| task)
}

/// Copies each configuration and names the copy by the id it is paired with.
pub fn name_configs(pairs: &Vec<(String, AgentConfig)>) -> (configs: Vec<AgentConfig>)
    ensures
        config_views(configs@) == named(pair_views(pairs@)),
{
    let mut configs: Vec<AgentConfig> = Vec::new();
    let mut i: usize = 0;
    while i < pairs.len()
        invariant
            i <= pairs.len(),
            configs.len() == i,
            forall|k: int| 0 <= k < i ==> (#[trigger] configs[k])@ == pairs[k].1@.renamed(pairs[k].0@),
        decreases pairs.len() - i,
    {
        let config = pairs[i].1.clone().renamed(pairs[i].0.clone());
        configs.push(config);
        i += 1;
    }
    assert(config_views(configs@) =~= named(pair_views(pairs@)));
    configs
}

/// Hands the same task to each of `count` units.
pub fn repeat_task(task: &str, count: usize) -> (tasks: Vec<String>)
    ensures
        text_views(tasks@) == repeated(task@, count as nat),
{
    let mut tasks: Vec<String> = Vec::new();
    let mut i: usize = 0;
    while i < count
        invariant
            i <= count,
            tasks.len() == i,
            forall|k: int| 0 <= k < i ==> (#[trigger] tasks[k])@ == task@,
        decreases count - i,
    {
        tasks.push(String::from_str(task));
        i += 1;
    }
    assert(text_views(tasks@) =~= repeated(task@, count as nat));
    tasks
}

/// A batch whose round for one input is under way.
#[derive(Debug)]
pub struct BatchRound {
    configs: Vec<(String, AgentConfig)>,
    inputs: Vec<String>,
    round: usize,
    results: Vec<AgentResult>,
}

/// The mathematical content of a [`BatchRound`].
pub struct BatchRoundView {
    pub configs: Seq<(Seq<char>, AgentConfigView)>,
    pub inputs: Seq<Seq<char>>,
    /// The position of the input whose round is under way.
    pub round: nat,
    /// The results of the rounds before it, round after round.
    pub results: Seq<AgentResultView>,
}

impl View for BatchRound {
    type V = BatchRoundView;

    closed spec fn view(&self) -> BatchRoundView {
        BatchRoundView {
            configs: pair_views(self.configs@),
            inputs: text_views(self.inputs@),
            round: self.round as nat,
            results: result_views(self.results@),
        }
    }
}

/// What a batch does next: have one round run, or return.
#[derive(Debug)]
pub enum BatchStep {
    /// Make an agent for each configuration, run them in parallel with the
    /// tasks at their positions, and resume the round with what the parallel
    /// call returned. Where an agent cannot be made, attempt no task and
    /// abandon the round with the construction error.
    Run { configs: Vec<AgentConfig>, tasks: Vec<String>, round: BatchRound },
    Return(Result<Vec<AgentResult>, ExecutionError>),
}

/// The mathematical content of a [`BatchStep`].
pub enum BatchStepView {
    Run { configs: Seq<AgentConfigView>, tasks: Seq<Seq<char>>, round: BatchRoundView },
    Return(Result<Seq<AgentResultView>, ExecutionErrorView>),
}

impl View for BatchStep {
    type V = BatchStepView;

    open spec fn view(&self) -> BatchStepView {
        match self {
            BatchStep::Run { configs, tasks, round } => BatchStepView::Run {
                configs: config_views(configs@),
                tasks: text_views(tasks@),
                round: round@,
            },
            BatchStep::Return(outcome) => BatchStepView::Return(return_view(*outcome)),
        }
    }
}

/// The step of a batch that has the results of its first `round` rounds: the
/// round of the next input if there is one, else the return of all results.
pub open spec fn batch_step(
    configs: Seq<(Seq<char>, AgentConfigView)>,
    inputs: Seq<Seq<char>>,
    round: nat,
    results: Seq<AgentResultView>,
) -> BatchStepView {
    if round < inputs.len() {
        BatchStepView::Run {
            configs: named(configs),
            tasks: repeated(inputs[round as int], configs.len()),
            round: BatchRoundView { configs, inputs, round, results },
        }
    } else {
        BatchStepView::Return(Ok(results))
    }
}

impl BatchRoundView {
    /// The step of a round none of whose tasks is attempted because an agent
    /// for it could not be constructed: the batch ends with that failure.
    pub open spec fn abandon(self, error: ConstructionError) -> BatchStepView {
        BatchStepView::Return(Err(ExecutionErrorView::Construction(error)))
    }

    /// The step that the round's outcome brings about: a failed round ends
    /// the batch with its failure; the results of a finished round are
    /// appended, in the order in which the round returned them, and the
    /// batch goes on to the next input.
    pub open spec fn resume(
        self,
        outcome: Result<Seq<AgentResultView>, ExecutionErrorView>,
    ) -> BatchStepView {
        match outcome {
            Err(error) => BatchStepView::Return(Err(error)),
            Ok(results) => batch_step(
                self.configs,
                self.inputs,
                self.round + 1,
                self.results + results,
            ),
        }
    }
}

fn next_step(
    configs: Vec<(String, AgentConfig)>,
    inputs: Vec<String>,
    round: usize,
    results: Vec<AgentResult>,
) -> (step: BatchStep)
    ensures
        step@ == batch_step(
            pair_views(configs@),
            text_views(inputs@),
            round as nat,
            result_views(results@),
        ),
{
    if round < inputs.len() {
        let named_configs = name_configs(&configs);
        let tasks = repeat_task(inputs[round].as_str(), configs.len());
        BatchStep::Run {
            configs: named_configs,
            tasks,
            round: BatchRound { configs, inputs, round, results },
        }
    } else {
        BatchStep::Return(Ok(results))
    }
}

/// Starts a batch over `configs`, each with the id that names its agents,
/// and `inputs`: the first step is the round of the first input, or the
/// return of no results when there is no input.
pub fn execute_batch(configs: Vec<(String, AgentConfig)>, inputs: Vec<String>) -> (step: BatchStep)
    ensures
        step@ == batch_step(pair_views(configs@), text_views(inputs@), 0, Seq::empty()),
{
    let results: Vec<AgentResult> = Vec::new();
    assert(result_views(results@) =~= Seq::empty());
    next_step(configs, inputs, 0, results)
}

impl BatchRound {
    #[verifier::type_invariant]
    spec fn in_range(self) -> bool {
        self.round < self.inputs.len()
    }

    /// Gives the round up because an agent for it could not be constructed:
    /// the batch returns that failure, and no round is run after it.
    pub fn abandon(self, error: ConstructionError) -> (step: BatchStep)
        ensures
            step@ == self@.abandon(error),
    {
        BatchStep::Return(Err(ExecutionError::Construction(error)))
    }

    /// Takes what the round's parallel call returned.
    pub fn resume(self, outcome: Result<Vec<AgentResult>, ExecutionError>) -> (step: BatchStep)
        ensures
            step@ == self@.resume(return_view(outcome)),
    {
        proof {
            use_type_invariant(&self);
        }
        match outcome {
            Err(error) => BatchStep::Return(Err(error)),
            Ok(round_results) => {
                let BatchRound { configs, inputs, round, results } = self;
                let mut results = results;
                let mut round_results = round_results;
                let ghost before = results@;
                let ghost added = round_results@;
                results.append(&mut round_results);
                assert(result_views(results@) =~= result_views(before) + result_views(added));
                next_step(configs, inputs, round + 1, results)
            },
        }
    }
}

/// Where a batch stands after the outcomes of its rounds, each resumed in
/// turn until one of them makes the batch return.
pub open spec fn drive(
    step: BatchStepView,
    outcomes: Seq<Result<Seq<AgentResultView>, ExecutionErrorView>>,
) -> BatchStepView
    decreases outcomes.len(),
{
    if outcomes.len() == 0 {
        step
    } else {
        match step {
            BatchStepView::Run { round, .. } => drive(
                round.resume(outcomes.first()),
                outcomes.drop_first(),
            ),
            BatchStepView::Return(_) => step,
        }
    }
}

/// The results of several rounds in one list, round after round.
pub open spec fn round_after_round(rounds: Seq<Seq<AgentResultView>>) -> Seq<AgentResultView>
    decreases rounds.len(),
{
    if rounds.len() == 0 {
        Seq::empty()
    } else {
        rounds.first() + round_after_round(rounds.drop_first())
    }
}

/// The outcomes of rounds that all returned their results.
pub open spec fn finished(rounds: Seq<Seq<AgentResultView>>) -> Seq<
    Result<Seq<AgentResultView>, ExecutionErrorView>,
> {
    rounds.map_values(|results: Seq<AgentResultView>| Ok(results))
}

/// Rounds are run one input after the other: a batch that holds the results
/// of its first `round` rounds and sees the next rounds finish stands at the
/// input after them, holding the results of all those rounds in their order.
pub proof fn lemma_batch_round_by_round(
    configs: Seq<(Seq<char>, AgentConfigView)>,
    inputs: Seq<Seq<char>>,
    round: nat,
    results: Seq<AgentResultView>,
    rounds: Seq<Seq<AgentResultView>>,
)
    requires
        round + rounds.len() <= inputs.len(),
    ensures
        drive(batch_step(configs, inputs, round, results), finished(rounds)) == batch_step(
            configs,
            inputs,
            round + rounds.len(),
            results + round_after_round(rounds),
        ),
    decreases rounds.len(),
{
    if rounds.len() == 0 {
        assert(results + round_after_round(rounds) =~= results);
    } else {
        let rest = rounds.drop_first();
        lemma_batch_round_by_round(configs, inputs, round + 1, results + rounds.first(), rest);
        assert(finished(rounds).drop_first() =~= finished(rest));
        assert(results + rounds.first() + round_after_round(rest) =~= results
            + round_after_round(rounds));
    }
}

/// Rounds of `width` results each make a list of `width` results per round,
/// in which the results of a round stand together, before those of the next.
pub proof fn lemma_rounds_stay_together(rounds: Seq<Seq<AgentResultView>>, width: nat)
    requires
        forall|i: int| 0 <= i < rounds.len() ==> (#[trigger] rounds[i]).len() == width,
    ensures
        round_after_round(rounds).len() == width * rounds.len(),
        forall|i: int, j: int|
            0 <= i < rounds.len() && 0 <= j < width ==> round_after_round(rounds)[i * width + j]
                == #[trigger] rounds[i][j],
    decreases rounds.len(),
{
    if rounds.len() > 0 {
        let rest = rounds.drop_first();
        assert forall|i: int| 0 <= i < rest.len() implies (#[trigger] rest[i]).len() == width by {
            assert(rest[i] == rounds[i + 1]);
        }
        lemma_rounds_stay_together(rest, width);
        assert(width * rounds.len() == width + width * rest.len()) by (nonlinear_arith)
            requires
                rounds.len() == rest.len() + 1,
        ;
        assert forall|i: int, j: int|
            0 <= i < rounds.len() && 0 <= j < width implies round_after_round(rounds)[i * width
            + j] == #[trigger] rounds[i][j] by {
            if i == 0 {
                assert(i * width + j == j);
            } else {
                assert(rest[i - 1] == rounds[i]);
                assert(rest[i - 1][j] == rounds[i][j]);
                assert(i * width + j == width + ((i - 1) * width + j)) by (nonlinear_arith);
                assert(0 <= (i - 1) * width + j < width * rest.len()) by (nonlinear_arith)
                    requires
                        0 < i <= rest.len(),
                        0 <= j < width,
                ;
            }
        }
    }
}

/// A batch over `configs` and `inputs` whose rounds each return one result
/// per configuration returns one result per configuration and input, input
/// by input: the results of an input's round stand together, in the order in
/// which the round returned them, before those of the next input.
pub proof fn lemma_batch_returns_input_major(
    configs: Seq<(Seq<char>, AgentConfigView)>,
    inputs: Seq<Seq<char>>,
    rounds: Seq<Seq<AgentResultView>>,
)
    requires
        rounds.len() == inputs.len(),
        forall|i: int| 0 <= i < rounds.len() ==> (#[trigger] rounds[i]).len() == configs.len(),
    ensures
        drive(batch_step(configs, inputs, 0, Seq::empty()), finished(rounds))
            == BatchStepView::Return(Ok(round_after_round(rounds))),
        round_after_round(rounds).len() == configs.len() * inputs.len(),
        forall|i: int, j: int|
            0 <= i < inputs.len() && 0 <= j < configs.len() ==> round_after_round(rounds)[i
                * configs.len() + j] == #[trigger] rounds[i][j],
{
    lemma_batch_round_by_round(configs, inputs, 0, Seq::empty(), rounds);
    assert(Seq::<AgentResultView>::empty() + round_after_round(rounds) =~= round_after_round(
        rounds,
    ));
    lemma_rounds_stay_together(rounds, configs.len());
}

/// What the parallel call of a round over `width` pairs returns when its
/// join point yields `events`.
pub open spec fn round_outcome(width: nat, events: Seq<JoinEventView>) -> Result<
    Seq<AgentResultView>,
    ExecutionErrorView,
> {
    ParallelRunView::start(width).drive(events)->Return_0
}

/// A batch over `configs` and `inputs`, each of whose rounds is a parallel
/// call in which every unit hands in its result, returns one result per
/// configuration and input: first those of the first input, in the order in
/// which its units finished, then those of the second, and so on.
pub proof fn lemma_batch_of_parallel_rounds(
    configs: Seq<(Seq<char>, AgentConfigView)>,
    inputs: Seq<Seq<char>>,
    traces: Seq<Seq<JoinEventView>>,
)
    requires
        traces.len() == inputs.len(),
        forall|i: int| 0 <= i < traces.len() ==> all_join(#[trigger] traces[i], configs.len()),
    ensures
        ({
            let outcomes = Seq::new(
                traces.len(),
                |i: int| round_outcome(configs.len(), traces[i]),
            );
            let rounds = Seq::new(traces.len(), |i: int| handed_in(traces[i], configs.len()));
            &&& drive(batch_step(configs, inputs, 0, Seq::empty()), outcomes)
                == BatchStepView::Return(Ok(round_after_round(rounds)))
            &&& round_after_round(rounds).len() == configs.len() * inputs.len()
            &&& forall|i: int, j: int|
                0 <= i < inputs.len() && 0 <= j < configs.len() ==> round_after_round(rounds)[i
                    * configs.len() + j] == (#[trigger] traces[i][j])->Completed_0
        }),
{
    let width = configs.len();
    let outcomes = Seq::new(traces.len(), |i: int| round_outcome(width, traces[i]));
    let rounds = Seq::new(traces.len(), |i: int| handed_in(traces[i], width));
    assert forall|i: int| 0 <= i < traces.len() implies #[trigger] outcomes[i] == Ok::<
        Seq<AgentResultView>,
        ExecutionErrorView,
    >(rounds[i]) by {
        lemma_parallel_returns_one_result_per_pair(width, traces[i], rounds[i]);
    }
    assert(outcomes =~= finished(rounds));
    lemma_batch_returns_input_major(configs, inputs, rounds);
    assert forall|i: int, j: int| 0 <= i < inputs.len() && 0 <= j < width implies round_after_round(
        rounds,
    )[i * width + j] == (#[trigger] traces[i][j])->Completed_0 by {
        assert(rounds[i][j] == traces[i][j]->Completed_0);
    }
}

} // verus!

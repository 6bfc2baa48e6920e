//! The parallel executor's bookkeeping.
//!
//! Every (agent, task) pair is one unit of work, and all units run at the
//! same time. The driver spawns them and reports, one event at a time, what
//! its join point yields; the run decides when the call is over and what it
//! returns.

use vstd::prelude::*;

use crate::agent::{ConstructionError, RustAgent};
use crate::result::{AgentResult, AgentResultView, result_views};

verus! {

/// Why a parallel or batch call as a whole failed.
#[derive(Debug)]
pub enum ExecutionError {
    /// A unit of work could not be joined.
    Join { cause: String },
    /// The units ran dry with a number of results other than the number of
    /// pairs submitted.
    Miscount { submitted: usize, received: usize },
    /// An agent of a batch round could not be constructed.
    Construction(ConstructionError),
}

/// The mathematical content of an [`ExecutionError`].
pub enum ExecutionErrorView {
    Join { cause: Seq<char> },
    Miscount { submitted: nat, received: nat },
    Construction(ConstructionError),
}

impl View for ExecutionError {
    type V = ExecutionErrorView;

    open spec fn view(&self) -> ExecutionErrorView {
        match self {
            ExecutionError::Join { cause } => ExecutionErrorView::Join { cause: cause@ },
            ExecutionError::Miscount { submitted, received } => ExecutionErrorView::Miscount {
                submitted: *submitted as nat,
                received: *received as nat,
            },
            ExecutionError::Construction(error) => ExecutionErrorView::Construction(*error),
        }
    }
}

/// What the driver's join point yields.
#[derive(Debug)]
pub enum JoinEvent {
    /// A unit finished and handed in its result.
    Completed(AgentResult),
    /// A unit could not be joined.
    Lost { cause: String },
    /// No unit is left in flight.
    Drained,
}

/// The mathematical content of a [`JoinEvent`].
pub enum JoinEventView {
    Completed(AgentResultView),
    Lost { cause: Seq<char> },
    Drained,
}

impl View for JoinEvent {
    type V = JoinEventView;

    open spec fn view(&self) -> JoinEventView {
        match self {
            JoinEvent::Completed(result) => JoinEventView::Completed(result@),
            JoinEvent::Lost { cause } => JoinEventView::Lost { cause: cause@ },
            JoinEvent::Drained => JoinEventView::Drained,
        }
    }
}

/// A parallel call under way: how many pairs were submitted, and the results
/// handed in so far, in the order in which they arrived.
#[derive(Debug)]
pub struct ParallelRun {
    submitted: usize,
    results: Vec<AgentResult>,
}

/// The mathematical content of a [`ParallelRun`].
pub struct ParallelRunView {
    pub submitted: nat,
    pub results: Seq<AgentResultView>,
}

impl View for ParallelRun {
    type V = ParallelRunView;

    closed spec fn view(&self) -> ParallelRunView {
        ParallelRunView { submitted: self.submitted as nat, results: result_views(self.results@) }
    }
}

/// What a parallel call does after an event: wait for the next one, or
/// return.
#[derive(Debug)]
pub enum ParallelStep {
    Continue(ParallelRun),
    Return(Result<Vec<AgentResult>, ExecutionError>),
}

/// The mathematical content of a [`ParallelStep`].
pub enum ParallelStepView {
    Continue(ParallelRunView),
    Return(Result<Seq<AgentResultView>, ExecutionErrorView>),
}

/// The mathematical content of what a parallel or batch call returns.
pub open spec fn return_view(outcome: Result<Vec<AgentResult>, ExecutionError>) -> Result<
    Seq<AgentResultView>,
    ExecutionErrorView,
> {
    match outcome {
        Ok(results) => Ok(result_views(results@)),
        Err(error) => Err(error@),
    }
}

impl View for ParallelStep {
    type V = ParallelStepView;

    open spec fn view(&self) -> ParallelStepView {
        match self {
            ParallelStep::Continue(run) => ParallelStepView::Continue(run@),
            ParallelStep::Return(outcome) => ParallelStepView::Return(return_view(*outcome)),
        }
    }
}

impl ParallelRunView {
    /// A call that has just submitted `submitted` pairs.
    pub open spec fn start(submitted: nat) -> ParallelRunView {
        ParallelRunView { submitted, results: Seq::empty() }
    }

    /// The step that `event` brings about.
    ///
    /// A result is appended and the call waits on. A unit that cannot be
    /// joined ends the call with that failure, and no results. When the
    /// units have run dry the call returns its results, provided there is
    /// one for each pair.
    pub open spec fn resume(self, event: JoinEventView) -> ParallelStepView {
        match event {
            JoinEventView::Completed(result) => ParallelStepView::Continue(
                ParallelRunView { submitted: self.submitted, results: self.results.push(result) },
            ),
            JoinEventView::Lost { cause } => ParallelStepView::Return(
                Err(ExecutionErrorView::Join { cause }),
            ),
            JoinEventView::Drained => if self.results.len() == self.submitted {
                ParallelStepView::Return(Ok(self.results))
            } else {
                ParallelStepView::Return(
                    Err(
                        ExecutionErrorView::Miscount {
                            submitted: self.submitted,
                            received: self.results.len(),
                        },
                    ),
                )
            },
        }
    }

    /// Where the call stands after a whole sequence of events, each resumed
    /// in turn until one of them makes the call return.
    pub open spec fn drive(self, events: Seq<JoinEventView>) -> ParallelStepView
        decreases events.len(),
    {
        if events.len() == 0 {
            ParallelStepView::Continue(self)
        } else {
            match self.resume(events.first()) {
                ParallelStepView::Continue(next) => next.drive(events.drop_first()),
                ParallelStepView::Return(outcome) => ParallelStepView::Return(outcome),
            }
        }
    }
}

/// The pairs that two lists make, position by position, as far as both reach.
pub open spec fn paired(agents: Seq<RustAgent>, tasks: Seq<String>) -> Seq<(RustAgent, String)> {
    Seq::new(
        if agents.len() <= tasks.len() {
            agents.len()
        } else {
            tasks.len()
        },
        |i: int| (agents[i], tasks[i]),
    )
}

/// Starts a parallel call: pairs each agent with the task at its position and
/// hands the pairs out as the units of work, all to be spawned at once, each
/// owning its agent and its task. The run that comes with them expects one
/// result for each.
pub fn execute_parallel(agents: Vec<RustAgent>, tasks: Vec<String>) -> (started: (
    Vec<(RustAgent, String)>,
    ParallelRun,
))
    ensures
        started.0@ == paired(agents@, tasks@),
        started.1@ == ParallelRunView::start(started.0@.len()),
{
    let mut agents = agents;
    let mut tasks = tasks;
    let ghost all_agents = agents@;
    let ghost all_tasks = tasks@;
    let count = if agents.len() <= tasks.len() {
        agents.len()
    } else {
        tasks.len()
    };
    agents.truncate(count);
    tasks.truncate(count);
    let mut backwards: Vec<(RustAgent, String)> = Vec::new();
    while agents.len() > 0
        invariant
            agents.len() == tasks.len(),
            agents.len() + backwards.len() == count,
            count == paired(all_agents, all_tasks).len(),
            agents@ == all_agents.take(agents.len() as int),
            tasks@ == all_tasks.take(tasks.len() as int),
            forall|i: int|
                0 <= i < backwards.len() ==> backwards[i] == paired(all_agents, all_tasks)[count
                    - 1 - i],
        decreases agents.len(),
    {
        let agent = agents.pop().unwrap();
        let task = tasks.pop().unwrap();
        backwards.push((agent, task));
    }
    let mut units: Vec<(RustAgent, String)> = Vec::new();
    while backwards.len() > 0
        invariant
            units.len() + backwards.len() == count,
            count == paired(all_agents, all_tasks).len(),
            forall|i: int|
                0 <= i < backwards.len() ==> backwards[i] == paired(all_agents, all_tasks)[count
                    - 1 - i],
            forall|i: int| 0 <= i < units.len() ==> units[i] == paired(all_agents, all_tasks)[i],
        decreases backwards.len(),
    {
        let unit = backwards.pop().unwrap();
        units.push(unit);
    }
    assert(units@ =~= paired(all_agents, all_tasks));
    let run = ParallelRun { submitted: count, results: Vec::new() };
    assert(run@.results =~= Seq::empty());
    (units, run)
}

impl ParallelRun {
    /// Takes the next event of the driver's join point.
    pub fn resume(self, event: JoinEvent) -> (step: ParallelStep)
        ensures
            step@ == self@.resume(event@),
    {
        match event {
            JoinEvent::Completed(result) => {
                let mut run = self;
                run.results.push(result);
                assert(result_views(run.results@) =~= result_views(self.results@).push(result@));
                ParallelStep::Continue(run)
            },
            JoinEvent::Lost { cause } => ParallelStep::Return(Err(ExecutionError::Join { cause })),
            JoinEvent::Drained => {
                if self.results.len() == self.submitted {
                    ParallelStep::Return(Ok(self.results))
                } else {
                    ParallelStep::Return(
                        Err(
                            ExecutionError::Miscount {
                                submitted: self.submitted,
                                received: self.results.len(),
                            },
                        ),
                    )
                }
            },
        }
    }
}

/// The results that the first `count` of `events` hand in, in their order.
pub open spec fn handed_in(events: Seq<JoinEventView>, count: nat) -> Seq<AgentResultView> {
    Seq::new(count, |i: int| events[i]->Completed_0)
}

/// Whether `events` begin with `count` results followed by the report that
/// the units have run dry.
pub open spec fn all_join(events: Seq<JoinEventView>, count: nat) -> bool {
    &&& events.len() > count
    &&& forall|i: int| 0 <= i < count ==> (#[trigger] events[i]) is Completed
    &&& events[count as int] is Drained
}

proof fn lemma_overfull_run_fails(run: ParallelRunView, events: Seq<JoinEventView>)
    requires
        run.results.len() > run.submitted,
    ensures
        !(run.drive(events) matches ParallelStepView::Return(Ok(_))),
    decreases events.len(),
{
    if events.len() > 0 {
        if let ParallelStepView::Continue(next) = run.resume(events.first()) {
            lemma_overfull_run_fails(next, events.drop_first());
        }
    }
}

proof fn lemma_drive_returns_results(
    run: ParallelRunView,
    events: Seq<JoinEventView>,
    results: Seq<AgentResultView>,
)
    requires
        run.results.len() <= run.submitted,
    ensures
        run.drive(events) == ParallelStepView::Return(Ok(results)) <==> {
            let missing = (run.submitted - run.results.len()) as nat;
            all_join(events, missing) && results == run.results + handed_in(events, missing)
        },
    decreases events.len(),
{
    let missing = (run.submitted - run.results.len()) as nat;
    if events.len() > 0 {
        let rest = events.drop_first();
        match events.first() {
            JoinEventView::Completed(result) => {
                let next = run.resume(events.first())->Continue_0;
                if missing == 0 {
                    lemma_overfull_run_fails(next, rest);
                } else {
                    let fewer = (missing - 1) as nat;
                    lemma_drive_returns_results(next, rest, results);
                    assert(all_join(events, missing) <==> all_join(rest, fewer)) by {
                        if all_join(events, missing) {
                            assert forall|i: int| 0 <= i < fewer implies (
                            #[trigger] rest[i]) is Completed by {
                                assert(events[i + 1] is Completed);
                            }
                        }
                        if all_join(rest, fewer) {
                            assert forall|i: int| 0 <= i < missing implies (
                            #[trigger] events[i]) is Completed by {
                                if i > 0 {
                                    assert(rest[i - 1] is Completed);
                                }
                            }
                        }
                    }
                    if all_join(events, missing) {
                        assert forall|i: int| 0 <= i < fewer implies handed_in(rest, fewer)[i]
                            == handed_in(events, missing)[i + 1] by {
                            assert(rest[i] == events[i + 1]);
                        }
                        assert(run.results + handed_in(events, missing) =~= next.results
                            + handed_in(rest, fewer));
                    }
                }
            },
            JoinEventView::Lost { cause } => {
                if missing > 0 {
                    assert(!(events[0] is Completed));
                }
            },
            JoinEventView::Drained => {
                if missing == 0 {
                    assert(run.results + handed_in(events, 0) =~= run.results);
                } else {
                    assert(!(events[0] is Completed));
                }
            },
        }
    }
}

/// A parallel call returns a list of results exactly when every submitted
/// pair has handed in one before the units ran dry, and it then returns
/// those results in the order in which they arrived: as many as there were
/// pairs, never fewer and never more.
pub proof fn lemma_parallel_returns_one_result_per_pair(
    submitted: nat,
    events: Seq<JoinEventView>,
    results: Seq<AgentResultView>,
)
    ensures
        ParallelRunView::start(submitted).drive(events) == ParallelStepView::Return(Ok(results))
            <==> all_join(events, submitted) && results == handed_in(events, submitted),
        ParallelRunView::start(submitted).drive(events) == ParallelStepView::Return(Ok(results))
            ==> results.len() == submitted,
{
    let run = ParallelRunView::start(submitted);
    lemma_drive_returns_results(run, events, results);
    assert(run.results + handed_in(events, submitted) =~= handed_in(events, submitted));
}

} // verus!

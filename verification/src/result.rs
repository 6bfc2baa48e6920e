//! The outcome of one execution.

use vstd::prelude::*;
use vstd::string::*;

use crate::exchange::{Failure, FailureView, outcome_view};

verus! {

/// Status marker of an execution whose backend answered successfully.
pub const STATUS_COMPLETED: &'static str = "completed";

/// Status marker of an execution that failed.
pub const STATUS_FAILED: &'static str = "failed";

/// What one execution produced.
#[derive(Debug)]
pub struct AgentResult {
    /// Correlation id of this execution, fresh for every call. It is not the
    /// agent's configured name.
    pub agent_id: String,
    pub status: String,
    pub output: Option<String>,
    pub error: Option<String>,
    pub duration_ms: u128,
}

/// The mathematical content of an [`AgentResult`].
pub struct AgentResultView {
    pub agent_id: Seq<char>,
    pub status: Seq<char>,
    pub output: Option<Seq<char>>,
    pub error: Option<Seq<char>>,
    pub duration_ms: u128,
}

/// The characters of an optional string.
pub open spec fn text_view(text: Option<String>) -> Option<Seq<char>> {
    match text {
        Some(text) => Some(text@),
        None => None,
    }
}

impl View for AgentResult {
    type V = AgentResultView;

    open spec fn view(&self) -> AgentResultView {
        AgentResultView {
            agent_id: self.agent_id@,
            status: self.status@,
            output: text_view(self.output),
            error: text_view(self.error),
            duration_ms: self.duration_ms,
        }
    }
}

/// The mathematical content of a list of results, in the same order.
pub open spec fn result_views(results: Seq<AgentResult>) -> Seq<AgentResultView> {
    results.map_values(|result: AgentResult| result@)
}

impl AgentResultView {
    /// Whether the status is exactly the completed marker.
    pub open spec fn completed(self) -> bool {
        self.status == STATUS_COMPLETED@
    }

    /// The result of an execution with correlation id `agent_id` that took
    /// `duration_ms` and came to `outcome`: completed with the generated
    /// text, or failed with the failure's message.
    pub open spec fn shaped(
        agent_id: Seq<char>,
        outcome: Result<Option<Seq<char>>, FailureView>,
        duration_ms: u128,
    ) -> AgentResultView {
        match outcome {
            Ok(output) => AgentResultView {
                agent_id,
                status: STATUS_COMPLETED@,
                output,
                error: None,
                duration_ms,
            },
            Err(failure) => AgentResultView {
                agent_id,
                status: STATUS_FAILED@,
                output: None,
                error: Some(failure.message()),
                duration_ms,
            },
        }
    }
}

impl AgentResult {
    /// Shapes the result of one execution from what its exchange came to.
    pub fn from_outcome(
        agent_id: String,
        outcome: Result<Option<String>, Failure>,
        duration_ms: u128,
    ) -> (result: AgentResult)
        ensures
            result@ == AgentResultView::shaped(agent_id@, outcome_view(outcome), duration_ms),
    {
        match outcome {
            Ok(output) => AgentResult {
                agent_id,
                status: String::from_str(STATUS_COMPLETED),
                output,
                error: None,
                duration_ms,
            },
            Err(failure) => AgentResult {
                agent_id,
                status: String::from_str(STATUS_FAILED),
                output: None,
                error: Some(failure.message()),
                duration_ms,
            },
        }
    }

    /// Whether the status is exactly the completed marker.
    pub fn is_completed(&self) -> (completed: bool)
        ensures
            completed == self@.completed(),
    {
        let marker = String::from_str(STATUS_COMPLETED);
        self.status == marker
    }
}

/// A failed execution is reported as such: its result does not count as
/// completed, has no output, and carries a non-empty cause. A successful one
/// counts as completed and carries no cause.
pub proof fn lemma_outcome_decides_status(
    agent_id: Seq<char>,
    outcome: Result<Option<Seq<char>>, FailureView>,
    duration_ms: u128,
)
    ensures
        ({
            let result = AgentResultView::shaped(agent_id, outcome, duration_ms);
            &&& result.completed() <==> outcome is Ok
            &&& outcome is Ok ==> result.error is None
            &&& outcome is Err ==> result.output is None && result.error is Some
                && result.error->0.len() > 0
        }),
{
    reveal_strlit("completed");
    reveal_strlit("failed");
    reveal_strlit("request failed: ");
    reveal_strlit("backend returned HTTP status ");
    reveal_strlit("response body is not valid JSON");
    assert("completed"@.len() != "failed"@.len());
}

} // verus!

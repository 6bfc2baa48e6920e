//! The agent: one configuration, one HTTP client, one operation.

use vstd::prelude::*;

use crate::config::{AgentConfig, AgentConfigView, config_views};
use crate::exchange::{Exchange, interpret, interpretation};
use crate::ident::{CORRELATION_ID_LEN, fresh_correlation_id};
use crate::request::{GenerateRequest, GenerateRequestView, request_for};
use crate::result::{AgentResult, AgentResultView};

verus! {

#[verifier::external_type_specification]
#[verifier::external_body]
pub struct ExClient(reqwest::Client);

#[verifier::external_type_specification]
#[verifier::external_body]
pub struct ExClientBuilder(reqwest::ClientBuilder);

#[verifier::external_type_specification]
#[verifier::external_body]
pub struct ExClientError(reqwest::Error);

/// The whole seconds that a duration holds.
pub uninterp spec fn whole_seconds(duration: core::time::Duration) -> u64;

/// The total timeout that a client builder has been given, in whole
/// seconds, if it has been given one.
pub uninterp spec fn builder_timeout(builder: reqwest::ClientBuilder) -> Option<u64>;

/// The total timeout that bounds every request of a client, in whole
/// seconds, if it has one.
pub uninterp spec fn client_timeout(client: reqwest::Client) -> Option<u64>;

/// `Duration::from_secs` of std. Trusted: the duration holds the given
/// number of whole seconds.
pub assume_specification[ core::time::Duration::from_secs ](secs: u64) -> (duration:
    core::time::Duration)
    ensures
        whole_seconds(duration) == secs,
;

/// `reqwest::Client::builder`. Nothing is claimed of the builder.
pub assume_specification[ reqwest::Client::builder ]() -> reqwest::ClientBuilder;

/// `reqwest::ClientBuilder::timeout`. Trusted: the builder that comes back
/// has the given duration as its total timeout.
pub assume_specification[ reqwest::ClientBuilder::timeout ](
    builder: reqwest::ClientBuilder,
    timeout: core::time::Duration,
) -> (configured: reqwest::ClientBuilder)
    ensures
        builder_timeout(configured) == Some(whole_seconds(timeout)),
;

/// `reqwest::ClientBuilder::build`. Trusted: a client that is built has the
/// builder's total timeout. Nothing is claimed of whether one is built: that
/// depends on the machine.
pub assume_specification[ reqwest::ClientBuilder::build ](builder: reqwest::ClientBuilder) -> (built:
    Result<reqwest::Client, reqwest::Error>)
    ensures
        built matches Ok(client) ==> client_timeout(client) == builder_timeout(builder),
;

/// Why an agent could not be constructed.
#[derive(Debug)]
pub enum ConstructionError {
    /// The HTTP client could not be built.
    Client(reqwest::Error),
}

/// One configured client of an inference backend.
pub struct RustAgent {
    config: AgentConfig,
    client: reqwest::Client,
}

/// One execution under way: its request has been handed out and its outcome
/// is awaited. Finishing consumes it, so that one request gives one result.
#[derive(Debug)]
pub struct Execution {
    request: GenerateRequest,
}

impl RustAgent {
    /// The configuration the agent was made with.
    pub closed spec fn configuration(&self) -> AgentConfigView {
        self.config@
    }

    /// The HTTP client the agent owns.
    pub closed spec fn http_client(&self) -> reqwest::Client {
        self.client
    }

    /// Whether every request of the agent's client is bounded by the
    /// configured timeout.
    pub open spec fn bounded(&self) -> bool {
        client_timeout(self.http_client()) == Some(self.configuration().timeout_seconds)
    }

    /// Puts an agent together from its configuration and the outcome of
    /// building its client.
    pub fn assemble(config: AgentConfig, built: Result<reqwest::Client, reqwest::Error>) -> (agent:
        Result<RustAgent, ConstructionError>)
        ensures
            match built {
                Ok(client) => agent matches Ok(agent) && agent.configuration() == config@
                    && agent.http_client() == client,
                Err(error) => agent matches Err(ConstructionError::Client(cause)) && cause
                    == error,
            },
    {
        match built {
            Ok(client) => Ok(RustAgent { config, client }),
            Err(error) => Err(ConstructionError::Client(error)),
        }
    }

    /// Makes an agent for `config`, with an HTTP client whose timeout is the
    /// configured one. Fails only when that client cannot be built.
    pub fn new(config: AgentConfig) -> (agent: Result<RustAgent, ConstructionError>)
        ensures
            agent matches Ok(agent) ==> agent.configuration() == config@ && agent.bounded(),
    {
        let built = reqwest::Client::builder().timeout(
            core::time::Duration::from_secs(config.timeout_seconds),
        ).build();
        RustAgent::assemble(config, built)
    }

    /// The configuration the agent was made with.
    pub fn config(&self) -> (config: &AgentConfig)
        ensures
            config@ == self.configuration(),
    {
        &self.config
    }

    /// The HTTP client the agent owns, for the driver to send with.
    pub fn client(&self) -> (client: &reqwest::Client)
        ensures
            *client == self.http_client(),
    {
        &self.client
    }

    /// Starts one execution of `task`: the driver is to post the execution's
    /// request once, bounded by the agent's timeout, and to finish the
    /// execution with what came of it.
    pub fn execute(&self, task: &str) -> (execution: Execution)
        ensures
            execution.pending() == request_for(self.configuration(), task@),
    {
        Execution { request: GenerateRequest::new(&self.config, task) }
    }
}

/// The configurations of a list of agents, in the same order.
pub open spec fn agent_configs(agents: Seq<RustAgent>) -> Seq<AgentConfigView> {
    agents.map_values(|agent: RustAgent| agent.configuration())
}

/// Makes an agent for each configuration, in the same order, each with a
/// client of its own. Fails as soon as one client cannot be built; with no
/// configuration there is no client to build, and the empty list of agents
/// is returned.
pub fn build_agents(configs: &Vec<AgentConfig>) -> (agents: Result<
    Vec<RustAgent>,
    ConstructionError,
>)
    ensures
        agents matches Ok(agents) ==> agents@.len() == configs@.len() && agent_configs(agents@)
            == config_views(configs@) && forall|k: int|
            0 <= k < agents@.len() ==> (#[trigger] agents@[k]).bounded(),
        configs@.len() == 0 ==> (agents matches Ok(agents) && agents@.len() == 0),
{
    let mut agents: Vec<RustAgent> = Vec::new();
    let mut i: usize = 0;
    while i < configs.len()
        invariant
            i <= configs.len(),
            agents.len() == i,
            forall|k: int|
                0 <= k < i ==> (#[trigger] agents[k]).configuration() == configs[k]@
                    && agents[k].bounded(),
        decreases configs.len() - i,
    {
        match RustAgent::new(configs[i].clone()) {
            Ok(agent) => {
                agents.push(agent);
            },
            Err(error) => {
                return Err(error);
            },
        }
        i += 1;
    }
    assert(agent_configs(agents@) =~= config_views(configs@));
    Ok(agents)
}

impl Execution {
    /// The request this execution waits on.
    pub closed spec fn pending(&self) -> GenerateRequestView {
        self.request@
    }

    /// The request this execution waits on.
    pub fn request(&self) -> (request: &GenerateRequest)
        ensures
            request@ == self.pending(),
    {
        &self.request
    }

    /// Ends the execution with the outcome of its round trip and the
    /// milliseconds that passed from just before the request was issued to
    /// just after the outcome was known.
    ///
    /// The result is completed, with the generated text, when the backend
    /// answered successfully with a JSON document; it is failed, with the
    /// cause, otherwise. Its correlation id is fresh and its duration is the
    /// elapsed time.
    pub fn finish(self, exchange: Exchange, elapsed_ms: u128) -> (result: AgentResult)
        ensures
            result@ == AgentResultView::shaped(
                result.agent_id@,
                interpretation(exchange@),
                elapsed_ms,
            ),
            result.agent_id@.len() == CORRELATION_ID_LEN,
    {
        let outcome = interpret(exchange);
        AgentResult::from_outcome(fresh_correlation_id(), outcome, elapsed_ms)
    }
}

} // verus!

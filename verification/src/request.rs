//! The request an agent asks its driver to send.

use vstd::prelude::*;
use vstd::string::*;

use crate::config::{AgentConfig, AgentConfigView, Temperature};

verus! {

/// Path of the generation endpoint below an agent's base URL.
pub const GENERATE_PATH: &'static str = "/api/generate";

/// One generation request: where to post it and what its JSON body holds.
/// The whole answer is asked for in one payload, so `stream` is off.
#[derive(Debug)]
pub struct GenerateRequest {
    pub url: String,
    pub model: String,
    pub prompt: String,
    pub temperature: Temperature,
    pub stream: bool,
}

/// The mathematical content of a [`GenerateRequest`].
pub struct GenerateRequestView {
    pub url: Seq<char>,
    pub model: Seq<char>,
    pub prompt: Seq<char>,
    pub temperature: Temperature,
    pub stream: bool,
}

impl View for GenerateRequest {
    type V = GenerateRequestView;

    open spec fn view(&self) -> GenerateRequestView {
        GenerateRequestView {
            url: self.url@,
            model: self.model@,
            prompt: self.prompt@,
            temperature: self.temperature,
            stream: self.stream,
        }
    }
}

/// The request that submits `task` under `config`.
pub open spec fn request_for(config: AgentConfigView, task: Seq<char>) -> GenerateRequestView {
    GenerateRequestView {
        url: config.ollama_url + GENERATE_PATH@,
        model: config.model,
        prompt: task,
        temperature: config.temperature,
        stream: false,
    }
}

impl GenerateRequest {
    /// Builds the request that submits `task` under `config`.
    pub fn new(config: &AgentConfig, task: &str) -> (request: GenerateRequest)
        ensures
            request@ == request_for(config@, task@),
    {
        GenerateRequest {
            url: config.ollama_url.clone().concat(GENERATE_PATH),
            model: config.model.clone(),
            prompt: String::from_str(task),
            temperature: config.temperature,
            stream: false,
        }
    }
}

} // verus!

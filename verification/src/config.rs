//! Agent configuration.

use vstd::prelude::*;

verus! {

/// A sampling temperature, kept as the bit pattern of an IEEE-754
/// single-precision number. The core never interprets it; it only carries
/// it from the configuration into the request.
#[derive(Clone, Copy, Debug, PartialEq, Eq, Structural)]
pub struct Temperature {
    pub bits: u32,
}

impl Temperature {
    pub fn from_bits(bits: u32) -> (t: Temperature)
        ensures
            t.bits == bits,
    {
        Temperature { bits }
    }

    pub fn to_bits(&self) -> (bits: u32)
        ensures
            bits == self.bits,
    {
        self.bits
    }
}

/// Everything an agent needs to know to talk to its backend.
#[derive(Debug)]
pub struct AgentConfig {
    pub name: String,
    pub model: String,
    pub ollama_url: String,
    pub temperature: Temperature,
    pub timeout_seconds: u64,
}

/// The mathematical content of an [`AgentConfig`].
pub struct AgentConfigView {
    pub name: Seq<char>,
    pub model: Seq<char>,
    pub ollama_url: Seq<char>,
    pub temperature: Temperature,
    pub timeout_seconds: u64,
}

impl View for AgentConfig {
    type V = AgentConfigView;

    open spec fn view(&self) -> AgentConfigView {
        AgentConfigView {
            name: self.name@,
            model: self.model@,
            ollama_url: self.ollama_url@,
            temperature: self.temperature,
            timeout_seconds: self.timeout_seconds,
        }
    }
}

impl AgentConfigView {
    /// The same configuration under another name.
    pub open spec fn renamed(self, name: Seq<char>) -> AgentConfigView {
        AgentConfigView { name, ..self }
    }
}

/// The mathematical content of a list of configurations, in the same order.
pub open spec fn config_views(configs: Seq<AgentConfig>) -> Seq<AgentConfigView> {
    configs.map_values(|config: AgentConfig| config@)
}

impl Clone for AgentConfig {
    fn clone(&self) -> (copy: AgentConfig)
        ensures
            copy@ == self@,
    {
        AgentConfig {
            name: self.name.clone(),
            model: self.model.clone(),
            ollama_url: self.ollama_url.clone(),
            temperature: self.temperature,
            timeout_seconds: self.timeout_seconds,
        }
    }
}

impl AgentConfig {
    /// The same configuration under the name `id`.
    pub fn renamed(self, id: String) -> (config: AgentConfig)
        ensures
            config@ == self@.renamed(id@),
    {
        AgentConfig { name: id, ..self }
    }
}

} // verus!

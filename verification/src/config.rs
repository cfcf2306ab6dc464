//! Agent configuration: the set of launchable agents.
//!
//! The configuration artifact is parsed outside and handed in as plain
//! values: a schema version and one entry per agent id.  Validation —
//! rejecting unsupported versions, defaulting a missing label to the id —
//! happens here; only a validated [`AgentsConfig`] ever becomes listable.

use vstd::prelude::*;
use crate::text::decimal_rep;
use crate::text::decimal_string;

verus! {

/// The schema version this engine accepts.
pub const SUPPORTED_CONFIG_VERSION: u32 = 1;

/// One environment variable override for a spawned process.
#[derive(Debug)]
pub struct EnvVar {
    pub name: String,
    pub value: String,
}

/// Abstract value of an environment variable.
pub struct EnvVarView {
    pub name: Seq<char>,
    pub value: Seq<char>,
}

impl View for EnvVar {
    type V = EnvVarView;

    open spec fn view(&self) -> EnvVarView {
        EnvVarView { name: self.name@, value: self.value@ }
    }
}

impl Clone for EnvVar {
    fn clone(&self) -> (r: Self)
        ensures
            r@ == self@,
    {
        EnvVar { name: self.name.clone(), value: self.value.clone() }
    }
}

/// Launch spec of one auxiliary server the agent is told about at session
/// start: the engine never talks to these itself.
#[derive(Debug)]
pub struct MCPServerConfig {
    pub command: String,
    pub args: Vec<String>,
    pub env: Vec<EnvVar>,
}

/// Abstract value of an auxiliary server spec.
pub struct MCPServerConfigView {
    pub command: Seq<char>,
    pub args: Seq<Seq<char>>,
    pub env: Seq<EnvVarView>,
}

impl View for MCPServerConfig {
    type V = MCPServerConfigView;

    open spec fn view(&self) -> MCPServerConfigView {
        MCPServerConfigView {
            command: self.command@,
            args: self.args@.map_values(|s: String| s@),
            env: self.env@.map_values(|e: EnvVar| e@),
        }
    }
}

impl Clone for MCPServerConfig {
    fn clone(&self) -> (r: Self)
        ensures
            r@ == self@,
    {
        let r = MCPServerConfig {
            command: self.command.clone(),
            args: self.args.clone(),
            env: self.env.clone(),
        };
        proof {
            assert(r.args@ =~= self.args@);
            assert(r.env@.map_values(|e: EnvVar| e@) =~= self.env@.map_values(|e: EnvVar| e@));
        }
        r
    }
}

/// An auxiliary server spec under its name.
#[derive(Debug)]
pub struct McpServerEntry {
    pub name: String,
    pub config: MCPServerConfig,
}

/// Abstract value of a named auxiliary server spec.
pub struct McpServerEntryView {
    pub name: Seq<char>,
    pub config: MCPServerConfigView,
}

impl View for McpServerEntry {
    type V = McpServerEntryView;

    open spec fn view(&self) -> McpServerEntryView {
        McpServerEntryView { name: self.name@, config: self.config@ }
    }
}

impl Clone for McpServerEntry {
    fn clone(&self) -> (r: Self)
        ensures
            r@ == self@,
    {
        McpServerEntry { name: self.name.clone(), config: self.config.clone() }
    }
}

/// A launchable agent, as validated.
#[derive(Debug)]
pub struct AgentConfig {
    pub id: String,
    pub label: String,
    pub command: String,
    pub args: Vec<String>,
    pub env: Vec<EnvVar>,
    pub mcp_servers: Vec<McpServerEntry>,
}

/// Abstract value of a launchable agent.
pub struct AgentConfigView {
    pub id: Seq<char>,
    pub label: Seq<char>,
    pub command: Seq<char>,
    pub args: Seq<Seq<char>>,
    pub env: Seq<EnvVarView>,
    pub mcp_servers: Seq<McpServerEntryView>,
}

impl View for AgentConfig {
    type V = AgentConfigView;

    open spec fn view(&self) -> AgentConfigView {
        AgentConfigView {
            id: self.id@,
            label: self.label@,
            command: self.command@,
            args: self.args@.map_values(|s: String| s@),
            env: self.env@.map_values(|e: EnvVar| e@),
            mcp_servers: self.mcp_servers@.map_values(|m: McpServerEntry| m@),
        }
    }
}

impl Clone for AgentConfig {
    fn clone(&self) -> (r: Self)
        ensures
            r@ == self@,
    {
        let r = AgentConfig {
            id: self.id.clone(),
            label: self.label.clone(),
            command: self.command.clone(),
            args: self.args.clone(),
            env: self.env.clone(),
            mcp_servers: self.mcp_servers.clone(),
        };
        proof {
            assert(r.args@ =~= self.args@);
            assert(r.env@.map_values(|e: EnvVar| e@) =~= self.env@.map_values(|e: EnvVar| e@));
            assert(r.mcp_servers@.map_values(|m: McpServerEntry| m@) =~= self.mcp_servers@
                .map_values(|m: McpServerEntry| m@));
        }
        r
    }
}

/// An agent entry as parsed, before validation.
#[derive(Debug)]
pub struct RawAgentConfig {
    pub label: Option<String>,
    pub command: String,
    pub args: Vec<String>,
    pub env: Vec<EnvVar>,
    pub mcp_servers: Vec<McpServerEntry>,
}

/// Abstract value of a parsed agent entry.
pub struct RawAgentConfigView {
    pub label: Option<Seq<char>>,
    pub command: Seq<char>,
    pub args: Seq<Seq<char>>,
    pub env: Seq<EnvVarView>,
    pub mcp_servers: Seq<McpServerEntryView>,
}

impl View for RawAgentConfig {
    type V = RawAgentConfigView;

    open spec fn view(&self) -> RawAgentConfigView {
        RawAgentConfigView {
            label: match self.label {
                Some(l) => Some(l@),
                None => None,
            },
            command: self.command@,
            args: self.args@.map_values(|s: String| s@),
            env: self.env@.map_values(|e: EnvVar| e@),
            mcp_servers: self.mcp_servers@.map_values(|m: McpServerEntry| m@),
        }
    }
}

/// One parsed agent entry under its id.
#[derive(Debug)]
pub struct RawAgentEntry {
    pub id: String,
    pub agent: RawAgentConfig,
}

/// Abstract value of a parsed agent entry under its id.
pub struct RawAgentEntryView {
    pub id: Seq<char>,
    pub agent: RawAgentConfigView,
}

impl View for RawAgentEntry {
    type V = RawAgentEntryView;

    open spec fn view(&self) -> RawAgentEntryView {
        RawAgentEntryView { id: self.id@, agent: self.agent@ }
    }
}

/// The configuration artifact as parsed, before validation.
#[derive(Debug)]
pub struct RawAgentsConfig {
    pub version: u32,
    pub agents: Vec<RawAgentEntry>,
}

/// The validated set of launchable agents.
#[derive(Debug)]
pub struct AgentsConfig {
    pub agents: Vec<AgentConfig>,
}

/// Environment variable names are pairwise distinct; the artifact's JSON
/// objects key each variable by name, so what the parser hands in
/// satisfies this.
pub open spec fn distinct_env_names(env: Seq<EnvVarView>) -> bool {
    forall|i: int, j: int|
        0 <= i < j < env.len() ==> (#[trigger] env[i]).name != (#[trigger] env[j]).name
}

/// The agent's own environment and that of each of its auxiliary servers
/// hold no repeated variable name.
pub open spec fn agent_env_wf(a: AgentConfigView) -> bool {
    &&& distinct_env_names(a.env)
    &&& forall|m: int|
        0 <= m < a.mcp_servers.len() ==> distinct_env_names(
            (#[trigger] a.mcp_servers[m]).config.env,
        )
}

/// The same, of an entry as parsed.
pub open spec fn raw_entry_env_wf(e: RawAgentEntryView) -> bool {
    &&& distinct_env_names(e.agent.env)
    &&& forall|m: int|
        0 <= m < e.agent.mcp_servers.len() ==> distinct_env_names(
            (#[trigger] e.agent.mcp_servers[m]).config.env,
        )
}

/// Parsed entry ids are pairwise distinct; the artifact keys its entries
/// by agent id, so what the parser hands in satisfies this.
pub open spec fn distinct_raw_ids(entries: Seq<RawAgentEntry>) -> bool {
    forall|i: int, j: int|
        0 <= i < j < entries.len() ==> (#[trigger] entries[i]).id@ != (#[trigger] entries[j]).id@
}

/// Agent ids are pairwise distinct.
pub open spec fn distinct_agent_ids(agents: Seq<AgentConfig>) -> bool {
    forall|i: int, j: int|
        0 <= i < j < agents.len() ==> (#[trigger] agents[i]).id@ != (#[trigger] agents[j]).id@
}

/// Index `k` holds the first agent whose id is `id`.
pub open spec fn found_agent_index(agents: Seq<AgentConfig>, id: Seq<char>, k: int) -> bool {
    &&& 0 <= k < agents.len()
    &&& agents[k].id@ == id
    &&& forall|j: int| 0 <= j < k ==> agents[j].id@ != id
}

impl AgentsConfig {
    /// Well-formed: each id names at most one agent, and no environment
    /// holds a repeated variable name — what the artifact's id-keyed and
    /// name-keyed objects guarantee of anything parsed from it.
    pub open spec fn wf(self) -> bool {
        &&& distinct_agent_ids(self.agents@)
        &&& forall|k: int|
            0 <= k < self.agents@.len() ==> agent_env_wf((#[trigger] self.agents@[k])@)
    }

    /// Looks up an agent by id; the first entry with that id, if any.
    pub fn find(&self, id: &str) -> (r: Option<AgentConfig>)
        ensures
            match r {
                None => forall|j: int|
                    0 <= j < self.agents@.len() ==> (#[trigger] self.agents@[j]).id@ != id@,
                Some(a) => exists|k: int|
                    found_agent_index(self.agents@, id@, k) && a@ == self.agents@[k]@,
            },
    {
        let n = self.agents.len();
        let mut k: usize = 0;
        while k < n
            invariant
                k <= n,
                n == self.agents@.len(),
                forall|j: int| 0 <= j < k ==> (#[trigger] self.agents@[j]).id@ != id@,
            decreases n - k,
        {
            if crate::text::str_eq(self.agents[k].id.as_str(), id) {
                let a = self.agents[k].clone();
                proof {
                    assert(found_agent_index(self.agents@, id@, k as int));
                }
                return Some(a);
            }
            k += 1;
        }
        None
    }
}

/// Why a configuration artifact was rejected.
#[derive(Debug)]
pub struct ConfigError {
    pub version: u32,
}

/// The text reported for a rejected configuration version.
pub open spec fn spec_config_error_message(version: u32) -> Seq<char> {
    "unsupported agent config version "@ + decimal_rep(version as nat) + " (expected 1)"@
}

impl ConfigError {
    /// A description of the rejection.
    pub fn message(&self) -> (r: String)
        ensures
            r@ == spec_config_error_message(self.version),
    {
        let mut s = "unsupported agent config version ".to_owned();
        s.append(decimal_string(self.version as u64).as_str());
        s.append(" (expected 1)");
        s
    }
}

/// The validated form of one parsed entry: the label defaults to the id.
pub open spec fn cooked_agent(e: RawAgentEntryView) -> AgentConfigView {
    AgentConfigView {
        id: e.id,
        label: match e.agent.label {
            Some(l) => l,
            None => e.id,
        },
        command: e.agent.command,
        args: e.agent.args,
        env: e.agent.env,
        mcp_servers: e.agent.mcp_servers,
    }
}

/// Validates a parsed configuration.  Any version other than the supported
/// one is rejected before any agent becomes listable; each accepted entry
/// keeps its launch spec, with a missing label defaulted to the agent id.
/// Entries with distinct ids and well-formed environments — which the
/// id-keyed, name-keyed artifact guarantees — yield a well-formed
/// configuration.
pub fn agents_from_raw(raw: RawAgentsConfig) -> (r: Result<AgentsConfig, ConfigError>)
    ensures
        match r {
            Err(e) => raw.version != SUPPORTED_CONFIG_VERSION && e.version == raw.version,
            Ok(config) => {
                &&& raw.version == SUPPORTED_CONFIG_VERSION
                &&& config.agents@.len() == raw.agents@.len()
                &&& forall|k: int|
                    0 <= k < raw.agents@.len() ==> (#[trigger] config.agents@[k])@
                        == cooked_agent(raw.agents@[k]@)
                &&& (distinct_raw_ids(raw.agents@) && (forall|k: int|
                    0 <= k < raw.agents@.len() ==> raw_entry_env_wf(
                        (#[trigger] raw.agents@[k])@,
                    )) ==> config.wf())
            },
        },
{
    if raw.version != SUPPORTED_CONFIG_VERSION {
        return Err(ConfigError { version: raw.version });
    }
    let ghost orig = raw.agents@;
    let mut remaining = raw.agents;
    let mut agents: Vec<AgentConfig> = Vec::new();
    while remaining.len() > 0
        invariant
            agents@.len() + remaining@.len() == orig.len(),
            remaining@ =~= orig.skip(agents@.len() as int),
            forall|k: int|
                0 <= k < agents@.len() ==> (#[trigger] agents@[k])@ == cooked_agent(orig[k]@),
        decreases remaining@.len(),
    {
        let ghost done = agents@.len() as int;
        let entry = remaining.remove(0);
        proof {
            assert(entry == orig[done]);
        }
        let label = match entry.agent.label {
            Some(l) => l,
            None => entry.id.clone(),
        };
        let cooked = AgentConfig {
            id: entry.id,
            label,
            command: entry.agent.command,
            args: entry.agent.args,
            env: entry.agent.env,
            mcp_servers: entry.agent.mcp_servers,
        };
        agents.push(cooked);
        proof {
            assert(remaining@ =~= orig.skip(done + 1));
        }
    }
    proof {
        let cooked = agents@;
        if distinct_raw_ids(orig) && (forall|k: int|
            0 <= k < orig.len() ==> raw_entry_env_wf((#[trigger] orig[k])@)) {
            assert forall|i: int, j: int| 0 <= i < j < cooked.len() implies (
            #[trigger] cooked[i]).id@ != (#[trigger] cooked[j]).id@ by {
                assert(cooked[i]@ == cooked_agent(orig[i]@));
                assert(cooked[j]@ == cooked_agent(orig[j]@));
            }
            assert forall|k: int| 0 <= k < cooked.len() implies agent_env_wf(
                (#[trigger] cooked[k])@,
            ) by {
                assert(cooked[k]@ == cooked_agent(orig[k]@));
                assert(raw_entry_env_wf(orig[k]@));
            }
        }
    }
    Ok(AgentsConfig { agents })
}

} // verus!

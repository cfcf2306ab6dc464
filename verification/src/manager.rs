//! Session supervisor and engine state.
//!
//! One session at a time: the manager holds the validated configuration and
//! at most one active session.  Starting is legal only with no session
//! alive and leaves an existing session untouched when refused; stopping
//! always ends with no session.  Commands directed at the agent — prompts
//! and mode changes — are modelled as queue items: the caller's worker
//! performs the round trip and the manager only decides whether a command
//! may be issued at all.

use vstd::prelude::*;
use crate::config::{AgentsConfig, AgentConfig, AgentConfigView, found_agent_index};
use crate::sandbox::{Resolution, ResolutionView};

verus! {

/// An agent as listed to the surrounding application.
#[derive(Debug)]
pub struct AgentSummary {
    pub id: String,
    pub label: String,
}

/// The summary carries the agent's id and label.
pub open spec fn summary_matches(s: AgentSummary, a: AgentConfigView) -> bool {
    s.id@ == a.id && s.label@ == a.label
}

/// One mode an agent offers.
#[derive(Debug)]
pub struct SessionMode {
    pub id: String,
    pub name: String,
}

/// Abstract value of a session mode.
pub struct SessionModeView {
    pub id: Seq<char>,
    pub name: Seq<char>,
}

impl View for SessionMode {
    type V = SessionModeView;

    open spec fn view(&self) -> SessionModeView {
        SessionModeView { id: self.id@, name: self.name@ }
    }
}

impl Clone for SessionMode {
    fn clone(&self) -> (r: Self)
        ensures
            r@ == self@,
    {
        SessionMode { id: self.id.clone(), name: self.name.clone() }
    }
}

/// The mode state an agent reported at session start.
#[derive(Debug)]
pub struct ModeSummary {
    pub current_mode_id: String,
    pub available_modes: Vec<SessionMode>,
}

/// Abstract value of a mode state.
pub struct ModeSummaryView {
    pub current_mode_id: Seq<char>,
    pub available_modes: Seq<SessionModeView>,
}

impl View for ModeSummary {
    type V = ModeSummaryView;

    open spec fn view(&self) -> ModeSummaryView {
        ModeSummaryView {
            current_mode_id: self.current_mode_id@,
            available_modes: self.available_modes@.map_values(|m: SessionMode| m@),
        }
    }
}

impl Clone for ModeSummary {
    fn clone(&self) -> (r: Self)
        ensures
            r@ == self@,
    {
        let r = ModeSummary {
            current_mode_id: self.current_mode_id.clone(),
            available_modes: self.available_modes.clone(),
        };
        proof {
            assert(r.available_modes@.map_values(|m: SessionMode| m@) =~= self.available_modes@
                .map_values(|m: SessionMode| m@));
        }
        r
    }
}

/// Abstract value of an optional mode state.
pub open spec fn opt_modes_view(o: Option<ModeSummary>) -> Option<ModeSummaryView> {
    match o {
        Some(m) => Some(m@),
        None => None,
    }
}

/// The single active session: the agent it runs, the opaque session id the
/// agent assigned during the handshake, and the mode state if the agent
/// supports modes.  Process and channel handles live with the caller.
pub struct AcpSession {
    pub agent_id: String,
    pub session_id: String,
    pub modes: Option<ModeSummary>,
}

/// Abstract value of a session.
pub struct SessionView {
    pub agent_id: Seq<char>,
    pub session_id: Seq<char>,
    pub modes: Option<ModeSummaryView>,
}

impl View for AcpSession {
    type V = SessionView;

    open spec fn view(&self) -> SessionView {
        SessionView {
            agent_id: self.agent_id@,
            session_id: self.session_id@,
            modes: opt_modes_view(self.modes),
        }
    }
}

/// What a successful start reports to the surrounding application.
pub struct AcpSessionInfo {
    pub agent_id: String,
    pub session_id: String,
    pub modes: Option<ModeSummary>,
}

/// A command for the session's single ordered command loop.  The caller's
/// worker dequeues these one at a time, performs the round trip with the
/// agent, and answers the enqueuer through its reply channel, so two
/// concurrent calls are never interleaved mid-request.
pub enum AcpCommand {
    Prompt { text: String },
    SetMode { mode_id: String },
    Shutdown,
}

/// Why a manager operation was refused.
#[derive(Debug)]
pub enum ManagerError {
    /// `start` while a session is alive.
    AlreadyActive,
    /// `start` with an id no configured agent has.
    UnknownAgent { id: String },
    /// `start` with a root directory that could not be canonicalized;
    /// carries the resolver's own error text.
    InvalidRoot { cause: String },
    /// A session command with no session alive.
    NotStarted,
    /// An operation before any configuration was loaded.
    NotLoaded,
    /// A configuration reload while a session is alive.
    ReloadWhileActive,
}

/// The text reported for each refusal.
pub open spec fn spec_manager_message(e: ManagerError) -> Seq<char> {
    match e {
        ManagerError::AlreadyActive => "ACP session already active"@,
        ManagerError::UnknownAgent { id } => "unknown agent id: "@ + id@,
        ManagerError::InvalidRoot { cause } => "invalid root dir: "@ + cause@,
        ManagerError::NotStarted => "ACP session not started"@,
        ManagerError::NotLoaded => "ACP configuration not loaded"@,
        ManagerError::ReloadWhileActive => "cannot reload config while ACP session is active"@,
    }
}

impl ManagerError {
    /// A description of the refusal.
    pub fn message(&self) -> (r: String)
        ensures
            r@ == spec_manager_message(*self),
    {
        match self {
            ManagerError::AlreadyActive => "ACP session already active".to_owned(),
            ManagerError::UnknownAgent { id } => {
                let mut s = "unknown agent id: ".to_owned();
                s.append(id.as_str());
                s
            },
            ManagerError::InvalidRoot { cause } => {
                let mut s = "invalid root dir: ".to_owned();
                s.append(cause.as_str());
                s
            },
            ManagerError::NotStarted => "ACP session not started".to_owned(),
            ManagerError::NotLoaded => "ACP configuration not loaded".to_owned(),
            ManagerError::ReloadWhileActive => "cannot reload config while ACP session is active"
                .to_owned(),
        }
    }
}

/// The session supervisor: the validated configuration plus the single
/// optional session.
pub struct AcpManager {
    config: AgentsConfig,
    session: Option<AcpSession>,
}

impl AcpManager {
    /// The configured agents.
    pub closed spec fn spec_agents(self) -> Seq<AgentConfigView> {
        self.config.agents@.map_values(|a: AgentConfig| a@)
    }

    /// The live session, if one exists.
    pub closed spec fn spec_session(self) -> Option<SessionView> {
        match self.session {
            Some(s) => Some(s@),
            None => None,
        }
    }

    /// A session is alive.
    pub open spec fn is_active(self) -> bool {
        self.spec_session() is Some
    }

    /// A supervisor over this configuration, with no session.
    pub fn new(config: AgentsConfig) -> (r: Self)
        ensures
            r.spec_agents() == config.agents@.map_values(|a: AgentConfig| a@),
            !r.is_active(),
    {
        AcpManager { config, session: None }
    }

    /// Lists the configured agents by id and label.
    pub fn agents(&self) -> (r: Vec<AgentSummary>)
        ensures
            r@.len() == self.spec_agents().len(),
            forall|k: int|
                0 <= k < r@.len() ==> summary_matches(#[trigger] r@[k], self.spec_agents()[k]),
    {
        let n = self.config.agents.len();
        let mut out: Vec<AgentSummary> = Vec::new();
        let mut k: usize = 0;
        while k < n
            invariant
                k <= n,
                n == self.config.agents@.len(),
                out@.len() == k,
                forall|t: int|
                    0 <= t < k ==> summary_matches(#[trigger] out@[t], self.spec_agents()[t]),
            decreases n - k,
        {
            out.push(
                AgentSummary {
                    id: self.config.agents[k].id.clone(),
                    label: self.config.agents[k].label.clone(),
                },
            );
            k += 1;
        }
        out
    }

    /// Looks up an agent by id; the first configured entry with that id.
    pub fn find_agent(&self, id: &str) -> (r: Option<AgentConfig>)
        ensures
            match r {
                None => forall|j: int|
                    0 <= j < self.spec_agents().len() ==> (#[trigger] self.spec_agents()[j]).id
                        != id@,
                Some(a) => exists|k: int|
                    {
                        &&& 0 <= k < self.spec_agents().len()
                        &&& (#[trigger] self.spec_agents()[k]).id == id@
                        &&& a@ == self.spec_agents()[k]
                        &&& forall|j: int| 0 <= j < k ==> self.spec_agents()[j].id != id@
                    },
            },
    {
        let r = self.config.find(id);
        proof {
            match &r {
                None => {},
                Some(a) => {
                    let k = choose|k: int|
                        found_agent_index(self.config.agents@, id@, k) && a@
                            == self.config.agents@[k]@;
                    assert((#[trigger] self.spec_agents()[k]).id == id@);
                },
            }
        }
        r
    }

    /// A session is alive.
    pub fn session_active(&self) -> (r: bool)
        ensures
            r == self.is_active(),
    {
        self.session.is_some()
    }

    /// The checks a start must pass before any process is spawned: no
    /// session may be alive — an existing session is left untouched — the
    /// root directory must have canonicalized, and the agent id must be
    /// configured.  The root is checked before the agent lookup, so with
    /// both inputs bad the root error is the one reported.  On success,
    /// hands back the agent's launch spec and the canonical root.
    pub fn start_check(&self, agent_id: &str, root: &Resolution) -> (r: Result<
        (AgentConfig, String),
        ManagerError,
    >)
        ensures
            match r {
                Err(ManagerError::AlreadyActive) => self.is_active(),
                Err(ManagerError::InvalidRoot { cause }) => {
                    &&& !self.is_active()
                    &&& (root@ matches ResolutionView::Unresolved(c) && cause@ == c)
                },
                Err(ManagerError::UnknownAgent { id }) => {
                    &&& !self.is_active()
                    &&& root@ matches ResolutionView::Resolved(_)
                    &&& id@ == agent_id@
                    &&& forall|j: int|
                        0 <= j < self.spec_agents().len() ==> (
                        #[trigger] self.spec_agents()[j]).id != agent_id@
                },
                Ok((agent, root_dir)) => {
                    &&& !self.is_active()
                    &&& root@ == ResolutionView::Resolved(root_dir@)
                    &&& exists|k: int|
                        {
                            &&& 0 <= k < self.spec_agents().len()
                            &&& (#[trigger] self.spec_agents()[k]).id == agent_id@
                            &&& agent@ == self.spec_agents()[k]
                        }
                },
                _ => false,
            },
    {
        if self.session.is_some() {
            return Err(ManagerError::AlreadyActive);
        }
        let root_dir = match root {
            Resolution::Resolved(root_dir) => root_dir,
            Resolution::Unresolved(cause) => {
                return Err(ManagerError::InvalidRoot { cause: cause.clone() });
            },
        };
        match self.find_agent(agent_id) {
            Some(agent) => Ok((agent, root_dir.clone())),
            None => Err(ManagerError::UnknownAgent { id: agent_id.to_owned() }),
        }
    }

    /// Installs the session once the spawn and the handshake round trip
    /// succeeded, and reports what the start returns to the caller.
    pub fn start_commit(
        &mut self,
        agent_id: String,
        session_id: String,
        modes: Option<ModeSummary>,
    ) -> (r: AcpSessionInfo)
        requires
            !old(self).is_active(),
        ensures
            final(self).is_active(),
            final(self).spec_agents() == old(self).spec_agents(),
            final(self).spec_session() == Some(
                SessionView {
                    agent_id: agent_id@,
                    session_id: session_id@,
                    modes: opt_modes_view(modes),
                },
            ),
            r.agent_id@ == agent_id@,
            r.session_id@ == session_id@,
            opt_modes_view(r.modes) == opt_modes_view(modes),
    {
        let info_modes = match &modes {
            Some(m) => Some(m.clone()),
            None => None,
        };
        let info = AcpSessionInfo {
            agent_id: agent_id.clone(),
            session_id: session_id.clone(),
            modes: info_modes,
        };
        self.session = Some(AcpSession { agent_id, session_id, modes });
        info
    }

    /// Ends the session: afterwards none is alive, whatever was before.
    /// Reports whether one was, so the caller can tear down the worker and
    /// the child process.
    pub fn stop_session(&mut self) -> (r: bool)
        ensures
            r == old(self).is_active(),
            !final(self).is_active(),
            final(self).spec_agents() == old(self).spec_agents(),
    {
        let was = self.session.is_some();
        self.session = None;
        was
    }

    /// Admits a prompt to the command loop: legal exactly when a session
    /// is alive.
    pub fn prompt_command(&self, text: String) -> (r: Result<AcpCommand, ManagerError>)
        ensures
            match r {
                Ok(c) => self.is_active() && (c matches AcpCommand::Prompt { text: t } && t@
                    == text@),
                Err(e) => !self.is_active() && e matches ManagerError::NotStarted,
            },
    {
        if self.session.is_some() {
            Ok(AcpCommand::Prompt { text })
        } else {
            Err(ManagerError::NotStarted)
        }
    }

    /// Admits a mode change to the command loop: legal exactly when a
    /// session is alive.
    pub fn set_mode_command(&self, mode_id: String) -> (r: Result<AcpCommand, ManagerError>)
        ensures
            match r {
                Ok(c) => self.is_active() && (c matches AcpCommand::SetMode { mode_id: m } && m@
                    == mode_id@),
                Err(e) => !self.is_active() && e matches ManagerError::NotStarted,
            },
    {
        if self.session.is_some() {
            Ok(AcpCommand::SetMode { mode_id })
        } else {
            Err(ManagerError::NotStarted)
        }
    }

    /// Accepts a permission resolution: permission prompts are answered
    /// synchronously by the handler's policy, so with a session alive there
    /// is nothing pending and the resolution is acknowledged; without one
    /// it is refused.
    pub fn resolve_permission(&self, _request_id: &str, _option_id: Option<String>) -> (r: Result<
        (),
        ManagerError,
    >)
        ensures
            match r {
                Ok(u) => self.is_active(),
                Err(e) => !self.is_active() && e matches ManagerError::NotStarted,
            },
    {
        if self.session.is_some() {
            Ok(())
        } else {
            Err(ManagerError::NotStarted)
        }
    }
}

/// The engine state the surrounding application holds: the configuration
/// artifact's path and, once one was loaded, the manager.
pub struct AcpState {
    pub manager: Option<AcpManager>,
    pub config_path: String,
}

impl AcpState {
    /// State before any configuration was loaded.
    pub fn new(config_path: String) -> (r: Self)
        ensures
            r.manager is None,
            r.config_path@ == config_path@,
    {
        AcpState { manager: None, config_path }
    }

    /// Installs a freshly validated configuration, replacing any manager.
    pub fn install_config(&mut self, config: AgentsConfig)
        ensures
            final(self).manager matches Some(m) && m.spec_agents() == config.agents@.map_values(
                |a: AgentConfig| a@,
            ) && !m.is_active(),
            final(self).config_path@ == old(self).config_path@,
    {
        self.manager = Some(AcpManager::new(config));
    }

    /// Reloads the configuration: refused while a session is alive, so a
    /// running agent never has the ground change under it; otherwise the
    /// new configuration is installed and its agents are listed.
    pub fn reload_config(&mut self, config: AgentsConfig) -> (r: Result<
        Vec<AgentSummary>,
        ManagerError,
    >)
        ensures
            final(self).config_path@ == old(self).config_path@,
            match r {
                Err(e) => {
                    &&& e matches ManagerError::ReloadWhileActive
                    &&& old(self).manager matches Some(m) && m.is_active()
                    &&& *final(self) == *old(self)
                },
                Ok(summaries) => {
                    &&& (old(self).manager matches Some(m) ==> !m.is_active())
                    &&& final(self).manager matches Some(m) && m.spec_agents() == config.agents@
                        .map_values(|a: AgentConfig| a@) && !m.is_active()
                    &&& summaries@.len() == config.agents@.len()
                    &&& forall|k: int|
                        0 <= k < summaries@.len() ==> summary_matches(
                            #[trigger] summaries@[k],
                            config.agents@[k]@,
                        )
                },
            },
    {
        match &self.manager {
            Some(m) => {
                if m.session_active() {
                    return Err(ManagerError::ReloadWhileActive);
                }
            },
            None => {},
        }
        let manager = AcpManager::new(config);
        let summaries = manager.agents();
        self.manager = Some(manager);
        Ok(summaries)
    }

    /// Lists the configured agents; refused before any configuration was
    /// loaded.
    pub fn list_agents(&self) -> (r: Result<Vec<AgentSummary>, ManagerError>)
        ensures
            match r {
                Err(e) => e matches ManagerError::NotLoaded && self.manager is None,
                Ok(summaries) => self.manager matches Some(m) && summaries@.len()
                    == m.spec_agents().len() && forall|k: int|
                    0 <= k < summaries@.len() ==> summary_matches(
                        #[trigger] summaries@[k],
                        m.spec_agents()[k],
                    ),
            },
    {
        match &self.manager {
            Some(m) => Ok(m.agents()),
            None => Err(ManagerError::NotLoaded),
        }
    }
}

} // verus!

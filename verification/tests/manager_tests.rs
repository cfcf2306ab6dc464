use acp_engine::config::{
    agents_from_raw, AgentConfig, AgentsConfig, RawAgentConfig, RawAgentEntry, RawAgentsConfig,
};
use acp_engine::manager::{AcpCommand, AcpManager, AcpState, ManagerError};
use acp_engine::sandbox::Resolution;

fn agent(id: &str, label: &str) -> AgentConfig {
    AgentConfig {
        id: id.to_string(),
        label: label.to_string(),
        command: "/bin/agent".to_string(),
        args: Vec::new(),
        env: Vec::new(),
        mcp_servers: Vec::new(),
    }
}

fn one_agent_config() -> AgentsConfig {
    AgentsConfig { agents: vec![agent("coder", "Coder")] }
}

fn resolved(s: &str) -> Resolution {
    Resolution::Resolved(s.to_string())
}

#[test]
fn start_twice_without_stop_leaves_the_session_untouched() {
    let mut m = AcpManager::new(one_agent_config());
    let (spec, root) = m.start_check("coder", &resolved("/proj")).expect("first start");
    assert_eq!(spec.id, "coder");
    assert_eq!(root, "/proj");
    let info = m.start_commit("coder".to_string(), "sess-1".to_string(), None);
    assert_eq!(info.session_id, "sess-1");
    assert!(m.session_active());

    let second = m.start_check("coder", &resolved("/proj"));
    match second {
        Err(ManagerError::AlreadyActive) => {},
        _ => panic!("second start must be refused"),
    }
    // The original session is still the active one.
    assert!(m.session_active());
    match m.prompt_command("hi".to_string()) {
        Ok(AcpCommand::Prompt { text }) => assert_eq!(text, "hi"),
        _ => panic!("prompt must be admitted while active"),
    }
}

#[test]
fn stop_is_safe_with_and_without_a_session() {
    let mut m = AcpManager::new(one_agent_config());
    assert!(!m.stop_session());
    m.start_check("coder", &resolved("/proj")).expect("start");
    m.start_commit("coder".to_string(), "sess-1".to_string(), None);
    assert!(m.stop_session());
    assert!(!m.session_active());
    // Starting again after a stop is legal.
    assert!(m.start_check("coder", &resolved("/proj")).is_ok());
}

#[test]
fn unknown_agent_is_refused_before_any_spawn() {
    let m = AcpManager::new(one_agent_config());
    match m.start_check("nope", &resolved("/proj")) {
        Err(e @ ManagerError::UnknownAgent { .. }) => {
            assert_eq!(e.message(), "unknown agent id: nope");
        },
        _ => panic!("unknown id must be refused"),
    }
}

#[test]
fn bad_root_is_refused_before_any_spawn() {
    let m = AcpManager::new(one_agent_config());
    let bad_root = Resolution::Unresolved("No such file or directory (os error 2)".to_string());
    match m.start_check("coder", &bad_root) {
        Err(e @ ManagerError::InvalidRoot { .. }) => {
            // The refusal names the resolver's own cause.
            assert_eq!(e.message(), "invalid root dir: No such file or directory (os error 2)");
        },
        _ => panic!("a root that cannot be canonicalized must be refused"),
    }
}

#[test]
fn bad_root_wins_over_an_unknown_agent() {
    // The root is checked before the agent lookup, so with both inputs bad
    // the invalid-root error is the one reported.
    let m = AcpManager::new(one_agent_config());
    let bad_root = Resolution::Unresolved("os error 2".to_string());
    match m.start_check("nope", &bad_root) {
        Err(ManagerError::InvalidRoot { .. }) => {},
        _ => panic!("the root error must win when both inputs are bad"),
    }
}

#[test]
fn commands_are_refused_without_a_session() {
    let m = AcpManager::new(one_agent_config());
    assert!(matches!(m.prompt_command("hi".to_string()), Err(ManagerError::NotStarted)));
    assert!(matches!(m.set_mode_command("plan".to_string()), Err(ManagerError::NotStarted)));
    assert!(matches!(m.resolve_permission("req-1", None), Err(ManagerError::NotStarted)));
    let msg = ManagerError::NotStarted.message();
    assert_eq!(msg, "ACP session not started");
}

#[test]
fn agents_lists_ids_and_labels() {
    let m = AcpManager::new(AgentsConfig { agents: vec![agent("a", "A"), agent("b", "B")] });
    let list = m.agents();
    assert_eq!(list.len(), 2);
    assert_eq!(list[0].id, "a");
    assert_eq!(list[0].label, "A");
    assert_eq!(list[1].id, "b");
    assert_eq!(list[1].label, "B");
    assert!(m.find_agent("b").is_some());
    assert!(m.find_agent("c").is_none());
}

#[test]
fn unsupported_config_version_is_rejected() {
    let raw = RawAgentsConfig { version: 2, agents: Vec::new() };
    let err = agents_from_raw(raw).unwrap_err();
    assert_eq!(err.message(), "unsupported agent config version 2 (expected 1)");
}

#[test]
fn config_validation_defaults_label_to_id() {
    let raw = RawAgentsConfig {
        version: 1,
        agents: vec![
            RawAgentEntry {
                id: "coder".to_string(),
                agent: RawAgentConfig {
                    label: None,
                    command: "/bin/agent".to_string(),
                    args: vec!["--acp".to_string()],
                    env: Vec::new(),
                    mcp_servers: Vec::new(),
                },
            },
            RawAgentEntry {
                id: "helper".to_string(),
                agent: RawAgentConfig {
                    label: Some("Helper".to_string()),
                    command: "/bin/helper".to_string(),
                    args: Vec::new(),
                    env: Vec::new(),
                    mcp_servers: Vec::new(),
                },
            },
        ],
    };
    let config = agents_from_raw(raw).expect("version 1 must be accepted");
    assert_eq!(config.agents.len(), 2);
    assert_eq!(config.agents[0].label, "coder");
    assert_eq!(config.agents[0].args, vec!["--acp".to_string()]);
    assert_eq!(config.agents[1].label, "Helper");
}

#[test]
fn reload_is_refused_while_a_session_is_active() {
    let mut state = AcpState::new("/cfg/agents.json".to_string());
    assert!(matches!(state.list_agents(), Err(ManagerError::NotLoaded)));
    state.install_config(one_agent_config());
    assert_eq!(state.list_agents().unwrap().len(), 1);

    let m = state.manager.as_mut().unwrap();
    m.start_check("coder", &resolved("/proj")).expect("start");
    m.start_commit("coder".to_string(), "sess-1".to_string(), None);

    match state.reload_config(one_agent_config()) {
        Err(e @ ManagerError::ReloadWhileActive) => {
            assert_eq!(e.message(), "cannot reload config while ACP session is active");
        },
        _ => panic!("reload must be refused while active"),
    }

    state.manager.as_mut().unwrap().stop_session();
    let listed = state.reload_config(one_agent_config()).expect("reload after stop");
    assert_eq!(listed.len(), 1);
    assert_eq!(listed[0].id, "coder");
}

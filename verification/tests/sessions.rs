use goose_core::execution_manager::{
    configure_default_provider, AgentManager, DEFAULT_MAX_SESSION,
};

fn s(t: &str) -> String {
    t.to_string()
}

#[test]
fn sessions_keep_their_agents() {
    let mut m = AgentManager::new(None);
    assert_eq!(DEFAULT_MAX_SESSION, 100);
    assert_eq!(m.session_count(), 0);
    assert_eq!(m.get_agent("a"), None);
    assert_eq!(m.get_or_create_agent(s("a"), 1), 1);
    assert_eq!(m.get_or_create_agent(s("a"), 2), 1);
    assert_eq!(m.get_or_create_agent(s("b"), 3), 3);
    assert_eq!(m.session_count(), 2);
    assert!(m.has_session("a"));
    assert_eq!(m.remove_session("a"), Ok(()));
    assert!(!m.has_session("a"));
    assert_eq!(m.remove_session("a"), Err(s("Session a not found")));
    assert_eq!(m.get_agent("b"), Some(3));
}

#[test]
fn the_oldest_session_makes_room() {
    let mut m = AgentManager::new(Some(2));
    m.get_or_create_agent(s("a"), 1);
    m.get_or_create_agent(s("b"), 2);
    assert_eq!(m.get_agent("a"), Some(1));
    m.get_or_create_agent(s("c"), 3);
    assert_eq!(m.session_count(), 2);
    assert!(m.has_session("a"));
    assert!(!m.has_session("b"));
    assert!(m.has_session("c"));
}

#[test]
fn no_capacity_stands_for_the_default() {
    let mut m = AgentManager::new(Some(0));
    for i in 0..101 {
        m.get_or_create_agent(format!("{i}"), i);
    }
    assert_eq!(m.session_count(), 100);
    assert!(!m.has_session("0"));
    assert!(m.has_session("100"));
}

#[test]
fn a_default_provider_needs_a_model() {
    assert_eq!(
        configure_default_provider(Some(s("p")), Some(s("q")), None, Some(s("m"))),
        Some((s("p"), s("m")))
    );
    assert_eq!(
        configure_default_provider(None, Some(s("q")), Some(s("n")), Some(s("m"))),
        Some((s("q"), s("n")))
    );
    assert_eq!(configure_default_provider(Some(s("p")), None, None, None), None);
    assert_eq!(configure_default_provider(None, None, Some(s("m")), None), None);
}

#[test]
fn any_limit_can_be_asked_for() {
    let mut m = AgentManager::new(Some(usize::MAX));
    m.get_or_create_agent(s("a"), 1);
    m.get_or_create_agent(s("b"), 2);
    assert_eq!(m.session_count(), 2);
    let mut m = AgentManager::new(Some(1));
    m.get_or_create_agent(s("a"), 1);
    m.get_or_create_agent(s("b"), 2);
    assert!(!m.has_session("a"));
    assert_eq!(m.get_agent("b"), Some(2));
}

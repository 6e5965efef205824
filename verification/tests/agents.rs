use api_proxy::agents::{
    agent_or_fallback, default_user_agents, fallback_user_agent, pick_user_agent, server_user_agents,
};
use api_proxy::embedded;
use api_proxy::lines::parse_user_agents;

const FALLBACK: &str =
    "Mozilla/5.0 (X11; Linux x86_64) AppleWebKit/537.36 (KHTML, like Gecko) Chrome/138.0.0.0 Safari/537.36";

#[test]
fn built_in_agents() {
    let agents = default_user_agents();
    assert_eq!(agents.len(), 25);
    assert!(agents[0].starts_with("Mozilla/5.0 (Windows NT 10.0; Win64; x64)"));
    assert_eq!(
        agents[24],
        "Mozilla/5.0 (Windows NT 10.0; Win64; x64) rv:141.0) Gecko/20100101 Firefox/141.0"
    );
}

#[test]
fn embedded_agents_are_the_built_in_list() {
    assert_eq!(embedded::default_user_agents(), default_user_agents());
}

#[test]
fn built_in_agents_are_distinct_and_non_empty() {
    let agents = default_user_agents();
    assert!(agents.len() >= 25);
    for (i, a) in agents.iter().enumerate() {
        assert!(!a.is_empty());
        for b in &agents[i + 1..] {
            assert_ne!(a, b);
        }
    }
}

#[test]
fn fallback_agent_is_linux_chrome() {
    assert_eq!(fallback_user_agent(), FALLBACK);
    assert_eq!(agent_or_fallback(None), FALLBACK);
    assert_eq!(agent_or_fallback(Some("mine".to_string())), "mine");
}

#[test]
fn pick_from_list_or_fallback() {
    let agents = vec!["one".to_string(), "two".to_string(), "three".to_string()];
    for _ in 0..20 {
        let agent = pick_user_agent(&agents);
        assert!(agents.contains(&agent));
    }
    assert_eq!(pick_user_agent(&Vec::new()), FALLBACK);
}

#[test]
fn parse_agent_file_entries() {
    let content = "Agent A\n#\nAgent B\n#\n  Agent C  \n";
    assert_eq!(parse_user_agents(content), vec!["Agent A", "Agent B", "Agent C"]);
}

#[test]
fn parse_agent_file_drops_empty_entries() {
    assert_eq!(parse_user_agents("#\n#\n  \t#\nX"), vec!["X"]);
    assert!(parse_user_agents("").is_empty());
    assert!(parse_user_agents("   \n").is_empty());
}

#[test]
fn parse_agent_file_keeps_hash_without_line_break() {
    assert_eq!(parse_user_agents("a#b#\nc##\nd"), vec!["a#b", "c#", "d"]);
}

#[test]
fn parse_agent_file_trims_unicode_whitespace() {
    assert_eq!(parse_user_agents("\u{a0}ä ö\u{3000}#\n\u{2003}x"), vec!["ä ö", "x"]);
}

#[test]
fn parse_agent_file_reads_back_joined_list() {
    let list = vec!["Mozilla/5.0 (X11)".to_string(), "curl/8.0".to_string(), "a#b".to_string()];
    let content = list.join("#\n");
    assert_eq!(parse_user_agents(&content), list);
}

#[test]
fn parse_matches_std_split_and_trim() {
    let content = " a #\n\n#\nb\r\n#\n#\nc # d ";
    let expected: Vec<String> = content
        .split("#\n")
        .map(|s| s.trim().to_string())
        .filter(|s| !s.is_empty())
        .collect();
    assert_eq!(parse_user_agents(content), expected);
}

#[test]
fn server_agents_from_file_or_defaults() {
    assert_eq!(server_user_agents(None).len(), 25);
    assert_eq!(server_user_agents(Some("x#\ny")), vec!["x", "y"]);
    assert!(server_user_agents(Some("")).is_empty());
}

use guard_and_guide::agent::{expand_matcher, resolve_field, Agent, CanonicalTool};

#[test]
fn canonical_tool_from_claude_code() {
    assert_eq!(
        CanonicalTool::from_agent_name(Agent::ClaudeCode, "Bash"),
        Some(CanonicalTool::Bash)
    );
    assert_eq!(
        CanonicalTool::from_agent_name(Agent::ClaudeCode, "Read"),
        Some(CanonicalTool::Read)
    );
    assert_eq!(
        CanonicalTool::from_agent_name(Agent::ClaudeCode, "Write"),
        Some(CanonicalTool::Write)
    );
    assert_eq!(
        CanonicalTool::from_agent_name(Agent::ClaudeCode, "Edit"),
        Some(CanonicalTool::Edit)
    );
    assert_eq!(
        CanonicalTool::from_agent_name(Agent::ClaudeCode, "Unknown"),
        None
    );
}

#[test]
fn canonical_tool_from_gemini_cli() {
    assert_eq!(
        CanonicalTool::from_agent_name(Agent::GeminiCli, "run_shell_command"),
        Some(CanonicalTool::Bash)
    );
    assert_eq!(
        CanonicalTool::from_agent_name(Agent::GeminiCli, "read_file"),
        Some(CanonicalTool::Read)
    );
    assert_eq!(
        CanonicalTool::from_agent_name(Agent::GeminiCli, "write_file"),
        Some(CanonicalTool::Write)
    );
    assert_eq!(
        CanonicalTool::from_agent_name(Agent::GeminiCli, "replace"),
        Some(CanonicalTool::Edit)
    );
}

#[test]
fn canonical_tool_from_copilot_cli() {
    assert_eq!(
        CanonicalTool::from_agent_name(Agent::CopilotCli, "bash"),
        Some(CanonicalTool::Bash)
    );
    assert_eq!(
        CanonicalTool::from_agent_name(Agent::CopilotCli, "view"),
        Some(CanonicalTool::Read)
    );
    assert_eq!(
        CanonicalTool::from_agent_name(Agent::CopilotCli, "create"),
        Some(CanonicalTool::Write)
    );
    assert_eq!(
        CanonicalTool::from_agent_name(Agent::CopilotCli, "edit"),
        Some(CanonicalTool::Edit)
    );
}

#[test]
fn default_field_inference() {
    assert_eq!(CanonicalTool::Bash.default_field(), "command");
    assert_eq!(CanonicalTool::Read.default_field(), "file_path");
    assert_eq!(CanonicalTool::Write.default_field(), "file_path");
    assert_eq!(CanonicalTool::Edit.default_field(), "file_path");
}

#[test]
fn resolve_field_copilot_file_path() {
    assert_eq!(resolve_field(Agent::CopilotCli, "file_path"), "path");
}

#[test]
fn resolve_field_passthrough() {
    assert_eq!(resolve_field(Agent::ClaudeCode, "file_path"), "file_path");
    assert_eq!(resolve_field(Agent::GeminiCli, "file_path"), "file_path");
    assert_eq!(resolve_field(Agent::ClaudeCode, "command"), "command");
    assert_eq!(resolve_field(Agent::CopilotCli, "command"), "command");
}

#[test]
fn expand_matcher_file_alias() {
    assert_eq!(expand_matcher("File"), vec!["Read", "Write", "Edit"]);
}

#[test]
fn expand_matcher_mixed() {
    assert_eq!(
        expand_matcher("Bash|File"),
        vec!["Bash", "Read", "Write", "Edit"]
    );
}

#[test]
fn expand_matcher_no_alias() {
    assert_eq!(expand_matcher("Bash"), vec!["Bash"]);
    assert_eq!(expand_matcher("Read|Write"), vec!["Read", "Write"]);
}

#[test]
fn canonical_tool_as_str() {
    assert_eq!(CanonicalTool::Bash.as_str(), "Bash");
    assert_eq!(CanonicalTool::Read.as_str(), "Read");
    assert_eq!(CanonicalTool::Write.as_str(), "Write");
    assert_eq!(CanonicalTool::Edit.as_str(), "Edit");
}

// --- further cases ---

#[test]
fn tool_names_resolve_round_trip() {
    let tools = [
        CanonicalTool::Bash,
        CanonicalTool::Read,
        CanonicalTool::Write,
        CanonicalTool::Edit,
    ];
    for tool in tools {
        assert_eq!(
            CanonicalTool::from_agent_name(Agent::ClaudeCode, tool.as_str()),
            Some(tool)
        );
    }
}

#[test]
fn tool_names_are_agent_specific() {
    assert_eq!(CanonicalTool::from_agent_name(Agent::GeminiCli, "Bash"), None);
    assert_eq!(CanonicalTool::from_agent_name(Agent::CopilotCli, "Bash"), None);
    assert_eq!(CanonicalTool::from_agent_name(Agent::ClaudeCode, "bash"), None);
    assert_eq!(CanonicalTool::from_agent_name(Agent::ClaudeCode, ""), None);
    assert_eq!(CanonicalTool::from_agent_name(Agent::ClaudeCode, "Bash "), None);
}

#[test]
fn resolve_field_other_names_pass_through() {
    assert_eq!(resolve_field(Agent::CopilotCli, "path"), "path");
    assert_eq!(resolve_field(Agent::CopilotCli, ""), "");
}

#[test]
fn expand_matcher_empty_pieces() {
    assert_eq!(expand_matcher(""), vec![""]);
    assert_eq!(expand_matcher("|"), vec!["", ""]);
    assert_eq!(expand_matcher("Bash||File|"), vec!["Bash", "", "Read", "Write", "Edit", ""]);
}

#[test]
fn expand_matcher_alias_is_exact() {
    assert_eq!(expand_matcher("file"), vec!["file"]);
    assert_eq!(expand_matcher("Files"), vec!["Files"]);
    assert_eq!(expand_matcher("File|File"), vec!["Read", "Write", "Edit", "Read", "Write", "Edit"]);
}

#[test]
fn expand_matcher_split_join_round_trip() {
    for m in ["a|b|c", "", "|x|", "Bash|Read", "é|ü|"] {
        let pieces = expand_matcher(m);
        assert_eq!(pieces.join("|"), m);
        assert!(pieces.iter().all(|p| !p.contains('|')));
    }
}

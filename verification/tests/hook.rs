use guard_and_guide::agent::Agent;
use guard_and_guide::config::Rule;
use guard_and_guide::hook::respond;
use guard_and_guide::input::{HookInput, ToolInput};

fn rules() -> Vec<Rule> {
    vec![
        Rule {
            matcher: "File".to_string(),
            regex: r"\.env".to_string(),
            message: "Access to .env files is prohibited.".to_string(),
        },
        Rule {
            matcher: "Bash".to_string(),
            regex: r"\bsed\s+-i\b".to_string(),
            message: "Do not use 'sed -i'; edit the file instead.".to_string(),
        },
    ]
}

fn input(tool_name: &str, fields: &[(&str, &str)]) -> HookInput {
    HookInput {
        tool_name: tool_name.to_string(),
        tool_input: ToolInput {
            fields: fields
                .iter()
                .map(|(k, v)| (k.to_string(), v.to_string()))
                .collect(),
        },
    }
}

#[test]
fn respond_denies_file_access() {
    let out = respond(
        Agent::ClaudeCode,
        &rules(),
        &input("Read", &[("file_path", "/home/.env")]),
    )
    .unwrap();
    let parsed: serde_json::Value = serde_json::from_str(&out).unwrap();
    assert_eq!(parsed["hookSpecificOutput"]["permissionDecision"], "deny");
    assert!(parsed["hookSpecificOutput"]["permissionDecisionReason"]
        .as_str()
        .unwrap()
        .contains(".env"));
}

#[test]
fn respond_denies_bash_command() {
    let out = respond(
        Agent::ClaudeCode,
        &rules(),
        &input("Bash", &[("command", "sed -i s/foo/bar/ file.txt")]),
    )
    .unwrap();
    let parsed: serde_json::Value = serde_json::from_str(&out).unwrap();
    assert!(parsed["hookSpecificOutput"]["permissionDecisionReason"]
        .as_str()
        .unwrap()
        .contains("sed"));
}

#[test]
fn respond_stays_silent() {
    assert_eq!(
        respond(Agent::ClaudeCode, &rules(), &input("Read", &[("file_path", "/home/readme.md")])),
        None
    );
    assert_eq!(
        respond(Agent::ClaudeCode, &rules(), &input("Agent", &[("prompt", "hello")])),
        None
    );
    assert_eq!(
        respond(Agent::GeminiCli, &rules(), &input("read_file", &[("file_path", "src/main.rs")])),
        None
    );
    assert_eq!(
        respond(Agent::CopilotCli, &rules(), &input("bash", &[("command", "ls -la")])),
        None
    );
}

#[test]
fn respond_uses_agent_format() {
    let out = respond(
        Agent::GeminiCli,
        &rules(),
        &input("write_file", &[("file_path", ".env.local"), ("content", "x")]),
    )
    .unwrap();
    assert_eq!(
        out,
        r#"{"decision":"deny","reason":"Access to .env files is prohibited."}"#
    );
    let out = respond(
        Agent::CopilotCli,
        &rules(),
        &input("create", &[("path", ".env"), ("content", "SECRET=x")]),
    )
    .unwrap();
    assert_eq!(
        out,
        r#"{"permissionDecision":"deny","permissionDecisionReason":"Access to .env files is prohibited."}"#
    );
}

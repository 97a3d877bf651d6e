use guard_and_guide::agent::Agent;
use guard_and_guide::output::format_deny;

#[test]
fn claude_code_output() {
    let output = format_deny(Agent::ClaudeCode, "blocked");
    let parsed: serde_json::Value = serde_json::from_str(&output).unwrap();
    assert_eq!(parsed["hookSpecificOutput"]["permissionDecision"], "deny");
    assert_eq!(
        parsed["hookSpecificOutput"]["permissionDecisionReason"],
        "blocked"
    );
    assert_eq!(parsed["hookSpecificOutput"]["hookEventName"], "PreToolUse");
}

#[test]
fn gemini_cli_output() {
    let output = format_deny(Agent::GeminiCli, "blocked");
    let parsed: serde_json::Value = serde_json::from_str(&output).unwrap();
    assert_eq!(parsed["decision"], "deny");
    assert_eq!(parsed["reason"], "blocked");
}

#[test]
fn copilot_cli_output() {
    let output = format_deny(Agent::CopilotCli, "blocked");
    let parsed: serde_json::Value = serde_json::from_str(&output).unwrap();
    assert_eq!(parsed["permissionDecision"], "deny");
    assert_eq!(parsed["permissionDecisionReason"], "blocked");
}

// --- further cases ---

#[test]
fn exact_frames() {
    assert_eq!(
        format_deny(Agent::ClaudeCode, "no"),
        r#"{"hookSpecificOutput":{"hookEventName":"PreToolUse","permissionDecision":"deny","permissionDecisionReason":"no"}}"#
    );
    assert_eq!(
        format_deny(Agent::GeminiCli, "no"),
        r#"{"decision":"deny","reason":"no"}"#
    );
    assert_eq!(
        format_deny(Agent::CopilotCli, "no"),
        r#"{"permissionDecision":"deny","permissionDecisionReason":"no"}"#
    );
}

#[test]
fn reason_is_escaped() {
    let message = "say \"no\"\\ to\n'git push'\t\u{1}ü";
    let output = format_deny(Agent::GeminiCli, message);
    assert_eq!(
        output,
        "{\"decision\":\"deny\",\"reason\":\"say \\\"no\\\"\\\\ to\\n'git push'\\t\\u0001ü\"}"
    );
    let parsed: serde_json::Value = serde_json::from_str(&output).unwrap();
    assert_eq!(parsed["reason"], message);
}

#[test]
fn reason_decodes_for_every_control_character() {
    let message: String = (0u8..0x20).map(char::from).chain("\"\\/é€𝄞 end".chars()).collect();
    for agent in [Agent::ClaudeCode, Agent::GeminiCli, Agent::CopilotCli] {
        let output = format_deny(agent, &message);
        let parsed: serde_json::Value = serde_json::from_str(&output).unwrap();
        let reason = match agent {
            Agent::ClaudeCode => &parsed["hookSpecificOutput"]["permissionDecisionReason"],
            Agent::GeminiCli => &parsed["reason"],
            Agent::CopilotCli => &parsed["permissionDecisionReason"],
        };
        assert_eq!(reason, message.as_str());
    }
    let output = format_deny(Agent::GeminiCli, "\u{8}\u{c}\u{1f}");
    assert_eq!(output, "{\"decision\":\"deny\",\"reason\":\"\\b\\f\\u001f\"}");
}

use vstd::prelude::*;

use crate::agent::Agent;

verus! {

/// The lowercase hexadecimal digit for `n` (0 to 15).
pub open spec fn hex_digit(n: int) -> char {
    if n < 10 {
        (n + 48) as char
    } else {
        (n + 87) as char
    }
}

/// How serde_json writes one character inside a JSON string: the quote, the
/// backslash and the control characters below U+0020 are escaped (the five
/// with a short escape use it, the others `\u00` and two lowercase hex
/// digits); every other character is written as it is.
pub open spec fn escape_char(c: char) -> Seq<char> {
    if c == '"' {
        seq!['\\', '"']
    } else if c == '\\' {
        seq!['\\', '\\']
    } else if c == '\x08' {
        seq!['\\', 'b']
    } else if c == '\t' {
        seq!['\\', 't']
    } else if c == '\n' {
        seq!['\\', 'n']
    } else if c == '\x0c' {
        seq!['\\', 'f']
    } else if c == '\r' {
        seq!['\\', 'r']
    } else if (c as int) < 0x20 {
        seq!['\\', 'u', '0', '0', hex_digit(c as int / 16), hex_digit(c as int % 16)]
    } else {
        seq![c]
    }
}

/// The escaped text of `s`, character by character.
pub open spec fn json_escape(s: Seq<char>) -> Seq<char>
    decreases s.len(),
{
    if s.len() == 0 {
        Seq::empty()
    } else {
        escape_char(s[0]) + json_escape(s.skip(1))
    }
}

/// The JSON string literal, quotes included, that `serde_json::to_string`
/// writes for the text `s`.
pub open spec fn json_string(s: Seq<char>) -> Seq<char> {
    seq!['"'] + json_escape(s) + seq!['"']
}

/// Text that JSON carries without escapes: no quote, no backslash, no control
/// character below U+0020.
pub open spec fn is_plain_json_text(s: Seq<char>) -> bool {
    forall|i: int| 0 <= i < s.len() ==> #[trigger] s[i] != '"' && s[i] != '\\' && ' ' <= s[i]
}

/// The value of a hexadecimal digit, or -1 for another character.
pub open spec fn hex_value(c: char) -> int {
    if '0' <= c && c <= '9' {
        c as int - 48
    } else if 'a' <= c && c <= 'f' {
        c as int - 87
    } else if 'A' <= c && c <= 'F' {
        c as int - 55
    } else {
        -1
    }
}

/// `c` put in front of a decoded text, if there is one.
pub open spec fn prepend(c: char, rest: Option<Seq<char>>) -> Option<Seq<char>> {
    match rest {
        Some(r) => Some(seq![c] + r),
        None => None,
    }
}

/// The character a two-character escape `\e` stands for in JSON.
pub open spec fn short_escape(e: char) -> Option<char> {
    if e == '"' {
        Some('"')
    } else if e == '\\' {
        Some('\\')
    } else if e == '/' {
        Some('/')
    } else if e == 'b' {
        Some('\x08')
    } else if e == 'f' {
        Some('\x0c')
    } else if e == 'n' {
        Some('\n')
    } else if e == 'r' {
        Some('\r')
    } else if e == 't' {
        Some('\t')
    } else {
        None
    }
}

/// The text that the body `t` of a JSON string literal (what stands between
/// its quotes) denotes, by the string grammar of RFC 8259 section 7; `None`
/// where `t` is not such a body (an unescaped quote or control character, or
/// an unknown escape). A `\u` escape of a surrogate, which JSON decodes only
/// in pairs, is not decoded here and gives `None`.
pub open spec fn json_unescape(t: Seq<char>) -> Option<Seq<char>>
    decreases t.len(),
{
    if t.len() == 0 {
        Some(Seq::empty())
    } else if t[0] == '"' || (t[0] as int) < 0x20 {
        None
    } else if t[0] != '\\' {
        prepend(t[0], json_unescape(t.skip(1)))
    } else if t.len() < 2 {
        None
    } else if short_escape(t[1]) is Some {
        prepend(short_escape(t[1])->0, json_unescape(t.skip(2)))
    } else if t[1] == 'u' && t.len() >= 6 && hex_value(t[2]) >= 0 && hex_value(t[3]) >= 0
        && hex_value(t[4]) >= 0 && hex_value(t[5]) >= 0 {
        let v = 4096 * hex_value(t[2]) + 256 * hex_value(t[3]) + 16 * hex_value(t[4]) + hex_value(
            t[5],
        );
        if 0xD800 <= v <= 0xDFFF {
            None
        } else {
            prepend(v as char, json_unescape(t.skip(6)))
        }
    } else {
        None
    }
}

proof fn lemma_hex_digit_value(n: int)
    requires
        0 <= n < 16,
    ensures
        hex_value(hex_digit(n)) == n,
{
}

proof fn lemma_escape_char_decodes(c: char, rest: Seq<char>)
    ensures
        json_unescape(escape_char(c) + rest) == prepend(c, json_unescape(rest)),
{
    let t = escape_char(c) + rest;
    let e = escape_char(c);
    assert(t.skip(e.len() as int) =~= rest);
    if (c as int) < 0x20 && c != '\x08' && c != '\t' && c != '\n' && c != '\x0c' && c != '\r' {
        let n = c as int;
        lemma_hex_digit_value(n / 16);
        lemma_hex_digit_value(n % 16);
        assert(t[2] == '0' && t[3] == '0');
        assert(t[4] == hex_digit(n / 16) && t[5] == hex_digit(n % 16));
        assert(16 * (n / 16) + n % 16 == n);
    }
}

/// The escaped text of every string decodes back to the string: the reason
/// in a deny response is the message itself.
pub proof fn lemma_json_escape_decodes(s: Seq<char>)
    ensures
        json_unescape(json_escape(s)) == Some(s),
    decreases s.len(),
{
    if s.len() > 0 {
        lemma_json_escape_decodes(s.skip(1));
        lemma_escape_char_decodes(s[0], json_escape(s.skip(1)));
        assert(seq![s[0]] + s.skip(1) =~= s);
    }
}

/// Plain text is written as it is.
pub proof fn lemma_plain_text_unescaped(s: Seq<char>)
    requires
        is_plain_json_text(s),
    ensures
        json_escape(s) == s,
    decreases s.len(),
{
    if s.len() > 0 {
        assert(is_plain_json_text(s.skip(1))) by {
            assert forall|i: int| 0 <= i < s.skip(1).len() implies #[trigger] s.skip(1)[i] != '"'
                && s.skip(1)[i] != '\\' && ' ' <= s.skip(1)[i] by {
                assert(s.skip(1)[i] == s[i + 1]);
            }
        }
        lemma_plain_text_unescaped(s.skip(1));
        assert(s[0] != '"' && s[0] != '\\' && ' ' <= s[0]);
        assert(seq![s[0]] + s.skip(1) =~= s);
    }
}

/// Serialises a string as a JSON string literal with `serde_json::to_string`.
///
/// Trusted: the contract claims what serde_json's serializer shows for a
/// `str`: the call cannot fail (it writes to a `Vec`, which accepts every
/// write), and the literal is the text between two quotes, escaped by the
/// escape table of its `format_escaped_str` (`json_escape`).
#[verifier::external_body]
fn to_json_string(s: &str) -> (r: String)
    ensures
        r@ == json_string(s@),
{
    serde_json::to_string(s).expect("serializing a str cannot fail")
}

/// What the deny response of each agent holds before the reason.
pub open spec fn deny_prefix(agent: Agent) -> Seq<char> {
    match agent {
        Agent::ClaudeCode => "{\"hookSpecificOutput\":{\"hookEventName\":\"PreToolUse\",\"permissionDecision\":\"deny\",\"permissionDecisionReason\":"@,
        Agent::GeminiCli => "{\"decision\":\"deny\",\"reason\":"@,
        Agent::CopilotCli => "{\"permissionDecision\":\"deny\",\"permissionDecisionReason\":"@,
    }
}

/// What the deny response of each agent holds after the reason.
pub open spec fn deny_suffix(agent: Agent) -> Seq<char> {
    match agent {
        Agent::ClaudeCode => "}}"@,
        _ => "}"@,
    }
}

/// The compact JSON deny response, its object keys in sorted order, that an
/// agent is answered with.
pub open spec fn deny_json(agent: Agent, message: Seq<char>) -> Seq<char> {
    deny_prefix(agent) + json_string(message) + deny_suffix(agent)
}

/// Format the deny response JSON for the given agent.
pub fn format_deny(agent: Agent, message: &str) -> (r: String)
    ensures
        r@ == deny_json(agent, message@),
        is_plain_json_text(message@) ==> r@ == deny_prefix(agent) + seq!['"'] + message@ + seq!['"']
            + deny_suffix(agent),
{
    let (prefix, suffix) = match agent {
        Agent::ClaudeCode => (
            "{\"hookSpecificOutput\":{\"hookEventName\":\"PreToolUse\",\"permissionDecision\":\"deny\",\"permissionDecisionReason\":",
            "}}",
        ),
        Agent::GeminiCli => ("{\"decision\":\"deny\",\"reason\":", "}"),
        Agent::CopilotCli => ("{\"permissionDecision\":\"deny\",\"permissionDecisionReason\":", "}"),
    };
    let reason = to_json_string(message);
    proof {
        if is_plain_json_text(message@) {
            lemma_plain_text_unescaped(message@);
        }
    }
    let mut out = String::from_str(prefix);
    out.append(reason.as_str());
    out.append(suffix);
    out
}

/// The reason in every deny response is a JSON string literal that decodes
/// back to the message, framed by the agent's fixed object text.
pub proof fn lemma_deny_reason_decodes(agent: Agent, message: Seq<char>)
    ensures
        deny_json(agent, message) == deny_prefix(agent) + seq!['"'] + json_escape(message) + seq![
            '"',
        ] + deny_suffix(agent),
        json_unescape(json_escape(message)) == Some(message),
{
    lemma_json_escape_decodes(message);
    assert(deny_json(agent, message) =~= deny_prefix(agent) + seq!['"'] + json_escape(message)
        + seq!['"'] + deny_suffix(agent));
}

/// The deny response of each agent around the reason's literal: the
/// compact, key-sorted JSON of the agent's deny object.
pub proof fn lemma_deny_frames(message: Seq<char>)
    ensures
        deny_json(Agent::ClaudeCode, message)
            == "{\"hookSpecificOutput\":{\"hookEventName\":\"PreToolUse\",\"permissionDecision\":\"deny\",\"permissionDecisionReason\":"@
            + json_string(message) + "}}"@,
        deny_json(Agent::GeminiCli, message) == "{\"decision\":\"deny\",\"reason\":"@ + json_string(
            message,
        ) + "}"@,
        deny_json(Agent::CopilotCli, message)
            == "{\"permissionDecision\":\"deny\",\"permissionDecisionReason\":"@ + json_string(message)
            + "}"@,
{
}

} // verus!

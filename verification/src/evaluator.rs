use vstd::prelude::*;

use crate::agent::{
    Agent, CanonicalTool, agent_field_name, canonical_name, default_field_name, expand_matcher,
    lemma_single_name_matcher, matcher_names, resolve_field, tool_for,
};
use crate::config::Rule;
use crate::input::{HookInput, field_value};
use crate::pattern::{search, search_outcome};
use crate::text::contains_str;

verus! {

/// Result of evaluating rules against a hook input.
pub struct EvalResult {
    pub message: String,
}

/// What a rule that covers the tool does with the outcome of its search.
pub enum RuleStep {
    /// The pattern was found: the call is denied with this message.
    Deny(String),
    /// The pattern was not found, or does not compile: the next rule is tried.
    Next,
}

/// Decides what a rule that covers the tool does with the outcome of its
/// search.
pub fn apply_outcome(rule: &Rule, outcome: Option<bool>) -> (r: RuleStep)
    ensures
        outcome != Some(true) ==> r is Next,
        outcome == Some(true) ==> (r matches RuleStep::Deny(m) && m@ == rule.message@),
{
    match outcome {
        Some(true) => RuleStep::Deny(rule.message.clone()),
        _ => RuleStep::Next,
    }
}

/// Whether a rule's matcher covers a tool.
pub open spec fn covers(rule: Rule, tool: CanonicalTool) -> bool {
    matcher_names(rule.matcher@).contains(canonical_name(tool))
}

/// The verdict of the rules, tried in order, on a call of `tool` whose
/// relevant field holds `value` (`None`: the input has no such string field).
/// Rules that do not cover the tool are skipped; the first covering rule
/// whose pattern is found denies the call with its message; a pattern that
/// does not compile matches nothing. When the field is missing no rule can
/// match, so there is no verdict.
pub open spec fn first_deny(rules: Seq<Rule>, tool: CanonicalTool, value: Option<Seq<char>>) -> Option<Seq<char>>
    decreases rules.len(),
{
    if rules.len() == 0 {
        None
    } else if !covers(rules[0], tool) {
        first_deny(rules.drop_first(), tool, value)
    } else {
        match value {
            None => None,
            Some(v) => if search_outcome(rules[0].regex@, v) == Some(true) {
                Some(rules[0].message@)
            } else {
                first_deny(rules.drop_first(), tool, value)
            },
        }
    }
}

/// The field of a tool call's input that the rules of `tool` read.
pub open spec fn checked_value(agent: Agent, tool: CanonicalTool, input: HookInput) -> Option<Seq<char>> {
    field_value(input.tool_input.fields@, agent_field_name(agent, default_field_name(tool)))
}

/// The message that denies a hook input, if any.
pub open spec fn verdict(agent: Agent, rules: Seq<Rule>, input: HookInput) -> Option<Seq<char>> {
    match tool_for(agent, input.tool_name@) {
        None => None,
        Some(tool) => first_deny(rules, tool, checked_value(agent, tool, input)),
    }
}

/// The message an evaluation result carries, if any.
pub open spec fn result_message(r: Option<EvalResult>) -> Option<Seq<char>> {
    match r {
        Some(e) => Some(e.message@),
        None => None,
    }
}

/// Evaluate rules against a hook input. Returns the first matching rule's message.
pub fn evaluate(agent: Agent, rules: &[Rule], input: &HookInput) -> (r: Option<EvalResult>)
    ensures
        result_message(r) == verdict(agent, rules@, *input),
{
    let canonical_name = match CanonicalTool::from_agent_name(agent, input.tool_name.as_str()) {
        Some(t) => t,
        None => return None,
    };
    let ghost value = checked_value(agent, canonical_name, *input);
    let mut i: usize = 0;
    assert(rules@.skip(0) =~= rules@);
    while i < rules.len()
        invariant
            i <= rules@.len(),
            tool_for(agent, input.tool_name@) == Some(canonical_name),
            value == checked_value(agent, canonical_name, *input),
            first_deny(rules@, canonical_name, value) == first_deny(
                rules@.skip(i as int),
                canonical_name,
                value,
            ),
        decreases rules.len() - i,
    {
        let rule = &rules[i];
        let ghost rest = rules@.skip(i as int);
        assert(rest[0] == rules@[i as int]);
        assert(rest.drop_first() =~= rules@.skip(i + 1));
        let matcher_tools = expand_matcher(rule.matcher.as_str());
        if contains_str(&matcher_tools, canonical_name.as_str()) {
            let canonical_field = canonical_name.default_field();
            let agent_field = resolve_field(agent, canonical_field);
            let value_str = match input.tool_input.get_str(agent_field) {
                Some(v) => v,
                None => return None,
            };
            let outcome = search(rule.regex.as_str(), value_str);
            match apply_outcome(rule, outcome) {
                RuleStep::Deny(message) => {
                    return Some(EvalResult { message });
                },
                RuleStep::Next => {},
            }
        }
        i = i + 1;
    }
    None
}

/// Rule `i` is the first rule covering `tool` whose pattern is found in `v`:
/// no covering rule before it has a pattern that compiles and is found.
pub open spec fn is_first_hit(rules: Seq<Rule>, tool: CanonicalTool, v: Seq<char>, i: int) -> bool {
    &&& 0 <= i < rules.len()
    &&& covers(rules[i], tool)
    &&& search_outcome(rules[i].regex@, v) == Some(true)
    &&& forall|j: int|
        0 <= j < i && covers(#[trigger] rules[j], tool) ==> search_outcome(rules[j].regex@, v) != Some(
            true,
        )
}

proof fn lemma_first_hit_denies(rules: Seq<Rule>, tool: CanonicalTool, v: Seq<char>, i: int)
    requires
        is_first_hit(rules, tool, v, i),
    ensures
        first_deny(rules, tool, Some(v)) == Some(rules[i].message@),
    decreases i,
{
    if i > 0 {
        let rest = rules.drop_first();
        assert forall|j: int| 0 <= j < i - 1 && covers(#[trigger] rest[j], tool) implies search_outcome(
            rest[j].regex@,
            v,
        ) != Some(true) by {
            assert(rest[j] == rules[j + 1]);
        }
        assert(rest[i - 1] == rules[i]);
        lemma_first_hit_denies(rest, tool, v, i - 1);
        assert(covers(rules[0], tool) ==> search_outcome(rules[0].regex@, v) != Some(true));
    }
}

proof fn lemma_deny_has_first_hit(rules: Seq<Rule>, tool: CanonicalTool, v: Seq<char>)
    requires
        first_deny(rules, tool, Some(v)) is Some,
    ensures
        exists|i: int|
            is_first_hit(rules, tool, v, i) && first_deny(rules, tool, Some(v)) == Some(
                rules[i].message@,
            ),
    decreases rules.len(),
{
    let rest = rules.drop_first();
    if covers(rules[0], tool) && search_outcome(rules[0].regex@, v) == Some(true) {
        assert(is_first_hit(rules, tool, v, 0));
    } else {
        lemma_deny_has_first_hit(rest, tool, v);
        let k = choose|k: int|
            is_first_hit(rest, tool, v, k) && first_deny(rest, tool, Some(v)) == Some(rest[k].message@);
        assert(rest[k] == rules[k + 1]);
        assert forall|j: int| 0 <= j < k + 1 && covers(#[trigger] rules[j], tool) implies search_outcome(
            rules[j].regex@,
            v,
        ) != Some(true) by {
            if j > 0 {
                assert(rules[j] == rest[j - 1]);
            }
        }
        assert(is_first_hit(rules, tool, v, k + 1));
    }
}

/// The first matching rule wins: the rules deny a call whose field holds `v`
/// with message `m` exactly when some rule covering the tool finds its
/// pattern in `v`, carries `m`, and no covering rule before it finds its
/// pattern (a pattern that does not compile finds nothing).
pub proof fn lemma_first_match_wins(rules: Seq<Rule>, tool: CanonicalTool, v: Seq<char>, m: Seq<char>)
    ensures
        first_deny(rules, tool, Some(v)) == Some(m) <==> exists|i: int|
            is_first_hit(rules, tool, v, i) && rules[i].message@ == m,
{
    if first_deny(rules, tool, Some(v)) == Some(m) {
        lemma_deny_has_first_hit(rules, tool, v);
    }
    if exists|i: int| is_first_hit(rules, tool, v, i) && rules[i].message@ == m {
        let i = choose|i: int| is_first_hit(rules, tool, v, i) && rules[i].message@ == m;
        lemma_first_hit_denies(rules, tool, v, i);
    }
}

/// A call of a tool that the agent's name does not resolve to is never denied.
pub proof fn lemma_unknown_tool_passes(agent: Agent, rules: Seq<Rule>, input: HookInput)
    requires
        tool_for(agent, input.tool_name@) is None,
    ensures
        verdict(agent, rules, input) is None,
{
}

/// Rules that do not cover the tool have no say: a call is denied by no rule
/// when none covers its tool.
pub proof fn lemma_uncovered_tool_passes(rules: Seq<Rule>, tool: CanonicalTool, value: Option<Seq<char>>)
    requires
        forall|i: int| 0 <= i < rules.len() ==> !covers(#[trigger] rules[i], tool),
    ensures
        first_deny(rules, tool, value) is None,
    decreases rules.len(),
{
    if rules.len() > 0 {
        let rest = rules.drop_first();
        assert(!covers(rules[0], tool));
        assert forall|i: int| 0 <= i < rest.len() implies !covers(#[trigger] rest[i], tool) by {
            assert(rest[i] == rules[i + 1]);
        }
        lemma_uncovered_tool_passes(rest, tool, value);
    }
}

/// A call whose input lacks the field its tool's rules read is never denied.
pub proof fn lemma_missing_field_passes(rules: Seq<Rule>, tool: CanonicalTool)
    ensures
        first_deny(rules, tool, None) is None,
    decreases rules.len(),
{
    if rules.len() > 0 {
        lemma_missing_field_passes(rules.drop_first(), tool);
    }
}

/// A verdict is final: rules appended after the rules that gave it do not
/// change it.
pub proof fn lemma_later_rules_keep_deny(
    rules: Seq<Rule>,
    more: Seq<Rule>,
    tool: CanonicalTool,
    value: Option<Seq<char>>,
)
    requires
        first_deny(rules, tool, value) is Some,
    ensures
        first_deny(rules + more, tool, value) == first_deny(rules, tool, value),
    decreases rules.len(),
{
    let all = rules + more;
    assert(all[0] == rules[0]);
    assert(all.drop_first() =~= rules.drop_first() + more);
    if !covers(rules[0], tool) || search_outcome(rules[0].regex@, value->0) != Some(true) {
        lemma_later_rules_keep_deny(rules.drop_first(), more, tool, value);
    }
}

/// A rule covers a tool exactly when the tool's canonical name is among the
/// names its matcher stands for.
pub proof fn lemma_covers_is_membership(rule: Rule, tool: CanonicalTool)
    ensures
        covers(rule, tool) <==> exists|k: int|
            0 <= k < matcher_names(rule.matcher@).len() && matcher_names(rule.matcher@)[k]
                == canonical_name(tool),
{
}

/// A rule whose matcher is "File" covers Read, Write and Edit and never Bash;
/// so rules that all have that matcher never deny a Bash call.
pub proof fn lemma_file_rules_skip_bash(rules: Seq<Rule>, value: Option<Seq<char>>, tool: CanonicalTool)
    requires
        forall|i: int| 0 <= i < rules.len() ==> (#[trigger] rules[i]).matcher@ == "File"@,
    ensures
        forall|i: int|
            0 <= i < rules.len() ==> (covers(#[trigger] rules[i], tool) <==> tool != CanonicalTool::Bash),
        first_deny(rules, CanonicalTool::Bash, value) is None,
{
    reveal_strlit("File");
    reveal_strlit("Bash");
    reveal_strlit("Read");
    reveal_strlit("Write");
    reveal_strlit("Edit");
    assert(!"File"@.contains('|'));
    lemma_single_name_matcher("File"@);
    let names = seq!["Read"@, "Write"@, "Edit"@];
    assert("Bash"@[0] == 'B' && "Read"@[0] == 'R' && "Write"@[0] == 'W' && "Edit"@[0] == 'E');
    assert(!names.contains("Bash"@)) by {
        if names.contains("Bash"@) {
            let k = choose|k: int| 0 <= k < names.len() && names[k] == "Bash"@;
            assert(names[k][0] != 'B');
        }
    }
    assert(names[0] == "Read"@ && names[1] == "Write"@ && names[2] == "Edit"@);
    assert forall|i: int| 0 <= i < rules.len() implies (covers(#[trigger] rules[i], tool) <==> tool
        != CanonicalTool::Bash) by {
        if tool != CanonicalTool::Bash {
            let k: int = if tool == CanonicalTool::Read { 0 } else if tool == CanonicalTool::Write { 1 } else { 2 };
            assert(names[k] == canonical_name(tool));
        }
    }
    lemma_uncovered_tool_passes(rules, CanonicalTool::Bash, value);
}

} // verus!

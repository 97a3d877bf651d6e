use vstd::prelude::*;

use crate::agent::Agent;
use crate::config::Rule;
use crate::evaluator::{evaluate, verdict};
use crate::input::HookInput;
use crate::output::{
    deny_json, deny_prefix, deny_suffix, format_deny, json_escape, json_unescape,
    lemma_deny_reason_decodes,
};

verus! {

/// What the hook writes to its standard output for a tool call: the agent's
/// deny response when a rule denies the call, nothing otherwise.
pub open spec fn response_text(agent: Agent, rules: Seq<Rule>, input: HookInput) -> Option<Seq<char>> {
    match verdict(agent, rules, input) {
        Some(message) => Some(deny_json(agent, message)),
        None => None,
    }
}

/// Decides the hook's answer to a tool call: `Some` deny response to print
/// when the first matching rule denies the call, `None` to stay silent.
pub fn respond(agent: Agent, rules: &[Rule], input: &HookInput) -> (r: Option<String>)
    ensures
        match r {
            Some(s) => response_text(agent, rules@, *input) == Some(s@),
            None => response_text(agent, rules@, *input) is None,
        },
{
    match evaluate(agent, rules, input) {
        Some(result) => Some(format_deny(agent, result.message.as_str())),
        None => None,
    }
}

/// The hook answers exactly the calls the rules deny: when they deny a call
/// with message `m`, it prints the agent's deny frame around the JSON string
/// literal of the whole of `m`, which decodes back to `m`; otherwise it prints
/// nothing.
pub proof fn lemma_response_carries_message(agent: Agent, rules: Seq<Rule>, input: HookInput)
    ensures
        verdict(agent, rules, input) is None ==> response_text(agent, rules, input) is None,
        verdict(agent, rules, input) is Some ==> ({
            let m = verdict(agent, rules, input)->0;
            &&& response_text(agent, rules, input) == Some(
                deny_prefix(agent) + seq!['"'] + json_escape(m) + seq!['"'] + deny_suffix(agent),
            )
            &&& json_unescape(json_escape(m)) == Some(m)
        }),
{
    if verdict(agent, rules, input) is Some {
        lemma_deny_reason_decodes(agent, verdict(agent, rules, input)->0);
    }
}

} // verus!

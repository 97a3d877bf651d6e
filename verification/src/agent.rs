use vstd::prelude::*;

use crate::text::{str_eq, str_views};

verus! {

/// The coding agent whose hook protocol is spoken.
#[derive(Debug, Clone, Copy, PartialEq, Eq, Structural)]
pub enum Agent {
    ClaudeCode,
    GeminiCli,
    CopilotCli,
}

/// Canonical tool names used in rules.
#[derive(Debug, Clone, Copy, PartialEq, Eq, Structural)]
pub enum CanonicalTool {
    Bash,
    Read,
    Write,
    Edit,
}

/// The name by which rules refer to a tool.
pub open spec fn canonical_name(tool: CanonicalTool) -> Seq<char> {
    match tool {
        CanonicalTool::Bash => "Bash"@,
        CanonicalTool::Read => "Read"@,
        CanonicalTool::Write => "Write"@,
        CanonicalTool::Edit => "Edit"@,
    }
}

/// The name under which an agent reports a tool in its hook input.
pub open spec fn agent_tool_name(agent: Agent, tool: CanonicalTool) -> Seq<char> {
    match agent {
        Agent::ClaudeCode => canonical_name(tool),
        Agent::GeminiCli => match tool {
            CanonicalTool::Bash => "run_shell_command"@,
            CanonicalTool::Read => "read_file"@,
            CanonicalTool::Write => "write_file"@,
            CanonicalTool::Edit => "replace"@,
        },
        Agent::CopilotCli => match tool {
            CanonicalTool::Bash => "bash"@,
            CanonicalTool::Read => "view"@,
            CanonicalTool::Write => "create"@,
            CanonicalTool::Edit => "edit"@,
        },
    }
}

/// The canonical tool that an agent-specific tool name stands for, if any.
pub open spec fn tool_for(agent: Agent, name: Seq<char>) -> Option<CanonicalTool> {
    if name == agent_tool_name(agent, CanonicalTool::Bash) {
        Some(CanonicalTool::Bash)
    } else if name == agent_tool_name(agent, CanonicalTool::Read) {
        Some(CanonicalTool::Read)
    } else if name == agent_tool_name(agent, CanonicalTool::Write) {
        Some(CanonicalTool::Write)
    } else if name == agent_tool_name(agent, CanonicalTool::Edit) {
        Some(CanonicalTool::Edit)
    } else {
        None
    }
}

/// The tool-input field that rules of a tool are matched against.
pub open spec fn default_field_name(tool: CanonicalTool) -> Seq<char> {
    match tool {
        CanonicalTool::Bash => "command"@,
        _ => "file_path"@,
    }
}

/// The name under which an agent reports a canonical field in its tool input.
pub open spec fn agent_field_name(agent: Agent, canonical_field: Seq<char>) -> Seq<char> {
    if agent == Agent::CopilotCli && canonical_field == "file_path"@ {
        "path"@
    } else {
        canonical_field
    }
}

impl CanonicalTool {
    /// Resolve an agent-specific tool name to a canonical name.
    /// Returns None if the tool name is not recognized.
    pub fn from_agent_name(agent: Agent, name: &str) -> (r: Option<Self>)
        ensures
            r == tool_for(agent, name@),
    {
        let (bash, read, write, edit) = match agent {
            Agent::ClaudeCode => ("Bash", "Read", "Write", "Edit"),
            Agent::GeminiCli => ("run_shell_command", "read_file", "write_file", "replace"),
            Agent::CopilotCli => ("bash", "view", "create", "edit"),
        };
        if str_eq(name, bash) {
            Some(CanonicalTool::Bash)
        } else if str_eq(name, read) {
            Some(CanonicalTool::Read)
        } else if str_eq(name, write) {
            Some(CanonicalTool::Write)
        } else if str_eq(name, edit) {
            Some(CanonicalTool::Edit)
        } else {
            None
        }
    }

    pub fn as_str(&self) -> (r: &'static str)
        ensures
            r@ == canonical_name(*self),
    {
        match self {
            CanonicalTool::Bash => "Bash",
            CanonicalTool::Read => "Read",
            CanonicalTool::Write => "Write",
            CanonicalTool::Edit => "Edit",
        }
    }

    /// Infer the canonical field name for this tool.
    pub fn default_field(&self) -> (r: &'static str)
        ensures
            r@ == default_field_name(*self),
    {
        match self {
            CanonicalTool::Bash => "command",
            CanonicalTool::Read | CanonicalTool::Write | CanonicalTool::Edit => "file_path",
        }
    }
}

/// Resolve a canonical field name to the agent-specific field name in tool_input.
pub fn resolve_field<'a>(agent: Agent, canonical_field: &'a str) -> (r: &'a str)
    ensures
        r@ == agent_field_name(agent, canonical_field@),
{
    match agent {
        Agent::CopilotCli => {
            if str_eq(canonical_field, "file_path") {
                "path"
            } else {
                canonical_field
            }
        },
        _ => canonical_field,
    }
}

/// The pieces of `s` between its '|' separators, left to right, as
/// `str::split('|')` yields them: one more piece than there are separators,
/// and empty pieces where separators are adjacent or at an end.
pub open spec fn split_bar(s: Seq<char>) -> Seq<Seq<char>>
    decreases s.len(),
{
    if s.len() == 0 {
        seq![Seq::<char>::empty()]
    } else {
        let init = split_bar(s.drop_last());
        if s.last() == '|' {
            init.push(Seq::<char>::empty())
        } else {
            init.update(init.len() - 1, init.last().push(s.last()))
        }
    }
}

/// What a single matcher name stands for: "File" is an alias for the three
/// file tools, every other name stands for itself.
pub open spec fn expand_name(name: Seq<char>) -> Seq<Seq<char>> {
    if name == "File"@ {
        seq!["Read"@, "Write"@, "Edit"@]
    } else {
        seq![name]
    }
}

/// The names, in order, that a list of matcher names stands for.
pub open spec fn expand_names(names: Seq<Seq<char>>) -> Seq<Seq<char>>
    decreases names.len(),
{
    if names.len() == 0 {
        Seq::empty()
    } else {
        expand_names(names.drop_last()) + expand_name(names.last())
    }
}

/// The tool names that a rule's matcher covers.
pub open spec fn matcher_names(matcher: Seq<char>) -> Seq<Seq<char>> {
    expand_names(split_bar(matcher))
}

fn push_expanded<'a>(out: &mut Vec<&'a str>, name: &'a str)
    ensures
        str_views(final(out)@) == str_views(old(out)@) + expand_name(name@),
{
    if str_eq(name, "File") {
        out.push("Read");
        out.push("Write");
        out.push("Edit");
    } else {
        out.push(name);
    }
    assert(str_views(out@) =~= str_views(old(out)@) + expand_name(name@));
}

/// Expand matcher aliases. "File" expands to ["Read", "Write", "Edit"].
/// Non-alias names are returned as-is.
pub fn expand_matcher<'a>(matcher: &'a str) -> (r: Vec<&'a str>)
    ensures
        str_views(r@) == matcher_names(matcher@),
{
    let n = matcher.unicode_len();
    let mut out: Vec<&'a str> = Vec::new();
    let mut start: usize = 0;
    let mut i: usize = 0;
    let ghost mut pieces: Seq<Seq<char>> = Seq::empty();
    assert(matcher@.take(0) =~= Seq::<char>::empty());
    assert(matcher@.subrange(0, 0) =~= Seq::<char>::empty());
    while i < n
        invariant
            n == matcher@.len(),
            start <= i <= n,
            split_bar(matcher@.take(i as int)) == pieces.push(matcher@.subrange(start as int, i as int)),
            str_views(out@) == expand_names(pieces),
        decreases n - i,
    {
        let c = matcher.get_char(i);
        let ghost pre = matcher@.take(i as int);
        assert(matcher@.take(i + 1).drop_last() =~= pre);
        assert(matcher@.take(i + 1).last() == c);
        if c == '|' {
            let piece = matcher.substring_char(start, i);
            push_expanded(&mut out, piece);
            proof {
                let old_pieces = pieces;
                pieces = pieces.push(piece@);
                assert(pieces.drop_last() =~= old_pieces);
                assert(matcher@.subrange(i + 1, i + 1) =~= Seq::<char>::empty());
            }
            start = i + 1;
        } else {
            assert(matcher@.subrange(start as int, i + 1) =~= matcher@.subrange(
                start as int,
                i as int,
            ).push(c));
            assert(split_bar(matcher@.take(i + 1)) =~= pieces.push(
                matcher@.subrange(start as int, i + 1),
            ));
        }
        i = i + 1;
    }
    let piece = matcher.substring_char(start, n);
    push_expanded(&mut out, piece);
    proof {
        assert(matcher@.take(n as int) =~= matcher@);
        assert(pieces.push(piece@).drop_last() =~= pieces);
    }
    out
}

/// Joins pieces with '|' between each two neighbours.
pub open spec fn join_bar(pieces: Seq<Seq<char>>) -> Seq<char>
    decreases pieces.len(),
{
    if pieces.len() == 0 {
        Seq::empty()
    } else if pieces.len() == 1 {
        pieces[0]
    } else {
        join_bar(pieces.drop_last()) + seq!['|'] + pieces.last()
    }
}

/// Each agent reports each tool under its own name, and a name resolves to a
/// tool exactly when it is that agent's name for the tool.
pub proof fn lemma_tool_names_resolve(agent: Agent, tool: CanonicalTool, name: Seq<char>)
    ensures
        tool_for(agent, agent_tool_name(agent, tool)) == Some(tool),
        tool_for(agent, name) == Some(tool) <==> name == agent_tool_name(agent, tool),
{
    reveal_strlit("Bash");
    reveal_strlit("Read");
    reveal_strlit("Write");
    reveal_strlit("Edit");
    reveal_strlit("run_shell_command");
    reveal_strlit("read_file");
    reveal_strlit("write_file");
    reveal_strlit("replace");
    reveal_strlit("bash");
    reveal_strlit("view");
    reveal_strlit("create");
    reveal_strlit("edit");
    assert("Bash"@.len() == 4 && "Bash"@[0] == 'B');
    assert("Read"@.len() == 4 && "Read"@[0] == 'R');
    assert("Write"@.len() == 5 && "Write"@[0] == 'W');
    assert("Edit"@.len() == 4 && "Edit"@[0] == 'E');
    assert("run_shell_command"@.len() == 17 && "run_shell_command"@[0] == 'r');
    assert("read_file"@.len() == 9 && "read_file"@[0] == 'r');
    assert("write_file"@.len() == 10 && "write_file"@[0] == 'w');
    assert("replace"@.len() == 7 && "replace"@[0] == 'r');
    assert("bash"@.len() == 4 && "bash"@[0] == 'b');
    assert("view"@.len() == 4 && "view"@[0] == 'v');
    assert("create"@.len() == 6 && "create"@[0] == 'c');
    assert("edit"@.len() == 4 && "edit"@[0] == 'e');
}

/// The canonical names of the tools are the names that `Agent::ClaudeCode` reports.
pub proof fn lemma_canonical_names_are_native(tool: CanonicalTool)
    ensures
        tool_for(Agent::ClaudeCode, canonical_name(tool)) == Some(tool),
{
    lemma_tool_names_resolve(Agent::ClaudeCode, tool, canonical_name(tool));
}

/// Splitting a matcher at '|' and joining the pieces with '|' gives the
/// matcher back, and no piece holds a '|'.
pub proof fn lemma_split_bar_join(s: Seq<char>)
    ensures
        split_bar(s).len() >= 1,
        join_bar(split_bar(s)) == s,
        forall|k: int| 0 <= k < split_bar(s).len() ==> !(#[trigger] split_bar(s)[k]).contains('|'),
    decreases s.len(),
{
    if s.len() == 0 {
        assert(!Seq::<char>::empty().contains('|'));
    } else {
        let init = split_bar(s.drop_last());
        lemma_split_bar_join(s.drop_last());
        let c = s.last();
        if c == '|' {
            let ps = init.push(Seq::<char>::empty());
            assert(ps.drop_last() =~= init);
            assert(join_bar(ps) =~= s);
            assert forall|k: int| 0 <= k < ps.len() implies !(#[trigger] ps[k]).contains('|') by {
                if k < init.len() {
                    assert(ps[k] == init[k]);
                } else {
                    assert(!Seq::<char>::empty().contains('|'));
                }
            }
        } else {
            let last = init.last().push(c);
            let ps = init.update(init.len() - 1, last);
            assert forall|k: int| 0 <= k < ps.len() implies !(#[trigger] ps[k]).contains('|') by {
                if k < init.len() - 1 {
                    assert(ps[k] == init[k]);
                } else {
                    assert(!init[init.len() - 1].contains('|'));
                    if last.contains('|') {
                        let j = choose|j: int| 0 <= j < last.len() && last[j] == '|';
                        assert(init.last()[j] == '|');
                    }
                }
            }
            if init.len() == 1 {
                assert(join_bar(init) == init[0]);
                assert(ps.len() == 1);
                assert(s =~= s.drop_last().push(c));
            } else {
                assert(ps.drop_last() =~= init.drop_last());
                assert(join_bar(init) == join_bar(init.drop_last()) + seq!['|'] + init.last());
                assert(join_bar(ps) =~= join_bar(init) + seq![c]);
                assert(s =~= s.drop_last().push(c));
            }
        }
    }
}

/// A matcher without '|' is a single name.
pub proof fn lemma_split_bar_single(s: Seq<char>)
    requires
        !s.contains('|'),
    ensures
        split_bar(s) == seq![s],
    decreases s.len(),
{
    if s.len() > 0 {
        let t = s.drop_last();
        assert(!t.contains('|')) by {
            if t.contains('|') {
                let j = choose|j: int| 0 <= j < t.len() && t[j] == '|';
                assert(s[j] == '|');
            }
        }
        lemma_split_bar_single(t);
        assert(s[s.len() - 1] != '|');
        assert(t.push(s.last()) =~= s);
        assert(split_bar(s) =~= seq![s]);
    } else {
        assert(s =~= Seq::<char>::empty());
    }
}

/// Names that are not the alias "File" are returned as they are.
pub proof fn lemma_expand_names_without_alias(names: Seq<Seq<char>>)
    requires
        forall|k: int| 0 <= k < names.len() ==> #[trigger] names[k] != "File"@,
    ensures
        expand_names(names) == names,
    decreases names.len(),
{
    if names.len() > 0 {
        let init = names.drop_last();
        assert forall|k: int| 0 <= k < init.len() implies #[trigger] init[k] != "File"@ by {
            assert(init[k] == names[k]);
        }
        lemma_expand_names_without_alias(init);
        assert(names.last() != "File"@);
        assert(expand_names(names) =~= names);
    }
}

/// A matcher without '|' that is not "File" covers exactly the tool it names;
/// "File" covers Read, Write and Edit.
pub proof fn lemma_single_name_matcher(matcher: Seq<char>)
    requires
        !matcher.contains('|'),
    ensures
        matcher_names(matcher) == expand_name(matcher),
        matcher == "File"@ ==> matcher_names(matcher) == seq!["Read"@, "Write"@, "Edit"@],
{
    lemma_split_bar_single(matcher);
    assert(seq![matcher].drop_last() =~= Seq::<Seq<char>>::empty());
    assert(expand_names(Seq::<Seq<char>>::empty()) =~= Seq::<Seq<char>>::empty());
    assert(expand_names(seq![matcher]) =~= expand_name(matcher));
}

/// A matcher none of whose pieces is "File" covers its pieces, in order.
pub proof fn lemma_matcher_without_alias(matcher: Seq<char>)
    requires
        forall|k: int|
            0 <= k < split_bar(matcher).len() ==> #[trigger] split_bar(matcher)[k] != "File"@,
    ensures
        matcher_names(matcher) == split_bar(matcher),
{
    lemma_expand_names_without_alias(split_bar(matcher));
}

/// Only the Copilot CLI names a field differently: every other agent reports
/// each canonical field under the canonical name itself, and the Copilot CLI
/// renames `file_path` to `path` and keeps every other name.
pub proof fn lemma_field_names_pass_through(agent: Agent, field: Seq<char>)
    ensures
        agent != Agent::CopilotCli ==> agent_field_name(agent, field) == field,
        agent == Agent::CopilotCli && field == "file_path"@ ==> agent_field_name(agent, field)
            == "path"@,
        agent == Agent::CopilotCli && field != "file_path"@ ==> agent_field_name(agent, field)
            == field,
        agent_field_name(agent, "command"@) == "command"@,
{
    reveal_strlit("command");
    reveal_strlit("file_path");
    assert("command"@.len() != "file_path"@.len());
}

/// Bash rules read the `command` field, and the file tools' rules read the
/// `file_path` field, under every agent's name for it.
pub proof fn lemma_tools_read_their_fields(agent: Agent, tool: CanonicalTool)
    ensures
        tool == CanonicalTool::Bash ==> agent_field_name(agent, default_field_name(tool))
            == "command"@,
        tool != CanonicalTool::Bash ==> agent_field_name(agent, default_field_name(tool)) == (
        if agent == Agent::CopilotCli {
            "path"@
        } else {
            "file_path"@
        }),
{
    lemma_field_names_pass_through(agent, "command"@);
    lemma_field_names_pass_through(agent, "file_path"@);
}

/// The tool-name table of every agent: each agent's names resolve to the
/// canonical tools as listed, for every agent and tool.
pub proof fn lemma_tool_name_table(agent: Agent)
    ensures
        tool_for(agent, "Bash"@) == (if agent == Agent::ClaudeCode { Some(CanonicalTool::Bash) } else { None }),
        tool_for(agent, "Read"@) == (if agent == Agent::ClaudeCode { Some(CanonicalTool::Read) } else { None }),
        tool_for(agent, "Write"@) == (if agent == Agent::ClaudeCode { Some(CanonicalTool::Write) } else { None }),
        tool_for(agent, "Edit"@) == (if agent == Agent::ClaudeCode { Some(CanonicalTool::Edit) } else { None }),
        tool_for(agent, "run_shell_command"@) == (if agent == Agent::GeminiCli { Some(CanonicalTool::Bash) } else { None }),
        tool_for(agent, "read_file"@) == (if agent == Agent::GeminiCli { Some(CanonicalTool::Read) } else { None }),
        tool_for(agent, "write_file"@) == (if agent == Agent::GeminiCli { Some(CanonicalTool::Write) } else { None }),
        tool_for(agent, "replace"@) == (if agent == Agent::GeminiCli { Some(CanonicalTool::Edit) } else { None }),
        tool_for(agent, "bash"@) == (if agent == Agent::CopilotCli { Some(CanonicalTool::Bash) } else { None }),
        tool_for(agent, "view"@) == (if agent == Agent::CopilotCli { Some(CanonicalTool::Read) } else { None }),
        tool_for(agent, "create"@) == (if agent == Agent::CopilotCli { Some(CanonicalTool::Write) } else { None }),
        tool_for(agent, "edit"@) == (if agent == Agent::CopilotCli { Some(CanonicalTool::Edit) } else { None }),
{
    reveal_strlit("Bash");
    reveal_strlit("Read");
    reveal_strlit("Write");
    reveal_strlit("Edit");
    reveal_strlit("run_shell_command");
    reveal_strlit("read_file");
    reveal_strlit("write_file");
    reveal_strlit("replace");
    reveal_strlit("bash");
    reveal_strlit("view");
    reveal_strlit("create");
    reveal_strlit("edit");
    assert("Bash"@.len() == 4 && "Bash"@[0] == 'B');
    assert("Read"@.len() == 4 && "Read"@[0] == 'R');
    assert("Write"@.len() == 5 && "Write"@[0] == 'W');
    assert("Edit"@.len() == 4 && "Edit"@[0] == 'E');
    assert("run_shell_command"@.len() == 17 && "run_shell_command"@[0] == 'r');
    assert("read_file"@.len() == 9 && "read_file"@[0] == 'r');
    assert("write_file"@.len() == 10 && "write_file"@[0] == 'w');
    assert("replace"@.len() == 7 && "replace"@[0] == 'r');
    assert("bash"@.len() == 4 && "bash"@[0] == 'b');
    assert("view"@.len() == 4 && "view"@[0] == 'v');
    assert("create"@.len() == 6 && "create"@[0] == 'c');
    assert("edit"@.len() == 4 && "edit"@[0] == 'e');
}

} // verus!

# guard-and-guide

A hook for coding agents that denies dangerous tool calls and tells the agent
why. Rules name tools (`Bash`, `Read`, `Write`, `Edit`, or `File` for the three
file tools), a regular expression, and a message; the first rule whose tool
matches and whose expression is found in the call's command or file path
denies the call with its message.

- `src/` is the verified library: tool-name resolution and matcher expansion
  (`agent`), the rules and hook input (`config`, `input`), regular-expression
  search through the `regex` crate (`pattern`), rule evaluation (`evaluator`),
  the agents' deny responses (`output`), the hook's answer (`hook`) and the
  command-line helpers (`cli`).
- `app/` is the program: argument parsing, reading the rules file and stdin,
  and printing the answer.

use vstd::prelude::*;

use crate::text::str_eq;

verus! {

/// What a rule can read of a tool call's input: the members of the input
/// object whose values are strings, as (name, value) pairs.
pub struct ToolInput {
    pub fields: Vec<(String, String)>,
}

/// Agent-independent representation of a hook input.
pub struct HookInput {
    pub tool_name: String,
    pub tool_input: ToolInput,
}

/// The string value of the first field named `key`, if there is one.
pub open spec fn field_value(fields: Seq<(String, String)>, key: Seq<char>) -> Option<Seq<char>>
    decreases fields.len(),
{
    if fields.len() == 0 {
        None
    } else if fields[0].0@ == key {
        Some(fields[0].1@)
    } else {
        field_value(fields.drop_first(), key)
    }
}

impl ToolInput {
    /// The string value of the field `key`, if the input has such a field.
    pub fn get_str(&self, key: &str) -> (r: Option<&str>)
        ensures
            match r {
                Some(v) => field_value(self.fields@, key@) == Some(v@),
                None => field_value(self.fields@, key@) is None,
            },
    {
        let mut i: usize = 0;
        assert(self.fields@.skip(0) =~= self.fields@);
        while i < self.fields.len()
            invariant
                i <= self.fields@.len(),
                field_value(self.fields@, key@) == field_value(self.fields@.skip(i as int), key@),
            decreases self.fields.len() - i,
        {
            let ghost rest = self.fields@.skip(i as int);
            assert(rest[0] == self.fields@[i as int]);
            assert(rest.drop_first() =~= self.fields@.skip(i + 1));
            if str_eq(self.fields[i].0.as_str(), key) {
                return Some(self.fields[i].1.as_str());
            }
            i = i + 1;
        }
        None
    }
}

} // verus!

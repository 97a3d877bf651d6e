use vstd::prelude::*;

verus! {

/// One rule of the configuration: the tools it covers, the pattern that the
/// relevant field of a tool call is searched for, and the message that a
/// denied call is answered with.
pub struct Rule {
    pub matcher: String,
    pub regex: String,
    pub message: String,
}

/// The whole configuration file.
pub struct Config {
    pub version: u32,
    pub rules: Vec<Rule>,
}

} // verus!

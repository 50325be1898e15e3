//! The reference guest capability: the behaviour of the echo artifact that
//! satisfies the capability treaty (one text in, one text out). The sandbox
//! packaging around it is host-side plumbing; its observable behaviour is
//! specified here.

use vstd::prelude::*;
use vstd::string::StringExecFns;

verus! {

/// The echo capability's guest logic.
pub struct MyTool;

impl MyTool {
    /// The treaty entry point: echo the input back inside a fixed frame.
    pub fn run(input: String) -> (r: String)
        ensures
            r@ == "(Guest) IronClaw processed: '"@ + input@ + "'"@,
    {
        let mut s = "(Guest) IronClaw processed: '".to_owned();
        s.append(input.as_str());
        s.append("'");
        s
    }
}

} // verus!

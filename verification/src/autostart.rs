//! Running at login.

use crate::text::text_eq;
use vstd::prelude::*;

verus! {

/// The argument with which the program is started at login. Such a start opens
/// no window.
pub const LAUNCH_ARG: &'static str = "--minimized";

/// Whether the arguments say that the program was started at login.
pub open spec fn asks_for_no_window(args: Seq<String>) -> bool {
    exists|i: int| 0 <= i < args.len() && (#[trigger] args[i])@ == LAUNCH_ARG@
}

/// Whether the program was started at login, by its arguments.
pub fn launched_minimized(args: &Vec<String>) -> (r: bool)
    ensures
        r == asks_for_no_window(args@),
        r == exists|i: int| 0 <= i < args@.len() && (#[trigger] args@[i])@ == LAUNCH_ARG@,
{
    let mut i: usize = 0;
    while i < args.len()
        invariant
            i <= args@.len(),
            forall|j: int| 0 <= j < i ==> (#[trigger] args@[j])@ != LAUNCH_ARG@,
        decreases args@.len() - i,
    {
        if text_eq(args[i].as_str(), LAUNCH_ARG) {
            return true;
        }
        i = i + 1;
    }
    false
}

/// A start is one at login exactly if `--minimized` is among the arguments,
/// wherever that is: in the first part of them or in the rest.
pub proof fn a_start_at_login_says_so(args: Seq<String>, rest: Seq<String>, arg: String)
    ensures
        asks_for_no_window(seq![arg]) <==> arg@ == "--minimized"@,
        !asks_for_no_window(Seq::empty()),
        asks_for_no_window(args + rest) <==> asks_for_no_window(args) || asks_for_no_window(rest),
{
    assert(seq![arg][0] == arg);
    if asks_for_no_window(args) {
        let i = choose|i: int| 0 <= i < args.len() && (#[trigger] args[i])@ == LAUNCH_ARG@;
        assert((args + rest)[i] == args[i]);
    }
    if asks_for_no_window(rest) {
        let i = choose|i: int| 0 <= i < rest.len() && (#[trigger] rest[i])@ == LAUNCH_ARG@;
        assert((args + rest)[args.len() + i] == rest[i]);
    }
}

} // verus!

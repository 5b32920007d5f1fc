//! Planning the external test tool's invocation for one unit.

use vstd::prelude::*;
use vstd::string::StringExecFns;

verus! {

/// How the external test tool is to be run for one unit: its name, its
/// arguments in order, and whether its standard error is suppressed rather
/// than passed through. The tool runs with the unit's test-project directory
/// as working directory, with standard input and output suppressed; its exit
/// status alone decides success.
pub struct Invocation {
    pub program: String,
    pub args: Vec<String>,
    pub suppress_stderr: bool,
}

/// The tool's argument list: quiet mode and the run subcommand, followed by
/// the rebuild flag exactly when a forced rebuild is wanted.
pub open spec fn invocation_args(force: bool) -> Seq<Seq<char>> {
    if force {
        seq!["--quiet"@, "run"@, "--force"@]
    } else {
        seq!["--quiet"@, "run"@]
    }
}

/// The rebuild flag is handed to the tool if and only if a forced rebuild is
/// wanted: disabling it omits the flag from the invocation, it does not merely
/// reorder it.
pub proof fn lemma_force_flag_iff(force: bool)
    ensures
        invocation_args(force).contains("--force"@) <==> force,
{
    reveal_strlit("--quiet");
    reveal_strlit("run");
    reveal_strlit("--force");
    assert("--quiet"@[2] != "--force"@[2]);
    assert("run"@.len() != "--force"@.len());
    if force {
        assert(invocation_args(true)[2] == "--force"@);
    } else {
        assert forall|i: int|
            0 <= i < invocation_args(false).len() implies invocation_args(false)[i]
            != "--force"@ by {
            assert(invocation_args(false)[0] == "--quiet"@);
            assert(invocation_args(false)[1] == "run"@);
        }
    }
}

/// Plan the tool invocation for one unit under the current options: the fixed
/// program and subcommand, the rebuild flag exactly when `force` is set, and
/// standard error suppressed exactly when `simple` is set.
pub fn plan_invocation(force: bool, simple: bool) -> (inv: Invocation)
    ensures
        inv.program@ == "procon-assistant"@,
        inv.args.deep_view() == invocation_args(force),
        inv.suppress_stderr == simple,
{
    let mut args: Vec<String> = Vec::new();
    args.push(String::from_str("--quiet"));
    args.push(String::from_str("run"));
    if force {
        args.push(String::from_str("--force"));
    }
    proof {
        assert(args.deep_view() =~= invocation_args(force));
    }
    Invocation { program: String::from_str("procon-assistant"), args, suppress_stderr: simple }
}

} // verus!

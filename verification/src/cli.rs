//! Command-line options: color, forced rebuild, and stderr suppression.

use vstd::prelude::*;
use vstd::string::StringExecFns;

verus! {

/// The options the driver recognizes, after the command line is parsed.
#[derive(Debug, Clone, Copy)]
pub struct Config {
    /// Colorize the report (default: whether standard output is a terminal;
    /// forced on or off by the color flags).
    pub colorize: bool,
    /// Ask the tool for a forced rebuild (default on; switched off by the
    /// no-force flag).
    pub force: bool,
    /// Suppress the tool's standard error (default off; switched on by the
    /// simple flag).
    pub simple: bool,
}

/// The configuration before any flag is applied.
pub open spec fn initial_config(stdout_is_tty: bool) -> Config {
    Config { colorize: stdout_is_tty, force: true, simple: false }
}

/// Is this argument a flag the driver knows? Anything else is a fatal
/// startup error naming the argument.
pub open spec fn flag_known(a: Seq<char>) -> bool {
    ||| a == "--color=always"@
    ||| a == "--color=none"@
    ||| a == "--color=auto"@
    ||| a == "--no-force"@
    ||| a == "-n"@
    ||| a == "--simple"@
    ||| a == "-s"@
}

/// The effect of one known flag on the configuration. The automatic color
/// choice keeps whatever is currently selected.
pub open spec fn apply_flag(c: Config, a: Seq<char>) -> Config {
    if a == "--color=always"@ {
        Config { colorize: true, force: c.force, simple: c.simple }
    } else if a == "--color=none"@ {
        Config { colorize: false, force: c.force, simple: c.simple }
    } else if a == "--no-force"@ || a == "-n"@ {
        Config { colorize: c.colorize, force: false, simple: c.simple }
    } else if a == "--simple"@ || a == "-s"@ {
        Config { colorize: c.colorize, force: c.force, simple: true }
    } else {
        c
    }
}

/// Parsing the arguments from position `i` on: the final configuration, or
/// the position of the first unknown argument.
pub open spec fn parse_from(c: Config, args: Seq<Seq<char>>, i: int) -> Result<Config, int>
    decreases args.len() - i,
{
    if i < 0 || i >= args.len() {
        Result::Ok(c)
    } else if !flag_known(args[i]) {
        Result::Err(i)
    } else {
        parse_from(apply_flag(c, args[i]), args, i + 1)
    }
}

/// What parsing a whole command line (without the program name) yields.
pub open spec fn spec_parse_args(args: Seq<Seq<char>>, stdout_is_tty: bool) -> Result<
    Config,
    int,
> {
    parse_from(initial_config(stdout_is_tty), args, 0)
}

/// Parse the command-line arguments, in order. Returns the configuration, or
/// the index of the first argument that is not a recognized flag — a fatal
/// startup error.
pub fn parse_args(args: &Vec<String>, stdout_is_tty: bool) -> (r: Result<Config, usize>)
    ensures
        spec_parse_args(args.deep_view(), stdout_is_tty) matches Result::Ok(c) ==> r
            matches Result::Ok(rc) && rc == c,
        spec_parse_args(args.deep_view(), stdout_is_tty) matches Result::Err(i) ==> r
            matches Result::Err(ri) && ri as int == i,
{
    let f_color_always = String::from_str("--color=always");
    let f_color_none = String::from_str("--color=none");
    let f_color_auto = String::from_str("--color=auto");
    let f_no_force = String::from_str("--no-force");
    let f_n = String::from_str("-n");
    let f_simple = String::from_str("--simple");
    let f_s = String::from_str("-s");
    let ghost dv = args.deep_view();
    let mut c = Config { colorize: stdout_is_tty, force: true, simple: false };
    let mut i: usize = 0;
    while i < args.len()
        invariant
            i <= args@.len(),
            dv == args.deep_view(),
            f_color_always@ == "--color=always"@,
            f_color_none@ == "--color=none"@,
            f_color_auto@ == "--color=auto"@,
            f_no_force@ == "--no-force"@,
            f_n@ == "-n"@,
            f_simple@ == "--simple"@,
            f_s@ == "-s"@,
            spec_parse_args(dv, stdout_is_tty) == parse_from(c, dv, i as int),
        decreases args@.len() - i,
    {
        proof {
            assert(dv[i as int] == args@[i as int]@);
        }
        let a = &args[i];
        if *a == f_color_always {
            c = Config { colorize: true, force: c.force, simple: c.simple };
        } else if *a == f_color_none {
            c = Config { colorize: false, force: c.force, simple: c.simple };
        } else if *a == f_color_auto {
            // the automatic choice keeps the current selection
            proof {
                reveal_strlit("--color=auto");
                reveal_strlit("--no-force");
                reveal_strlit("-n");
                reveal_strlit("--simple");
                reveal_strlit("-s");
                assert("--color=auto"@.len() != "--no-force"@.len());
                assert("--color=auto"@.len() != "-n"@.len());
                assert("--color=auto"@.len() != "--simple"@.len());
                assert("--color=auto"@.len() != "-s"@.len());
            }
        } else if *a == f_no_force || *a == f_n {
            c = Config { colorize: c.colorize, force: false, simple: c.simple };
        } else if *a == f_simple || *a == f_s {
            c = Config { colorize: c.colorize, force: c.force, simple: true };
        } else {
            return Result::Err(i);
        }
        i = i + 1;
    }
    Result::Ok(c)
}

} // verus!

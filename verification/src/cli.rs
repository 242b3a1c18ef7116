use vstd::prelude::*;

use crate::art::Mode;
use crate::text::str_eq;

verus! {

/// How a run proceeds once the command line is read.
#[derive(Clone, Copy, PartialEq, Eq, Structural, Debug)]
pub enum Invocation {
    /// Print the usage text and stop: no fact collection, no rendering.
    Help,
    /// The legacy festive spelling was used: print the migration notice
    /// and stop with a user error; no fact collection, no rendering.
    LegacyXmas,
    /// Render the banner in the given mode.
    Run(Mode),
}

/// Some argument equals the given word.
pub open spec fn has_arg(args: Seq<Seq<char>>, w: Seq<char>) -> bool {
    exists|i: int| 0 <= i < args.len() && args[i] == w
}

/// The decision the command line resolves to. The help flags win over
/// everything; next, the legacy festive spelling anywhere is rejected
/// outright — a distinct pre-check, before mode resolution, so that it
/// short-circuits regardless of other flags present; only then does a
/// mode flag in the first argument position select a mode.
pub open spec fn parse_spec(args: Seq<Seq<char>>) -> Invocation {
    if has_arg(args, "-h"@) || has_arg(args, "--help"@) {
        Invocation::Help
    } else if has_arg(args, "-xmas"@) {
        Invocation::LegacyXmas
    } else if args.len() >= 2 && (args[1] == "--bonsai"@ || args[1] == "-b"@) {
        Invocation::Run(Mode::Bonsai)
    } else if args.len() >= 2 && (args[1] == "--xmas"@ || args[1] == "-x"@) {
        Invocation::Run(Mode::Christmas)
    } else {
        Invocation::Run(Mode::Default)
    }
}

/// A help flag anywhere short-circuits to the usage text, whatever else
/// the command line holds.
pub proof fn lemma_help_wins(args: Seq<Seq<char>>)
    requires
        has_arg(args, "-h"@) || has_arg(args, "--help"@),
    ensures
        parse_spec(args) == Invocation::Help,
{
}

/// Short of a help flag, the legacy festive spelling anywhere
/// short-circuits to the migration notice, regardless of other flags.
pub proof fn lemma_legacy_short_circuits(args: Seq<Seq<char>>)
    requires
        has_arg(args, "-xmas"@),
        !has_arg(args, "-h"@),
        !has_arg(args, "--help"@),
    ensures
        parse_spec(args) == Invocation::LegacyXmas,
{
}

/// Whether any argument equals the given word.
pub fn contains_arg(args: &Vec<String>, w: &str) -> (r: bool)
    ensures
        r == has_arg(args.deep_view(), w@),
{
    let mut i: usize = 0;
    while i < args.len()
        invariant
            0 <= i <= args.len(),
            forall|j: int| 0 <= j < i ==> args.deep_view()[j] != w@,
        decreases args.len() - i,
    {
        if str_eq(args[i].as_str(), w) {
            assert(args.deep_view()[i as int] == w@);
            return true;
        }
        i = i + 1;
    }
    false
}

/// Resolve the full argument list (program name included) to the run's
/// one outcome.
pub fn parse_args(args: &Vec<String>) -> (r: Invocation)
    ensures
        r == parse_spec(args.deep_view()),
{
    if contains_arg(args, "-h") || contains_arg(args, "--help") {
        return Invocation::Help;
    }
    if contains_arg(args, "-xmas") {
        return Invocation::LegacyXmas;
    }
    if args.len() >= 2 {
        if str_eq(args[1].as_str(), "--bonsai") || str_eq(args[1].as_str(), "-b") {
            return Invocation::Run(Mode::Bonsai);
        }
        if str_eq(args[1].as_str(), "--xmas") || str_eq(args[1].as_str(), "-x") {
            return Invocation::Run(Mode::Christmas);
        }
    }
    Invocation::Run(Mode::Default)
}

/// The usage text, line by line.
pub open spec fn help_lines_spec() -> Seq<Seq<char>> {
    seq![
        "Usage:"@,
        "  \x1b[1m\x1b[0;32mtreefetch\x1b[0m [options]"@,
        ""@,
        "OPTIONS"@,
        "  -b, --bonsai   Show a bonsai tree"@,
        "  -x, --xmas     Show a Christmas tree"@,
        "  -h, --help     Display this help message"@,
    ]
}

/// The migration notice for the legacy festive spelling: exactly two
/// lines, the rejection and the replacement to run instead.
pub open spec fn legacy_lines_spec() -> Seq<Seq<char>> {
    seq![
        "\x1b[0;32m\x1b[1mERROR:\x1b[0m \x1b[1m-xmas\x1b[0m has been replaced by \x1b[1m--xmas\x1b[0m."@,
        "Run \x1b[1mtreefetch --xmas\x1b[0m instead."@,
    ]
}

/// The usage text a help run prints.
pub fn help_lines() -> (r: Vec<String>)
    ensures
        r.deep_view() == help_lines_spec(),
{
    let mut r: Vec<String> = Vec::new();
    r.push("Usage:".to_owned());
    r.push("  \x1b[1m\x1b[0;32mtreefetch\x1b[0m [options]".to_owned());
    r.push("".to_owned());
    r.push("OPTIONS".to_owned());
    r.push("  -b, --bonsai   Show a bonsai tree".to_owned());
    r.push("  -x, --xmas     Show a Christmas tree".to_owned());
    r.push("  -h, --help     Display this help message".to_owned());
    proof {
        assert(r.deep_view() =~= help_lines_spec());
    }
    r
}

/// The migration notice a legacy-flag run prints.
pub fn legacy_lines() -> (r: Vec<String>)
    ensures
        r.deep_view() == legacy_lines_spec(),
        r.len() == 2,
{
    let mut r: Vec<String> = Vec::new();
    r.push(
        "\x1b[0;32m\x1b[1mERROR:\x1b[0m \x1b[1m-xmas\x1b[0m has been replaced by \x1b[1m--xmas\x1b[0m.".to_owned(),
    );
    r.push("Run \x1b[1mtreefetch --xmas\x1b[0m instead.".to_owned());
    proof {
        assert(r.deep_view() =~= legacy_lines_spec());
    }
    r
}

} // verus!

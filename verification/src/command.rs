//! The arguments with which the child is started: the executable of the
//! driver is run again and told to run exactly one test.

use vstd::prelude::*;

verus! {

/// What a vector of strings holds, as contracts see it.
pub open spec fn texts(strings: Seq<String>) -> Seq<Seq<char>> {
    strings.map_values(|s: String| s@)
}

/// The arguments that make the test harness run the test named `name` and
/// no other: quietly, on one thread, with its output passed through, and
/// with `name` matched exactly and taken as a filter whatever it looks
/// like.
pub open spec fn arguments_for(name: Seq<char>) -> Seq<Seq<char>> {
    seq!["--quiet"@, "--test-threads"@, "1"@, "--nocapture"@, "--exact"@, "--"@, name]
}

/// Builds the arguments of the child's command line for the test named
/// `test_name`.
pub fn child_arguments(test_name: &str) -> (args: Vec<String>)
    ensures
        texts(args@) == arguments_for(test_name@),
{
    let mut args: Vec<String> = Vec::new();
    args.push("--quiet".to_owned());
    args.push("--test-threads".to_owned());
    args.push("1".to_owned());
    args.push("--nocapture".to_owned());
    args.push("--exact".to_owned());
    args.push("--".to_owned());
    args.push(test_name.to_owned());
    assert(texts(args@) =~= arguments_for(test_name@));
    args
}

} // verus!

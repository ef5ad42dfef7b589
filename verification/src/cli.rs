//! Command-line argument handling: the batch takes exactly two positional
//! arguments, the input directory and the output directory.

use vstd::prelude::*;

verus! {

/// The two directories a run works between.
pub struct RunArgs {
    pub input_dir: String,
    pub output_dir: String,
}

/// Reads the two positional arguments out of an argument list whose first
/// entry is the program name. Yields nothing — a usage error — exactly
/// when either argument is missing.
pub fn parse_args(args: &Vec<String>) -> (r: Option<RunArgs>)
    ensures
        (r is Some) <==> args@.len() >= 3,
        r matches Some(a) ==> a.input_dir@ == args@[1]@ && a.output_dir@ == args@[2]@,
{
    if args.len() >= 3 {
        let input_dir = args[1].clone();
        let output_dir = args[2].clone();
        Some(RunArgs { input_dir, output_dir })
    } else {
        None
    }
}

} // verus!

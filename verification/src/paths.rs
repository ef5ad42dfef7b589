//! Building output file paths. Every generated file is named
//! `<dir>/<name>_<suffix>.jpg`.

use vstd::prelude::*;
use vstd::string::*;

verus! {

/// The exact characters of an output path: the output directory, a slash,
/// the sanitized name, an underscore, the effect suffix, and `.jpg`.
pub open spec fn output_path_spec(dir: Seq<char>, name: Seq<char>, suffix: Seq<char>) -> Seq<
    char,
> {
    dir + "/"@ + name + "_"@ + suffix + ".jpg"@
}

/// Builds the output path for one generated file.
pub fn output_path(dir: &str, name: &str, suffix: &str) -> (r: String)
    ensures
        r@ == output_path_spec(dir@, name@, suffix@),
{
    let mut r = dir.to_owned();
    r.append("/");
    r.append(name);
    r.append("_");
    r.append(suffix);
    r.append(".jpg");
    r
}

} // verus!

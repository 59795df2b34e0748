//! Argument list for the external wallpaper-setting command.

use vstd::prelude::*;
use vstd::string::StringExecFns;

verus! {

/// Builds the argument list the wallpaper-setter is invoked with:
/// `img <path> --resize <mode>`. The binary itself is caller-supplied and
/// spawning it is the caller's job.
pub fn wallpaper_args(path: &str, resize_mode: &str) -> (r: Vec<String>)
    ensures
        r@.len() == 4,
        r@[0]@ == "img"@,
        r@[1]@ == path@,
        r@[2]@ == "--resize"@,
        r@[3]@ == resize_mode@,
{
    let mut args: Vec<String> = Vec::new();
    args.push(String::from_str("img"));
    args.push(String::from_str(path));
    args.push(String::from_str("--resize"));
    args.push(String::from_str(resize_mode));
    args
}

} // verus!

//! What the command line asks for.

use vstd::prelude::*;

verus! {

/// The path of the program to run, taken from the command line: `args` is
/// the whole of it, the name of the executable first.
///
/// The driver takes exactly one argument, the path. With none, or with more
/// than one, there is nothing to run and the result is `None`.
pub fn rom_path(args: &[String]) -> (path: Option<&String>)
    ensures
        args@.len() == 2 ==> path == Some(&args@[1]),
        args@.len() != 2 ==> path is None,
{
    if args.len() == 2 {
        Some(&args[1])
    } else {
        None
    }
}

} // verus!

//! Whether the benchmark may start.
use vstd::prelude::*;

verus! {

/// Why the benchmark refuses to start.
#[derive(Clone, Copy, Debug, PartialEq, Eq, Structural)]
pub enum UsageError {
    /// Not exactly one argument was given.
    ArgumentCount,
    /// The working directory exists already.
    PathExists,
}

/// The working directory named by the arguments that follow the program's
/// own name: there must be exactly one.
pub fn directory_argument(args: Vec<String>) -> (r: Result<String, UsageError>)
    ensures
        args@.len() == 1 <==> r is Ok,
        r matches Ok(dir) ==> dir == args@[0],
        args@.len() != 1 ==> r == Err::<String, UsageError>(UsageError::ArgumentCount),
{
    let mut args = args;
    if args.len() != 1 {
        return Err(UsageError::ArgumentCount);
    }
    match args.pop() {
        Some(dir) => Ok(dir),
        None => Err(UsageError::ArgumentCount),
    }
}

/// The benchmark works in a directory of its own: it refuses one that
/// exists already.
pub fn check_fresh(path_exists: bool) -> (r: Result<(), UsageError>)
    ensures
        r == (if path_exists {
            Err(UsageError::PathExists)
        } else {
            Ok(())
        }),
{
    if path_exists {
        Err(UsageError::PathExists)
    } else {
        Ok(())
    }
}

} // verus!

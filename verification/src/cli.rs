//! What the command line asks for.

use vstd::prelude::*;

verus! {

/// The environment variable that holds the credential.
pub const API_KEY_VARIABLE: &'static str = "OPENAI_API_KEY";

/// What stands before the program's name in the usage line.
pub const USAGE_PREFIX: &'static str = "Usage: ";

/// What stands behind the program's name in the usage line.
pub const USAGE_SUFFIX: &'static str = " <path_to_markdown_file>";

/// The path of the file to review: the one argument behind the program's
/// name, where `args` holds exactly the two.
pub open spec fn path_in(args: Seq<String>) -> Option<Seq<char>> {
    if args.len() == 2 {
        Some(args[1]@)
    } else {
        None
    }
}

/// The path of the file to review, if the command line names exactly one;
/// `args` starts with the program's name.
pub fn file_path(args: &Vec<String>) -> (r: Option<&str>)
    ensures
        match r {
            Some(path) => path_in(args@) == Some(path@),
            None => path_in(args@) is None,
        },
{
    if args.len() == 2 {
        Some(args[1].as_str())
    } else {
        None
    }
}

/// The line that tells how `program` is to be called.
pub fn usage_line(program: &str) -> (line: String)
    ensures
        line@ == USAGE_PREFIX@ + program@ + USAGE_SUFFIX@,
{
    USAGE_PREFIX.to_owned().concat(program).concat(USAGE_SUFFIX)
}

} // verus!

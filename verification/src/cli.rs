//! Command-line path selection: which file the program will try to open, and
//! the usage text printed when it was started without one.

use vstd::prelude::*;
use vstd::string::StringExecFns;

verus! {

/// The path the program will try to open, and whether the usage text must be
/// printed first.
pub struct PathChoice {
    pub path: String,
    pub show_usage: bool,
}

/// The fallback path tried when no argument is given.
pub open spec fn default_path() -> Seq<char> {
    "~/example.stl"@
}

/// Pick the STL file from the command-line arguments, the program's own name
/// excluded: the first argument if any was given — extra arguments are
/// ignored — and otherwise the fallback path, with the usage text to be
/// printed first.
pub fn choose_path(args: &Vec<String>) -> (r: PathChoice)
    ensures
        args@.len() == 0 ==> r.show_usage && r.path@ == default_path(),
        args@.len() >= 1 ==> !r.show_usage && r.path@ == args@[0]@,
{
    if args.len() == 0 {
        PathChoice { path: String::from_str("~/example.stl"), show_usage: true }
    } else {
        PathChoice { path: args[0].clone(), show_usage: false }
    }
}

/// The usage text, line by line, as it is printed when no argument is given.
pub fn usage_lines() -> (r: Vec<String>)
    ensures
        r@.len() == 8,
        r@[0]@ == Seq::<char>::empty(),
        r@[1]@ == "Please specify an STL file"@,
        r@[2]@ == "Since none was specified, bad-stl will default to ~/example.stl"@,
        r@[3]@ == "but this is unlikely to exist, and the program will most likely panic."@,
        r@[4]@ == "---------------------"@,
        r@[5]@ == "usage: bad-stl <file>"@,
        r@[6]@ == Seq::<char>::empty(),
        r@[7]@ == Seq::<char>::empty(),
{
    let mut lines: Vec<String> = Vec::new();
    lines.push(String::new());
    lines.push(String::from_str("Please specify an STL file"));
    lines.push(String::from_str("Since none was specified, bad-stl will default to ~/example.stl"));
    lines.push(
        String::from_str("but this is unlikely to exist, and the program will most likely panic."),
    );
    lines.push(String::from_str("---------------------"));
    lines.push(String::from_str("usage: bad-stl <file>"));
    lines.push(String::new());
    lines.push(String::new());
    lines
}

} // verus!

//! What the launch of the installer reports: tagged output lines, the exit
//! code, and its errors.
use vstd::prelude::*;

verus! {

/// The tag before each line that the launched program writes to standard output.
pub open spec fn out_tag() -> Seq<char> {
    "[wine] "@
}

/// The tag before each line that the launched program writes to standard error.
pub open spec fn err_tag() -> Seq<char> {
    "[wine-err] "@
}

/// A line of the launched program's standard output, as it is forwarded.
pub fn tag_out_line(line: &str) -> (r: String)
    ensures
        r@ == out_tag() + line@,
{
    let mut r = String::from_str("[wine] ");
    r.append(line);
    r
}

/// A line of the launched program's standard error, as it is forwarded.
pub fn tag_err_line(line: &str) -> (r: String)
    ensures
        r@ == err_tag() + line@,
{
    let mut r = String::from_str("[wine-err] ");
    r.append(line);
    r
}

/// The exit code to report for a finished program: its own, or -1 where it
/// has none (it was ended by a signal).
pub fn exit_code_or_sentinel(code: Option<i32>) -> (r: i32)
    ensures
        code is Some ==> r == code->0,
        code is None ==> r == -1,
{
    match code {
        Some(c) => c,
        None => -1,
    }
}

/// Why the installer could not be run to its end.
#[derive(Debug)]
pub enum LaunchError {
    /// The runtime prefix directory could not be created; the text says why.
    PrefixCreation(String),
    /// No file stands at the executable's path, given here.
    NotFound(String),
    /// The program could not be started or waited for; the text says why.
    Spawn(String),
}

/// What the message of a launch error reads.
pub open spec fn launch_message(e: LaunchError) -> Seq<char> {
    match e {
        LaunchError::PrefixCreation(why) => why@,
        LaunchError::NotFound(path) => "Executável não encontrado: "@ + path@,
        LaunchError::Spawn(why) => why@,
    }
}

impl LaunchError {
    /// The message that tells the user what went wrong.
    pub fn message(&self) -> (r: String)
        ensures
            r@ == launch_message(*self),
    {
        match self {
            LaunchError::PrefixCreation(why) => why.clone(),
            LaunchError::NotFound(path) => {
                let mut m = String::from_str("Executável não encontrado: ");
                m.append(path.as_str());
                m
            },
            LaunchError::Spawn(why) => why.clone(),
        }
    }
}

} // verus!

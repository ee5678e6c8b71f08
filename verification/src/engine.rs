//! The container-engine command-line protocol.
//!
//! Each lifecycle operation on a sandbox instance is one invocation of the
//! engine CLI (`podman <word>...`). This module fixes the exact words of each
//! invocation and classifies what came back: a non-zero exit is reported with
//! the command word and its captured standard error, a failure to launch the
//! engine at all is a host I/O error, and undecodable output is flagged as
//! such. The unverified driver only spawns the process and reports an
//! [`Invocation`]; every decision about the outcome is made here.

use crate::outcome::Error;
use crate::outcome::ErrorV;
use vstd::prelude::*;

verus! {

/// Whether `c` is whitespace: the Unicode White_Space set — tab through
/// carriage return, space, next line, no-break space, ogham space mark, the
/// en-quad-to-hair-space range, the line and paragraph separators, narrow
/// no-break space, medium mathematical space, and ideographic space.
pub open spec fn is_space(c: char) -> bool {
    (0x09 <= c as u32 && c as u32 <= 0x0d) || c as u32 == 0x20 || c as u32 == 0x85 || c as u32
        == 0xa0 || c as u32 == 0x1680 || (0x2000 <= c as u32 && c as u32 <= 0x200a) || c as u32
        == 0x2028 || c as u32 == 0x2029 || c as u32 == 0x202f || c as u32 == 0x205f || c as u32
        == 0x3000
}

/// `s` with every trailing whitespace character removed.
pub open spec fn trimmed_end(s: Seq<char>) -> Seq<char>
    decreases s.len(),
{
    if s.len() == 0 {
        s
    } else if is_space(s.last()) {
        trimmed_end(s.drop_last())
    } else {
        s
    }
}

/// Whether `c` is whitespace.
fn is_space_char(c: char) -> (r: bool)
    ensures
        r == is_space(c),
{
    let u: u32 = c as u32;
    (0x09 <= u && u <= 0x0d) || u == 0x20 || u == 0x85 || u == 0xa0 || u == 0x1680 || (0x2000 <= u
        && u <= 0x200a) || u == 0x2028 || u == 0x2029 || u == 0x202f || u == 0x205f || u == 0x3000
}

/// Remove trailing whitespace, as the engine terminates the instance id it
/// prints with a newline.
pub fn trim_end_spaces(s: &str) -> (r: String)
    ensures
        r@ == trimmed_end(s@),
{
    let n = s.unicode_len();
    let mut end: usize = n;
    proof {
        assert(s@.take(n as int) =~= s@);
    }
    while end > 0 && is_space_char(s.get_char(end - 1))
        invariant
            end <= n,
            n == s@.len(),
            trimmed_end(s@) == trimmed_end(s@.take(end as int)),
        decreases end,
    {
        proof {
            assert(s@.take(end as int).drop_last() =~= s@.take(end - 1));
            assert(s@.take(end as int).last() == s@[end - 1]);
        }
        end = end - 1;
    }
    let r = s.substring_char(0, end).to_owned();
    proof {
        assert(r@ =~= s@.take(end as int));
        if end > 0 {
            assert(s@.take(end as int).last() == s@[end - 1]);
        }
    }
    r
}

/// What the driver observed of one engine invocation, decoded to plain
/// values: either the process ran to completion (with each captured stream
/// decoded, `None` standing for output that was not valid UTF-8), or it
/// could not be launched at all.
pub enum Invocation {
    Exited { success: bool, stdout: Option<String>, stderr: Option<String> },
    LaunchFailed { message: String },
}

/// The mathematical shape of an [`Invocation`].
pub ghost enum InvocationV {
    Exited { success: bool, stdout: Option<Seq<char>>, stderr: Option<Seq<char>> },
    LaunchFailed { message: Seq<char> },
}

impl View for Invocation {
    type V = InvocationV;

    open spec fn view(&self) -> InvocationV {
        match self {
            Invocation::Exited { success, stdout, stderr } => InvocationV::Exited {
                success: *success,
                stdout: match stdout {
                    Some(s) => Some(s@),
                    None => None,
                },
                stderr: match stderr {
                    Some(s) => Some(s@),
                    None => None,
                },
            },
            Invocation::LaunchFailed { message } => InvocationV::LaunchFailed {
                message: message@,
            },
        }
    }
}

/// How the outcome of one engine invocation is read, given the command word
/// it ran: a successful exit yields the trimmed standard output; a non-zero
/// exit is an engine CLI error carrying the captured standard error; output
/// that would not decode is an encoding error; a process that could not be
/// launched is a host I/O error.
pub open spec fn classify_v(command: Seq<char>, inv: InvocationV) -> Result<Seq<char>, ErrorV> {
    match inv {
        InvocationV::LaunchFailed { message } => Err(ErrorV::IO { message }),
        InvocationV::Exited { success, stdout, stderr } => {
            if !success {
                match stderr {
                    Some(text) => Err(ErrorV::PodmanCLI { command, stderr: text }),
                    None => Err(ErrorV::InvalidUTF8 { command }),
                }
            } else {
                match stdout {
                    Some(out) => Ok(trimmed_end(out)),
                    None => Err(ErrorV::InvalidUTF8 { command }),
                }
            }
        },
    }
}

/// The view of a classification result.
pub open spec fn classified_v(r: Result<String, Error>) -> Result<Seq<char>, ErrorV> {
    match r {
        Ok(s) => Ok(s@),
        Err(e) => Err(e@),
    }
}

/// Classify what one engine invocation came to.
pub fn classify(command: &str, inv: Invocation) -> (r: Result<String, Error>)
    ensures
        classified_v(r) == classify_v(command@, inv@),
{
    match inv {
        Invocation::LaunchFailed { message } => Err(Error::IO { message }),
        Invocation::Exited { success, stdout, stderr } => {
            if !success {
                match stderr {
                    Some(text) => Err(
                        Error::PodmanCLI { command: command.to_owned(), stderr: text },
                    ),
                    None => Err(Error::InvalidUTF8 { command: command.to_owned() }),
                }
            } else {
                match stdout {
                    Some(out) => Ok(trim_end_spaces(out.as_str())),
                    None => Err(Error::InvalidUTF8 { command: command.to_owned() }),
                }
            }
        },
    }
}

/// `<instance>:<path>`, the engine's name for a file inside an instance.
pub fn instance_path_arg(instance: &str, path: &str) -> (r: String)
    ensures
        r@ == instance@ + ":"@ + path@,
{
    String::from_str(instance).concat(":").concat(path)
}

/// The words of `podman create <image>`.
pub fn create_args(image: &str) -> (r: Vec<String>)
    ensures
        r@.len() == 2,
        r@[0]@ == "create"@,
        r@[1]@ == image@,
{
    let mut r: Vec<String> = Vec::new();
    r.push(String::from_str("create"));
    r.push(String::from_str(image));
    r
}

/// The words of `podman cp <local_file> <instance>:<container_path>`, which
/// copy a staged local file into a not-yet-started instance.
pub fn copy_in_args(local_file: &str, instance: &str, container_path: &str) -> (r: Vec<String>)
    ensures
        r@.len() == 3,
        r@[0]@ == "cp"@,
        r@[1]@ == local_file@,
        r@[2]@ == instance@ + ":"@ + container_path@,
{
    let mut r: Vec<String> = Vec::new();
    r.push(String::from_str("cp"));
    r.push(String::from_str(local_file));
    r.push(instance_path_arg(instance, container_path));
    r
}

/// The words of `podman start --attach <instance>`, which run the instance
/// and block until it exits.
pub fn start_args(instance: &str) -> (r: Vec<String>)
    ensures
        r@.len() == 3,
        r@[0]@ == "start"@,
        r@[1]@ == "--attach"@,
        r@[2]@ == instance@,
{
    let mut r: Vec<String> = Vec::new();
    r.push(String::from_str("start"));
    r.push(String::from_str("--attach"));
    r.push(String::from_str(instance));
    r
}

/// The words of `podman cp <instance>:<container_dir> <host_dir>`, which
/// copy the instance's output directory out to the host.
pub fn copy_out_args(instance: &str, container_dir: &str, host_dir: &str) -> (r: Vec<String>)
    ensures
        r@.len() == 3,
        r@[0]@ == "cp"@,
        r@[1]@ == instance@ + ":"@ + container_dir@,
        r@[2]@ == host_dir@,
{
    let mut r: Vec<String> = Vec::new();
    r.push(String::from_str("cp"));
    r.push(instance_path_arg(instance, container_dir));
    r.push(String::from_str(host_dir));
    r
}

/// The words of `podman rm <instance>`, which destroy the instance.
pub fn remove_args(instance: &str) -> (r: Vec<String>)
    ensures
        r@.len() == 2,
        r@[0]@ == "rm"@,
        r@[1]@ == instance@,
{
    let mut r: Vec<String> = Vec::new();
    r.push(String::from_str("rm"));
    r.push(String::from_str(instance));
    r
}

} // verus!

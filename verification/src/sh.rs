use vstd::prelude::*;

use crate::text::{
    clone_strings, concat, join, joined, last_part, last_part_of, owned, same, signed_decimal,
    signed_number, trim, trimmed,
};

verus! {

/// The part of a run in which something went wrong.
#[derive(Clone, Copy, Debug, PartialEq, Eq, Structural)]
pub enum ErrorKind {
    /// The persisted configuration is malformed.
    ConfigParse,
    /// The requested toolchain version names no release, or more than one.
    ToolchainResolution,
    /// No download tool is at hand, or a transfer failed.
    Transfer,
    /// Fetching a source tree failed.
    SourceFetch,
    /// A build command failed.
    Build,
}

/// An error with the chain of what was being done when it happened, the
/// innermost cause first.
#[derive(Clone, Debug, PartialEq, Eq)]
pub struct Failure {
    pub kind: ErrorKind,
    pub chain: Vec<String>,
}

/// Mathematical value of a [`Failure`].
pub struct FailureView {
    pub kind: ErrorKind,
    pub chain: Seq<Seq<char>>,
}

impl DeepView for Failure {
    type V = FailureView;

    open spec fn deep_view(&self) -> FailureView {
        FailureView { kind: self.kind, chain: self.chain.deep_view() }
    }
}

impl Failure {
    /// An error with its cause alone.
    pub fn new(kind: ErrorKind, cause: String) -> (r: Failure)
        ensures
            r.deep_view() == (FailureView { kind, chain: seq![cause@] }),
    {
        let mut chain: Vec<String> = Vec::new();
        chain.push(cause);
        assert(chain.deep_view() =~= seq![cause@]);
        Failure { kind, chain }
    }

    /// The same error, with what was being done around it added to the chain.
    pub fn context(self, message: String) -> (r: Failure)
        ensures
            r.deep_view() == (FailureView {
                kind: self.kind,
                chain: self.deep_view().chain.push(message@),
            }),
    {
        let mut chain = self.chain;
        let ghost before = chain.deep_view();
        chain.push(message);
        assert(chain.deep_view() =~= before.push(message@));
        Failure { kind: self.kind, chain }
    }

    /// A copy of this error.
    pub fn duplicate(&self) -> (r: Failure)
        ensures
            r.deep_view() == self.deep_view(),
    {
        Failure { kind: self.kind, chain: clone_strings(&self.chain) }
    }

    /// The chain as a text, one line for each link, the innermost cause first.
    pub fn to_text(&self) -> (r: String)
        ensures
            r@ == joined(self.deep_view().chain, "\n"@),
    {
        join(&self.chain, "\n")
    }
}

/// How a process ended.
#[derive(Clone, Copy, Debug, PartialEq, Eq, Structural)]
pub enum Status {
    /// It exited with status zero.
    Success,
    /// It exited with this status, which is not zero.
    Exit(i32),
    /// This signal ended it.
    Signal(i32),
}

/// A program to run, with its arguments and the directory to run it in.
#[derive(Clone, Debug, PartialEq, Eq)]
pub struct Invocation {
    pub program: String,
    pub args: Vec<String>,
    pub at: Option<String>,
}

/// Mathematical value of an [`Invocation`].
pub struct InvocationView {
    pub program: Seq<char>,
    pub args: Seq<Seq<char>>,
    pub at: Option<Seq<char>>,
}

impl DeepView for Invocation {
    type V = InvocationView;

    open spec fn deep_view(&self) -> InvocationView {
        InvocationView {
            program: self.program@,
            args: self.args.deep_view(),
            at: self.at.deep_view(),
        }
    }
}

/// A name between double quotes.
pub open spec fn quoted(name: Seq<char>) -> Seq<char> {
    "\""@ + name + "\""@
}

/// The message for a process that did not end well.
pub open spec fn exec_message(status: Status, command: Seq<char>) -> Option<Seq<char>> {
    match status {
        Status::Success => None,
        Status::Exit(code) => Some(
            quoted(command) + " failed with exit status "@ + signed_decimal(code as int) + "."@,
        ),
        Status::Signal(signal) => Some(
            quoted(command) + " interrupted by signal "@ + signed_decimal(signal as int) + "."@,
        ),
    }
}

/// Tells a process that ended well from one that did not: an exit with a
/// status other than zero and an end by a signal are two errors, each with
/// the program's name and the status or the signal's number.
pub fn handle_exec(status: Status, command: &str) -> (r: Result<(), String>)
    ensures
        match r {
            Ok(_) => exec_message(status, command@) is None,
            Err(message) => exec_message(status, command@) == Some(message@),
        },
{
    match status {
        Status::Success => Ok(()),
        Status::Exit(code) => {
            let mut message = concat("\"", command);
            message.append("\"");
            message.append(" failed with exit status ");
            let digits = signed_number(code as i64);
            message.append(digits.as_str());
            message.append(".");
            Err(message)
        },
        Status::Signal(signal) => {
            let mut message = concat("\"", command);
            message.append("\"");
            message.append(" interrupted by signal ");
            let digits = signed_number(signal as i64);
            message.append(digits.as_str());
            message.append(".");
            Err(message)
        },
    }
}

/// A command as it is shown: the directory in square brackets where there is
/// one, the program, a blank, and the arguments with a blank between each two.
pub open spec fn display_cmd_spec(
    command: Seq<char>,
    args: Seq<Seq<char>>,
    at: Option<Seq<char>>,
) -> Seq<char> {
    (match at {
        Some(dir) => "["@ + dir + "] "@,
        None => Seq::empty(),
    }) + command + " "@ + joined(args, " "@)
}

/// A command as it is shown in messages.
pub fn display_cmd(command: &str, args: &Vec<String>, at: Option<&str>) -> (r: String)
    ensures
        r@ == display_cmd_spec(command@, args.deep_view(), at.deep_view()),
{
    let mut r = match at {
        Some(dir) => {
            let mut head = concat("[", dir);
            head.append("] ");
            head
        },
        None => String::new(),
    };
    r.append(command);
    r.append(" ");
    let rest = join(args, " ");
    r.append(rest.as_str());
    r
}

impl Invocation {
    /// A program to run on arguments, in the directory of the caller.
    pub fn new(program: &str, args: Vec<String>) -> (r: Invocation)
        ensures
            r.deep_view() == (InvocationView {
                program: program@,
                args: args.deep_view(),
                at: None,
            }),
    {
        Invocation { program: owned(program), args, at: None }
    }

    /// A program to run on arguments, in the directory `at`.
    pub fn new_at(at: &str, program: &str, args: Vec<String>) -> (r: Invocation)
        ensures
            r.deep_view() == (InvocationView {
                program: program@,
                args: args.deep_view(),
                at: Some(at@),
            }),
    {
        Invocation { program: owned(program), args, at: Some(owned(at)) }
    }

    /// A copy of this invocation.
    pub fn duplicate(&self) -> (r: Invocation)
        ensures
            r.deep_view() == self.deep_view(),
    {
        Invocation {
            program: self.program.clone(),
            args: clone_strings(&self.args),
            at: match &self.at {
                Some(dir) => Some(dir.clone()),
                None => None,
            },
        }
    }

    /// The invocation as it is shown in messages.
    pub fn display(&self) -> (r: String)
        ensures
            r@ == display_cmd_spec(
                self.deep_view().program,
                self.deep_view().args,
                self.deep_view().at,
            ),
    {
        let at: Option<&str> = match &self.at {
            Some(dir) => Some(dir.as_str()),
            None => None,
        };
        display_cmd(self.program.as_str(), &self.args, at)
    }
}

/// A list of one, two or more strings.
pub fn strings1(a: &str) -> (r: Vec<String>)
    ensures
        r.deep_view() == seq![a@],
{
    let mut r: Vec<String> = Vec::new();
    r.push(owned(a));
    assert(r.deep_view() =~= seq![a@]);
    r
}

/// A list of two strings.
pub fn strings2(a: &str, b: &str) -> (r: Vec<String>)
    ensures
        r.deep_view() == seq![a@, b@],
{
    let mut r: Vec<String> = Vec::new();
    r.push(owned(a));
    r.push(owned(b));
    assert(r.deep_view() =~= seq![a@, b@]);
    r
}

/// A list of three strings.
pub fn strings3(a: &str, b: &str, c: &str) -> (r: Vec<String>)
    ensures
        r.deep_view() == seq![a@, b@, c@],
{
    let mut r: Vec<String> = Vec::new();
    r.push(owned(a));
    r.push(owned(b));
    r.push(owned(c));
    assert(r.deep_view() =~= seq![a@, b@, c@]);
    r
}

/// A list of four strings.
pub fn strings4(a: &str, b: &str, c: &str, d: &str) -> (r: Vec<String>)
    ensures
        r.deep_view() == seq![a@, b@, c@, d@],
{
    let mut r: Vec<String> = Vec::new();
    r.push(owned(a));
    r.push(owned(b));
    r.push(owned(c));
    r.push(owned(d));
    assert(r.deep_view() =~= seq![a@, b@, c@, d@]);
    r
}

/// A list of five strings.
pub fn strings5(a: &str, b: &str, c: &str, d: &str, e: &str) -> (r: Vec<String>)
    ensures
        r.deep_view() == seq![a@, b@, c@, d@, e@],
{
    let mut r: Vec<String> = Vec::new();
    r.push(owned(a));
    r.push(owned(b));
    r.push(owned(c));
    r.push(owned(d));
    r.push(owned(e));
    assert(r.deep_view() =~= seq![a@, b@, c@, d@, e@]);
    r
}

/// The arguments with which a download tool writes what a URL offers to a
/// file: those of `curl` or those of `wget`, told apart by the tool's file
/// name. Nothing for any other tool.
pub open spec fn download_args(program: Seq<char>, out: Seq<char>, url: Seq<char>) -> Option<
    Seq<Seq<char>>,
> {
    if last_part_of(program) == "curl"@ {
        Some(seq!["-o"@, out, "-L"@, url])
    } else if last_part_of(program) == "wget"@ {
        Some(seq!["-O"@, out, url])
    } else {
        None
    }
}

/// The error for a download tool that is neither `curl` nor `wget`.
pub open spec fn unknown_tool(program: Seq<char>) -> FailureView {
    FailureView { kind: ErrorKind::Transfer, chain: seq!["Unknown program "@ + program] }
}

/// The command that downloads what `url` offers to the file `out`, with the
/// download tool at `program`.
pub fn download(program: &str, out: &str, url: &str) -> (r: Result<Invocation, Failure>)
    ensures
        match r {
            Ok(invocation) => download_args(program@, out@, url@) is Some
                && invocation.deep_view() == (InvocationView {
                program: program@,
                args: download_args(program@, out@, url@)->0,
                at: None,
            }),
            Err(failure) => download_args(program@, out@, url@) is None && failure.deep_view()
                == unknown_tool(program@),
        },
{
    let name = last_part(program);
    if same(name.as_str(), "curl") {
        Ok(Invocation::new(program, strings4("-o", out, "-L", url)))
    } else if same(name.as_str(), "wget") {
        Ok(Invocation::new(program, strings3("-O", out, url)))
    } else {
        Err(Failure::new(ErrorKind::Transfer, concat("Unknown program ", program)))
    }
}

/// The command that decompresses a file in place.
pub fn gunzip(gz: &str) -> (r: Invocation)
    ensures
        r.deep_view() == (InvocationView { program: "gunzip"@, args: seq![gz@], at: None }),
{
    Invocation::new("gunzip", strings1(gz))
}

/// The command that marks a file as executable.
pub fn chmod_x(prog: &str) -> (r: Invocation)
    ensures
        r.deep_view() == (InvocationView {
            program: "chmod"@,
            args: seq!["+x"@, prog@],
            at: None,
        }),
{
    Invocation::new("chmod", strings2("+x", prog))
}

/// The command that looks for a program on the host.
pub fn which(prog: &str) -> (r: Invocation)
    ensures
        r.deep_view() == (InvocationView { program: "which"@, args: seq![prog@], at: None }),
{
    Invocation::new("which", strings1(prog))
}

/// The path that a search for a program wrote out: its output without the
/// white space around it, or nothing where that is empty.
pub fn which_path(stdout: &str) -> (r: Option<String>)
    ensures
        r.deep_view() == if trimmed(stdout@).len() == 0 {
            None
        } else {
            Some(trimmed(stdout@))
        },
{
    let path = trim(stdout);
    if path.as_str().unicode_len() == 0 {
        None
    } else {
        Some(path)
    }
}

/// The path of a program that was searched for, given how the search ended
/// and what it wrote: the path that it wrote where it ended well and wrote
/// one, and nothing where it did not end well, wrote no text or wrote none.
pub open spec fn located_spec(status: Status, stdout: Option<Seq<char>>) -> Option<Seq<char>> {
    match (status, stdout) {
        (Status::Success, Some(text)) => if trimmed(text).len() == 0 {
            None
        } else {
            Some(trimmed(text))
        },
        _ => None,
    }
}

/// The path of a program that was searched for, given how the search ended
/// and what it wrote.
pub fn located(status: Status, stdout: Option<&str>) -> (r: Option<String>)
    ensures
        r.deep_view() == located_spec(status, stdout.deep_view()),
{
    match (status, stdout) {
        (Status::Success, Some(text)) => which_path(text),
        _ => None,
    }
}

} // verus!

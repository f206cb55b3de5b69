use vstd::prelude::*;

use crate::sh::{
    chmod_x, download, download_args, gunzip, strings2, strings4, unknown_tool, ErrorKind, Failure,
    FailureView, Invocation, InvocationView,
};
use crate::steps::{Action, ActionView, Step, StepView};
use crate::text::{
    after_tab, behind_tab, concat, contains, join_path, lines, lines_of, owned, path_join,
    strip_base, stripped,
};

verus! {

/// The tag that a line of a listing of remote refs names. A line holds an
/// object name, a tab and the name of a ref; the tag is the whole of what
/// follows `refs/tags/` in the ref's name, slashes and all. A line whose ref
/// is no tag names none.
pub open spec fn tag_of(line: Seq<char>) -> Option<Seq<char>> {
    match stripped(behind_tab(line), "refs/tags/"@) {
        Some(name) => if name.len() > 0 {
            Some(name)
        } else {
            None
        },
        None => None,
    }
}

/// The tags that the lines of a listing name, in the order of the lines.
pub open spec fn tags_of(refs: Seq<Seq<char>>) -> Seq<Seq<char>>
    decreases refs.len(),
{
    if refs.len() == 0 {
        Seq::empty()
    } else {
        match tag_of(refs.last()) {
            Some(name) => tags_of(refs.drop_last()).push(name),
            None => tags_of(refs.drop_last()),
        }
    }
}

/// The tags that a listing of remote refs names.
pub open spec fn remote_tags_spec(listing: Seq<char>) -> Seq<Seq<char>> {
    tags_of(lines_of(listing))
}

/// A version with the letter `v` before it.
pub open spec fn prefixed(version: Seq<char>) -> Seq<char> {
    "v"@ + version
}

/// The tag of a version among the tags of a listing: the version itself or
/// the version behind a `v`, whichever the listing names. There is none where
/// the listing names neither, and none where it names both.
pub open spec fn tag_spec(listing: Seq<char>, version: Seq<char>) -> Option<Seq<char>> {
    let tags = remote_tags_spec(listing);
    let plain = tags.contains(version);
    let with_v = tags.contains(prefixed(version));
    if plain && with_v {
        None
    } else if plain {
        Some(version)
    } else if with_v {
        Some(prefixed(version))
    } else {
        None
    }
}

/// The error for a version that has no tag of its own in a listing.
pub open spec fn tag_failure(listing: Seq<char>, version: Seq<char>, repo: Seq<char>) -> FailureView {
    let tags = remote_tags_spec(listing);
    FailureView {
        kind: ErrorKind::ToolchainResolution,
        chain: seq![
            if tags.contains(version) {
                "More than one tag matches the requested version "@ + version + " in "@ + repo
            } else {
                "Finding the requested version "@ + version + " in "@ + repo
            },
        ],
    }
}

/// The tag that a line of a listing of remote refs names, if it names one.
pub fn line_tag(line: &str) -> (r: Option<String>)
    ensures
        r.deep_view() == tag_of(line@),
{
    let name = after_tab(line);
    match strip_base(name.as_str(), "refs/tags/") {
        Some(rest) => if rest.as_str().unicode_len() > 0 {
            Some(rest)
        } else {
            None
        },
        None => None,
    }
}

/// The tags that a listing of remote refs names.
pub fn remote_tags(listing: &str) -> (r: Vec<String>)
    ensures
        r.deep_view() == remote_tags_spec(listing@),
{
    let refs = lines(listing);
    let mut tags: Vec<String> = Vec::new();
    let mut i: usize = 0;
    proof {
        assert(refs.deep_view().take(0) =~= Seq::<Seq<char>>::empty());
        assert(tags.deep_view() =~= Seq::<Seq<char>>::empty());
    }
    while i < refs.len()
        invariant
            i <= refs.len(),
            tags.deep_view() == tags_of(refs.deep_view().take(i as int)),
        decreases refs.len() - i,
    {
        proof {
            let next = refs.deep_view().take(i + 1);
            assert(next.drop_last() =~= refs.deep_view().take(i as int));
            assert(next.last() == refs[i as int]@);
        }
        match line_tag(refs[i].as_str()) {
            Some(name) => {
                let ghost before = tags.deep_view();
                tags.push(name);
                assert(tags.deep_view() =~= before.push(name@));
            },
            None => {},
        }
        i += 1;
    }
    assert(refs.deep_view().take(refs.len() as int) =~= refs.deep_view());
    tags
}

/// Resolves a version to the one tag of a listing of remote refs that stands
/// for it. A version that no tag stands for is an error, and so is one that
/// two tags stand for.
pub fn tag(listing: &str, version: &str, repo: &str) -> (r: Result<String, Failure>)
    ensures
        match r {
            Ok(found) => tag_spec(listing@, version@) == Some(found@),
            Err(failure) => tag_spec(listing@, version@) is None && failure.deep_view()
                == tag_failure(listing@, version@, repo@),
        },
{
    let tags = remote_tags(listing);
    let with_v = concat("v", version);
    let has_plain = contains(&tags, version);
    let has_with_v = contains(&tags, with_v.as_str());
    if has_plain && has_with_v {
        let mut message = concat("More than one tag matches the requested version ", version);
        message.append(" in ");
        message.append(repo);
        Err(Failure::new(ErrorKind::ToolchainResolution, message))
    } else if has_plain {
        Ok(owned(version))
    } else if has_with_v {
        Ok(with_v)
    } else {
        let mut message = concat("Finding the requested version ", version);
        message.append(" in ");
        message.append(repo);
        Err(Failure::new(ErrorKind::ToolchainResolution, message))
    }
}

/// The operating system that builds the toolchain library, which decides how
/// a dynamic library is named.
#[derive(Clone, Copy, Debug, PartialEq, Eq, Structural)]
pub enum HostOs {
    Linux,
    MacOs,
}

/// The name of the toolchain executable for a platform.
pub open spec fn cli_name_spec(platform: Seq<char>) -> Seq<char> {
    "tree-sitter-"@ + platform
}

/// Where the toolchain executable is kept.
pub open spec fn cli_path_spec(build_dir: Seq<char>, platform: Seq<char>) -> Seq<char> {
    path_join(build_dir, cli_name_spec(platform))
}

/// Where the compressed toolchain executable is downloaded to.
pub open spec fn archive_path_spec(build_dir: Seq<char>, platform: Seq<char>) -> Seq<char> {
    path_join(build_dir, cli_name_spec(platform) + ".gz"@)
}

/// Where a release offers the compressed toolchain executable.
pub open spec fn cli_url_spec(repo: Seq<char>, tag: Seq<char>, platform: Seq<char>) -> Seq<char> {
    repo + "/releases/download/"@ + tag + "/"@ + cli_name_spec(platform) + ".gz"@
}

/// Where the sources of the toolchain library are checked out.
pub open spec fn source_dir_spec(build_dir: Seq<char>) -> Seq<char> {
    path_join(build_dir, "tree-sitter"@)
}

/// The file name of the toolchain library in a link mode.
pub open spec fn library_name_spec(is_static: bool, host: HostOs) -> Seq<char> {
    if is_static {
        "libtree-sitter.a"@
    } else {
        match host {
            HostOs::Linux => "libtree-sitter.so"@,
            HostOs::MacOs => "libtree-sitter.dylib"@,
        }
    }
}

/// The toolchain library in the requested link mode.
pub open spec fn library_path_spec(build_dir: Seq<char>, build_static: bool, host: HostOs) -> Seq<
    char,
> {
    path_join(source_dir_spec(build_dir), library_name_spec(build_static, host))
}

/// The toolchain library in the link mode that was not requested: the one
/// that must not be there when parsers are linked.
pub open spec fn stale_path_spec(build_dir: Seq<char>, build_static: bool, host: HostOs) -> Seq<
    char,
> {
    path_join(source_dir_spec(build_dir), library_name_spec(!build_static, host))
}

/// The name of the toolchain executable for a platform.
pub fn cli_name(platform: &str) -> (r: String)
    ensures
        r@ == cli_name_spec(platform@),
{
    concat("tree-sitter-", platform)
}

/// Where the toolchain executable is kept.
pub fn cli_path(build_dir: &str, platform: &str) -> (r: String)
    ensures
        r@ == cli_path_spec(build_dir@, platform@),
{
    let name = cli_name(platform);
    join_path(build_dir, name.as_str())
}

/// Where the compressed toolchain executable is downloaded to.
pub fn archive_path(build_dir: &str, platform: &str) -> (r: String)
    ensures
        r@ == archive_path_spec(build_dir@, platform@),
{
    let mut name = cli_name(platform);
    name.append(".gz");
    join_path(build_dir, name.as_str())
}

/// Where a release offers the compressed toolchain executable.
pub fn cli_url(repo: &str, tag: &str, platform: &str) -> (r: String)
    ensures
        r@ == cli_url_spec(repo@, tag@, platform@),
{
    let mut url = concat(repo, "/releases/download/");
    url.append(tag);
    url.append("/");
    let name = cli_name(platform);
    url.append(name.as_str());
    url.append(".gz");
    url
}

/// Where the sources of the toolchain library are checked out.
pub fn source_dir(build_dir: &str) -> (r: String)
    ensures
        r@ == source_dir_spec(build_dir@),
{
    join_path(build_dir, "tree-sitter")
}

fn library_name(is_static: bool, host: HostOs) -> (r: &'static str)
    ensures
        r@ == library_name_spec(is_static, host),
{
    if is_static {
        "libtree-sitter.a"
    } else {
        match host {
            HostOs::Linux => "libtree-sitter.so",
            HostOs::MacOs => "libtree-sitter.dylib",
        }
    }
}

/// The toolchain library in the requested link mode.
pub fn library_path(build_dir: &str, build_static: bool, host: HostOs) -> (r: String)
    ensures
        r@ == library_path_spec(build_dir@, build_static, host),
{
    let src = source_dir(build_dir);
    join_path(src.as_str(), library_name(build_static, host))
}

/// The toolchain library in the link mode that was not requested.
pub fn stale_path(build_dir: &str, build_static: bool, host: HostOs) -> (r: String)
    ensures
        r@ == stale_path_spec(build_dir@, build_static, host),
{
    let src = source_dir(build_dir);
    join_path(src.as_str(), library_name(!build_static, host))
}

/// The two libraries never share a path: what is removed is not what is linked.
pub proof fn lemma_stale_is_not_library(build_dir: Seq<char>, build_static: bool, host: HostOs)
    ensures
        stale_path_spec(build_dir, build_static, host) != library_path_spec(
            build_dir,
            build_static,
            host,
        ),
{
    reveal_strlit("libtree-sitter.a");
    reveal_strlit("libtree-sitter.so");
    reveal_strlit("libtree-sitter.dylib");
    let src = source_dir_spec(build_dir);
    let a = library_name_spec(build_static, host);
    let b = library_name_spec(!build_static, host);
    assert(a.len() != b.len());
    assert(a[0] == 'l' && b[0] == 'l');
    assert(path_join(src, a).len() != path_join(src, b).len());
}

/// A step that runs a program where the caller stands.
pub open spec fn run_step(
    program: Seq<char>,
    args: Seq<Seq<char>>,
    context: Seq<char>,
    kind: ErrorKind,
) -> StepView {
    StepView {
        action: ActionView::Run(InvocationView { program, args, at: None }),
        context,
        kind,
    }
}

fn run(program: &str, args: Vec<String>, context: &str, kind: ErrorKind) -> (r: Step)
    ensures
        r.deep_view() == run_step(program@, args.deep_view(), context@, kind),
{
    Step { action: Action::Run(Invocation::new(program, args)), context: owned(context), kind }
}

/// The step that lists the tags of the toolchain repository.
pub open spec fn listing_step_spec(repo: Seq<char>) -> StepView {
    run_step(
        "git"@,
        seq!["ls-remote"@, "--refs"@, "--tags"@, repo],
        "Fetching remote tags from "@ + repo,
        ErrorKind::ToolchainResolution,
    )
}

/// The step that lists the tags of the toolchain repository.
pub fn listing_step(repo: &str) -> (r: Step)
    ensures
        r.deep_view() == listing_step_spec(repo@),
{
    let context = concat("Fetching remote tags from ", repo);
    run(
        "git",
        strings4("ls-remote", "--refs", "--tags", repo),
        context.as_str(),
        ErrorKind::ToolchainResolution,
    )
}

/// The step that downloads the compressed toolchain executable with the
/// download tool at `program`.
pub fn download_step(program: &str, out: &str, url: &str) -> (r: Result<Step, Failure>)
    ensures
        match r {
            Ok(step) => download_args(program@, out@, url@) is Some && step.deep_view()
                == run_step(
                program@,
                download_args(program@, out@, url@)->0,
                "Downloading tree-sitter-cli"@,
                ErrorKind::Transfer,
            ),
            Err(failure) => download_args(program@, out@, url@) is None && failure.deep_view()
                == unknown_tool(program@),
        },
{
    match download(program, out, url) {
        Ok(invocation) => Ok(
            Step {
                action: Action::Run(invocation),
                context: owned("Downloading tree-sitter-cli"),
                kind: ErrorKind::Transfer,
            },
        ),
        Err(failure) => Err(failure),
    }
}

/// The step that decompresses the downloaded toolchain executable.
pub fn gunzip_step(gz: &str) -> (r: Step)
    ensures
        r.deep_view() == run_step(
            "gunzip"@,
            seq![gz@],
            "Unzipping tree-sitter-cli"@,
            ErrorKind::Transfer,
        ),
{
    Step {
        action: Action::Run(gunzip(gz)),
        context: owned("Unzipping tree-sitter-cli"),
        kind: ErrorKind::Transfer,
    }
}

/// The step that marks the toolchain executable as executable.
pub fn chmod_step(prog: &str) -> (r: Step)
    ensures
        r.deep_view() == run_step(
            "chmod"@,
            seq!["+x"@, prog@],
            "chmod +x tree-sitter-cli"@,
            ErrorKind::Transfer,
        ),
{
    Step {
        action: Action::Run(chmod_x(prog)),
        context: owned("chmod +x tree-sitter-cli"),
        kind: ErrorKind::Transfer,
    }
}

/// The step that builds the toolchain library in its source directory.
pub fn make(src: &str) -> (r: Step)
    ensures
        r.deep_view() == run_step(
            "make"@,
            seq!["-C"@, src@],
            "Building tree-sitter"@,
            ErrorKind::Build,
        ),
{
    run("make", strings2("-C", src), "Building tree-sitter", ErrorKind::Build)
}

} // verus!

//! Fetches and builds tree-sitter parsers against one release of the
//! tree-sitter toolchain.
//!
//! The library decides and the caller acts: it resolves the configuration,
//! and it says, one step at a time, which program to run, which path to look
//! at and what to report while the toolchain is acquired and each target is
//! built. The caller runs the step and hands back what came of it.

use vstd::prelude::*;

pub mod builddir;
pub mod cli;
pub mod config;
pub mod consts;
pub mod display;
pub mod document;
pub mod encoding;
pub mod git;
pub mod logging;
pub mod overrides;
pub mod parser;
pub mod scheduler;
pub mod schema;
pub mod sh;
pub mod steps;
pub mod text;
pub mod toolchain;
pub mod tree_sitter;

use crate::text::{below, owned, strip_base, stripped};

verus! {

/// A directory as it is shown: what is left of it behind the working
/// directory where its canonical form lies below that, and its canonical
/// form where it does not. A directory that has no canonical form stands for
/// it, and `.` stands for a working directory that is not known.
pub open spec fn relative_to_cwd_spec(
    dir: Seq<char>,
    canonical: Option<Seq<char>>,
    cwd: Option<Seq<char>>,
) -> Seq<char> {
    let base = match cwd {
        Some(c) => c,
        None => "."@,
    };
    let canon = match canonical {
        Some(c) => c,
        None => dir,
    };
    if below(canon, base) {
        match stripped(dir, base) {
            Some(rest) => rest,
            None => dir,
        }
    } else {
        canon
    }
}

/// A directory as it is shown in messages, given its canonical form and the
/// working directory as far as the host knows them.
pub fn relative_to_cwd(dir: &str, canonical: Option<&str>, cwd: Option<&str>) -> (r: String)
    ensures
        r@ == relative_to_cwd_spec(dir@, canonical.deep_view(), cwd.deep_view()),
{
    let base = match cwd {
        Some(c) => c,
        None => ".",
    };
    let canon = match canonical {
        Some(c) => c,
        None => dir,
    };
    match strip_base(canon, base) {
        Some(_) => match strip_base(dir, base) {
            Some(rest) => rest,
            None => owned(dir),
        },
        None => owned(canon),
    }
}

} // verus!

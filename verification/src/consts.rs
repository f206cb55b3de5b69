use vstd::prelude::*;

use crate::text::{owned, same};

verus! {

/// Directory in which sources are fetched and built unless configured otherwise.
pub const TSP_BUILD_DIR: &'static str = "tmp";

/// Whether a run starts from an emptied build directory by default.
pub const TSP_FRESH: bool = false;

/// Base under which a target's repository is looked for when none is configured.
pub const TSP_FROM: &'static str = "https://github.com/tree-sitter/";

/// Directory that receives the built parsers unless configured otherwise.
pub const TSP_OUT: &'static str = "parsers";

/// Git ref that is fetched for a target when none is configured.
pub const TSP_REF: &'static str = "HEAD";

/// Whether the effective configuration is shown before a build by default.
pub const TSP_SHOW_CONFIG: bool = false;

/// Whether parsers are linked statically to the toolchain library by default.
pub const TSP_STATIC: bool = false;

/// Platform identifier of the toolchain executable that is fetched by default.
pub const TREE_SITTER_PLATFORM: &'static str = "macos-arm64";

/// Repository of the toolchain.
pub const TREE_SITTER_REPO: &'static str = "https://github.com/tree-sitter/tree-sitter";

/// Toolchain version that is built by default.
pub const TREE_SITTER_VERSION: &'static str = "0.22.6";

/// The platform identifier under which releases offer the toolchain
/// executable for a target triple; the triple itself for a target that has
/// no identifier of its own.
pub open spec fn platform_for_target_spec(target: Seq<char>) -> Seq<char> {
    if target == "aarch64-apple-darwin"@ {
        "macos-arm64"@
    } else if target == "aarch64-unknown-linux-gnu"@ {
        "linux-arm64"@
    } else if target == "arm-unknown-linux-gnueabi"@ {
        "linux-arm"@
    } else if target == "i686-unknown-linux-gnu"@ {
        "linux-x86"@
    } else if target == "x86_64-apple-darwin"@ {
        "macos-x64"@
    } else if target == "x86_64-unknown-linux-gnu"@ {
        "linux-x64"@
    } else {
        target
    }
}

/// The platform identifier of the toolchain executable for a target triple.
pub fn platform_for_target(target: &str) -> (r: String)
    ensures
        r@ == platform_for_target_spec(target@),
{
    if same(target, "aarch64-apple-darwin") {
        owned("macos-arm64")
    } else if same(target, "aarch64-unknown-linux-gnu") {
        owned("linux-arm64")
    } else if same(target, "arm-unknown-linux-gnueabi") {
        owned("linux-arm")
    } else if same(target, "i686-unknown-linux-gnu") {
        owned("linux-x86")
    } else if same(target, "x86_64-apple-darwin") {
        owned("macos-x64")
    } else if same(target, "x86_64-unknown-linux-gnu") {
        owned("linux-x64")
    } else {
        owned(target)
    }
}

} // verus!

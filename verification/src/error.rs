//! The closed error taxonomy of acquisition: malformed URLs, failed
//! tool invocations, failed transfers, and destination problems.

use vstd::prelude::*;

verus! {

/// Why classification, acquisition or refresh of a resource failed.
#[derive(Debug)]
pub enum AcquireError {
    /// The URL could not be parsed at all.
    UrlParse,
    /// An invoked tool could not be launched or exited non-zero;
    /// carries the tool's name and its exit status when it ran.
    ToolInvocation { tool: String, status: Option<i32> },
    /// A network fetch failed: while connecting and reading when
    /// `write_failure` is false, while writing the file when true.
    Transfer { write_failure: bool },
    /// The destination exists but is not a directory, or it could not
    /// be created.
    Filesystem,
}

} // verus!

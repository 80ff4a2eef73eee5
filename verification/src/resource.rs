//! Classification of a URL into a closed set of resource kinds.
//!
//! A URL is inspected in strict priority order: terminal-segment
//! extension rules first, then known hosts, then known path prefixes.
//! When none of these decides, the caller must probe the server with a
//! real `git ls-remote` attempt and feed the outcome to [`Resource::from_probe`].

use vstd::prelude::*;

use crate::error::AcquireError;
use crate::strutil::{ends_with, last_segment, lemma_ends_with_last, starts_with, str_ends_with,
    str_eq, str_starts_with};
use crate::urlinfo::{parse_url_parts, terminal_segment, url_has_segments, url_host,
    url_parses, url_path};

verus! {

/// An identified remote source location paired with its required
/// access method.
#[derive(Debug)]
pub enum Resource {
    Svn { url: String },
    Git { url: String, branch: Option<String> },
    Tar { url: String },
}

/// The outcome of the static classification rules: either a decided
/// resource, or the need for a network probe.
#[derive(Debug)]
pub enum Classification {
    Resolved(Resource),
    NeedsProbe,
}

/// A resource kind without its URL.
pub enum Kind {
    Tar,
    Svn,
    Git,
}

/// `seg` ends in one of the recognized archive suffixes.
pub open spec fn archive_suffix_match(seg: Seq<char>) -> bool {
    ||| ends_with(seg, ".tar.gz"@)
    ||| ends_with(seg, ".tar.xz"@)
    ||| ends_with(seg, ".tar.bz2"@)
    ||| ends_with(seg, ".tar.Z"@)
    ||| ends_with(seg, ".tgz"@)
    ||| ends_with(seg, ".taz"@)
}

/// What the terminal-segment rules decide, in priority order: archive
/// suffixes, then `trunk`, then `.git`.
pub open spec fn filename_kind(seg: Seq<char>) -> Option<Kind> {
    if archive_suffix_match(seg) {
        Some(Kind::Tar)
    } else if ends_with(seg, "trunk"@) {
        Some(Kind::Svn)
    } else if ends_with(seg, ".git"@) {
        Some(Kind::Git)
    } else {
        None
    }
}

/// What the host rules decide: known git hosting services, then the
/// LLVM host by path prefix.
pub open spec fn host_kind(s: Seq<char>) -> Option<Kind> {
    let h = url_host(s);
    if h == Some("github.com"@) || h == Some("gitlab.com"@) {
        Some(Kind::Git)
    } else if h == Some("llvm.org"@) && starts_with(url_path(s), "/svn"@) {
        Some(Kind::Svn)
    } else if h == Some("llvm.org"@) && starts_with(url_path(s), "/git"@) {
        Some(Kind::Git)
    } else {
        None
    }
}

/// What static classification decides for a URL that parses: the
/// terminal-segment rules when the URL has segments and one of them
/// matches, otherwise the host rules. `None` means a probe is needed.
pub open spec fn decided_kind(s: Seq<char>) -> Option<Kind> {
    if url_has_segments(s) && filename_kind(terminal_segment(s)) is Some {
        filename_kind(terminal_segment(s))
    } else {
        host_kind(s)
    }
}

/// `res` is the resource of kind `k` for the URL `url`, with no branch
/// when it is a git repository.
pub open spec fn resource_is(res: Resource, k: Kind, url: Seq<char>) -> bool {
    match res {
        Resource::Tar { url: u } => k is Tar && u@ == url,
        Resource::Svn { url: u } => k is Svn && u@ == url,
        Resource::Git { url: u, branch } => k is Git && u@ == url && branch is None,
    }
}

/// Any URL that parses and whose terminal path segment ends in a
/// recognized archive suffix classifies as an archive.
pub proof fn lemma_archive_suffix_classifies_tar(s: Seq<char>)
    ensures
        url_parses(s) && url_has_segments(s) && archive_suffix_match(terminal_segment(s))
            ==> decided_kind(s) == Some(Kind::Tar),
{
}

/// Any URL that parses and whose terminal path segment is exactly
/// `trunk` classifies as a subversion repository.
pub proof fn lemma_trunk_classifies_svn(s: Seq<char>)
    ensures
        url_parses(s) && url_has_segments(s) && terminal_segment(s) == "trunk"@ ==> decided_kind(
            s,
        ) == Some(Kind::Svn),
{
    if url_parses(s) && url_has_segments(s) && terminal_segment(s) == "trunk"@ {
        let seg = terminal_segment(s);
        reveal_strlit("trunk");
        reveal_strlit(".tar.gz");
        reveal_strlit(".tar.xz");
        reveal_strlit(".tar.bz2");
        reveal_strlit(".tar.Z");
        reveal_strlit(".tgz");
        reveal_strlit(".taz");
        assert(seg[4] == 'k');
        if ends_with(seg, ".tar.gz"@) {
            lemma_ends_with_last(seg, ".tar.gz"@);
        }
        if ends_with(seg, ".tar.xz"@) {
            lemma_ends_with_last(seg, ".tar.xz"@);
        }
        if ends_with(seg, ".tar.bz2"@) {
            lemma_ends_with_last(seg, ".tar.bz2"@);
        }
        if ends_with(seg, ".tar.Z"@) {
            lemma_ends_with_last(seg, ".tar.Z"@);
        }
        if ends_with(seg, ".tgz"@) {
            lemma_ends_with_last(seg, ".tgz"@);
        }
        if ends_with(seg, ".taz"@) {
            lemma_ends_with_last(seg, ".taz"@);
        }
        assert(!archive_suffix_match(seg));
        assert(seg.subrange(0, 5) =~= seg);
        assert(ends_with(seg, "trunk"@));
    }
}

/// Any URL that parses and whose terminal path segment ends in `.git`
/// classifies as a git repository with no branch chosen.
pub proof fn lemma_git_suffix_classifies_git(s: Seq<char>)
    ensures
        url_parses(s) && url_has_segments(s) && ends_with(terminal_segment(s), ".git"@)
            ==> decided_kind(s) == Some(Kind::Git),
{
    if url_parses(s) && url_has_segments(s) && ends_with(terminal_segment(s), ".git"@) {
        let seg = terminal_segment(s);
        reveal_strlit(".git");
        reveal_strlit("trunk");
        reveal_strlit(".tar.gz");
        reveal_strlit(".tar.xz");
        reveal_strlit(".tar.bz2");
        reveal_strlit(".tar.Z");
        reveal_strlit(".tgz");
        reveal_strlit(".taz");
        lemma_ends_with_last(seg, ".git"@);
        assert(seg[seg.len() - 1] == 't');
        if ends_with(seg, ".tar.gz"@) {
            lemma_ends_with_last(seg, ".tar.gz"@);
        }
        if ends_with(seg, ".tar.xz"@) {
            lemma_ends_with_last(seg, ".tar.xz"@);
        }
        if ends_with(seg, ".tar.bz2"@) {
            lemma_ends_with_last(seg, ".tar.bz2"@);
        }
        if ends_with(seg, ".tar.Z"@) {
            lemma_ends_with_last(seg, ".tar.Z"@);
        }
        if ends_with(seg, ".tgz"@) {
            lemma_ends_with_last(seg, ".tgz"@);
        }
        if ends_with(seg, ".taz"@) {
            lemma_ends_with_last(seg, ".taz"@);
        }
        assert(!archive_suffix_match(seg));
        if ends_with(seg, "trunk"@) {
            lemma_ends_with_last(seg, "trunk"@);
        }
    }
}

/// Any URL that parses, is hosted at `github.com` or `gitlab.com`, and
/// is not already decided by the terminal-segment rules classifies as
/// a git repository.
pub proof fn lemma_git_host_classifies_git(s: Seq<char>)
    ensures
        url_parses(s) && (url_host(s) == Some("github.com"@) || url_host(s) == Some(
            "gitlab.com"@,
        )) && !(url_has_segments(s) && filename_kind(terminal_segment(s)) is Some)
            ==> decided_kind(s) == Some(Kind::Git),
{
}

/// Any URL that parses, is hosted at `llvm.org`, and is not already
/// decided by the terminal-segment rules classifies by its path
/// prefix: `/svn` as a subversion repository, `/git` as a git
/// repository.
pub proof fn lemma_llvm_host_classifies(s: Seq<char>)
    ensures
        url_parses(s) && url_host(s) == Some("llvm.org"@) && !(url_has_segments(s)
            && filename_kind(terminal_segment(s)) is Some) ==> {
            &&& starts_with(url_path(s), "/svn"@) ==> decided_kind(s) == Some(Kind::Svn)
            &&& starts_with(url_path(s), "/git"@) ==> decided_kind(s) == Some(Kind::Git)
        },
{
    reveal_strlit("llvm.org");
    reveal_strlit("github.com");
    reveal_strlit("gitlab.com");
    assert("llvm.org"@.len() == 8 && "github.com"@.len() == 10 && "gitlab.com"@.len() == 10);
    let p = url_path(s);
    if starts_with(p, "/svn"@) && starts_with(p, "/git"@) {
        reveal_strlit("/svn");
        reveal_strlit("/git");
        assert(p.subrange(0, 4)[1] == p[1]);
    }
}

impl Resource {
    /// Classify `url_str` by the static rules alone: `Err` exactly when
    /// the URL does not parse, `Resolved` when a rule decides, and
    /// `NeedsProbe` when only a network probe can tell git from
    /// subversion.
    pub fn from_url(url_str: &str) -> (r: Result<Classification, AcquireError>)
        ensures
            r is Err <==> !url_parses(url_str@),
            r matches Err(e) ==> e is UrlParse,
            r matches Ok(c) ==> match decided_kind(url_str@) {
                Some(k) => c matches Classification::Resolved(res) && resource_is(
                    res,
                    k,
                    url_str@,
                ),
                None => c is NeedsProbe,
            },
    {
        let parts = match parse_url_parts(url_str) {
            Some(p) => p,
            None => { return Err(AcquireError::UrlParse) },
        };
        if str_starts_with(parts.path.as_str(), "/") {
            let seg = last_segment(parts.path.as_str());
            let is_archive = str_ends_with(seg.as_str(), ".tar.gz") || str_ends_with(
                seg.as_str(),
                ".tar.xz",
            ) || str_ends_with(seg.as_str(), ".tar.bz2") || str_ends_with(seg.as_str(), ".tar.Z")
                || str_ends_with(seg.as_str(), ".tgz") || str_ends_with(seg.as_str(), ".taz");
            if is_archive {
                return Ok(Classification::Resolved(Resource::Tar { url: url_str.to_owned() }));
            }
            if str_ends_with(seg.as_str(), "trunk") {
                return Ok(Classification::Resolved(Resource::Svn { url: url_str.to_owned() }));
            }
            if str_ends_with(seg.as_str(), ".git") {
                return Ok(
                    Classification::Resolved(
                        Resource::Git { url: url_str.to_owned(), branch: None },
                    ),
                );
            }
        }
        match &parts.host {
            Some(h) => {
                if str_eq(h.as_str(), "github.com") || str_eq(h.as_str(), "gitlab.com") {
                    return Ok(
                        Classification::Resolved(
                            Resource::Git { url: url_str.to_owned(), branch: None },
                        ),
                    );
                }
                if str_eq(h.as_str(), "llvm.org") {
                    if str_starts_with(parts.path.as_str(), "/svn") {
                        return Ok(
                            Classification::Resolved(Resource::Svn { url: url_str.to_owned() }),
                        );
                    }
                    if str_starts_with(parts.path.as_str(), "/git") {
                        return Ok(
                            Classification::Resolved(
                                Resource::Git { url: url_str.to_owned(), branch: None },
                            ),
                        );
                    }
                }
            },
            None => {},
        }
        Ok(Classification::NeedsProbe)
    }

    /// Resolve a probed URL from the probe's outcome: a server that
    /// answered `git ls-remote` is a git repository, any other is taken
    /// for a subversion repository.
    pub fn from_probe(url_str: &str, git_ls_remote_ok: bool) -> (r: Resource)
        ensures
            git_ls_remote_ok ==> (r matches Resource::Git { url, branch } && url@ == url_str@
                && branch is None),
            !git_ls_remote_ok ==> (r matches Resource::Svn { url } && url@ == url_str@),
    {
        if git_ls_remote_ok {
            Resource::Git { url: url_str.to_owned(), branch: None }
        } else {
            Resource::Svn { url: url_str.to_owned() }
        }
    }
}

} // verus!

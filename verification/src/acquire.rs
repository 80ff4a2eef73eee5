//! Acquisition and refresh planned as explicit tool invocations.
//!
//! Every operation on a classified resource reduces to running a
//! version-control or archive tool, or to one HTTP fetch followed by
//! an extraction. These functions build the exact invocations; a thin
//! unverified shell spawns the processes and performs the fetch.

use vstd::prelude::*;

use crate::error::AcquireError;
use crate::resource::Resource;
use crate::urlinfo::{get_filename_from_url, opt_str_view, terminal_segment, url_has_segments,
    url_parses};

verus! {

/// One external tool invocation: a program, its arguments, and the
/// working directory to run it in, when one is required.
#[derive(Debug)]
pub struct ToolCmd {
    pub program: String,
    pub args: Vec<String>,
    pub current_dir: Option<String>,
}

/// `c` invokes `program` with exactly `args`, in `cwd`.
pub open spec fn cmd_is(
    c: ToolCmd,
    program: Seq<char>,
    args: Seq<Seq<char>>,
    cwd: Option<Seq<char>>,
) -> bool {
    &&& c.program@ == program
    &&& c.args.deep_view() == args
    &&& opt_str_view(c.current_dir) == cwd
}

/// The argument list of a shallow git clone into `dest`, naming a
/// branch when one is given.
pub open spec fn clone_args(url: Seq<char>, branch: Option<Seq<char>>, dest: Seq<char>) -> Seq<
    Seq<char>,
> {
    let base = seq!["clone"@, url, "--depth"@, "1"@, dest];
    match branch {
        None => base,
        Some(b) => base + seq!["-b"@, b],
    }
}

/// How a resource is first brought into a destination directory:
/// either one tool invocation, or an HTTP fetch of `url` into a file
/// named `file_name` inside the destination, followed by `extract`.
#[derive(Debug)]
pub enum DownloadPlan {
    RunTool(ToolCmd),
    FetchThenExtract { url: String, file_name: String, extract: ToolCmd },
}

impl Resource {
    /// The plan that brings this resource into the directory `dest`:
    /// a subversion checkout of HEAD, a shallow git clone, or a fetch
    /// of the archive and its extraction inside `dest`. For an archive
    /// the plan exists exactly when its URL parses and has path
    /// segments to name the downloaded file by.
    pub fn download_plan(&self, dest: &str) -> (r: Result<DownloadPlan, AcquireError>)
        ensures
            match self {
                Resource::Svn { url } => r matches Ok(DownloadPlan::RunTool(c)) && cmd_is(
                    c,
                    "svn"@,
                    seq!["co"@, url@, "-r"@, "HEAD"@, dest@],
                    None,
                ),
                Resource::Git { url, branch } => r matches Ok(DownloadPlan::RunTool(c)) && cmd_is(
                    c,
                    "git"@,
                    clone_args(url@, opt_str_view(*branch), dest@),
                    None,
                ),
                Resource::Tar { url } => {
                    if url_parses(url@) && url_has_segments(url@) {
                        r matches Ok(DownloadPlan::FetchThenExtract { url: u, file_name, extract })
                            && u@ == url@ && file_name@ == terminal_segment(url@) && cmd_is(
                            extract,
                            "tar"@,
                            seq!["xf"@, terminal_segment(url@)],
                            Some(dest@),
                        )
                    } else {
                        r matches Err(e) && e is UrlParse
                    }
                },
            },
    {
        match self {
            Resource::Svn { url } => {
                let mut args: Vec<String> = Vec::new();
                args.push("co".to_owned());
                args.push(url.clone());
                args.push("-r".to_owned());
                args.push("HEAD".to_owned());
                args.push(dest.to_owned());
                let c = ToolCmd { program: "svn".to_owned(), args, current_dir: None };
                proof {
                    assert(c.args.deep_view() =~= seq!["co"@, url@, "-r"@, "HEAD"@, dest@]);
                }
                Ok(DownloadPlan::RunTool(c))
            },
            Resource::Git { url, branch } => {
                let mut args: Vec<String> = Vec::new();
                args.push("clone".to_owned());
                args.push(url.clone());
                args.push("--depth".to_owned());
                args.push("1".to_owned());
                args.push(dest.to_owned());
                match branch {
                    Some(b) => {
                        args.push("-b".to_owned());
                        args.push(b.clone());
                    },
                    None => {},
                }
                let c = ToolCmd { program: "git".to_owned(), args, current_dir: None };
                proof {
                    assert(c.args.deep_view() =~= clone_args(url@, opt_str_view(*branch), dest@));
                }
                Ok(DownloadPlan::RunTool(c))
            },
            Resource::Tar { url } => {
                let file_name = match get_filename_from_url(url.as_str()) {
                    Ok(name) => name,
                    Err(e) => { return Err(e) },
                };
                let mut args: Vec<String> = Vec::new();
                args.push("xf".to_owned());
                args.push(file_name.clone());
                let extract = ToolCmd {
                    program: "tar".to_owned(),
                    args,
                    current_dir: Some(dest.to_owned()),
                };
                proof {
                    assert(extract.args.deep_view() =~= seq!["xf"@, terminal_segment(url@)]);
                }
                Ok(DownloadPlan::FetchThenExtract { url: url.clone(), file_name, extract })
            },
        }
    }

    /// The invocation that refreshes this resource in place in `dest`:
    /// a subversion update or a git pull run inside `dest`, and nothing
    /// at all for an archive, whose only refresh path is re-acquisition.
    pub fn update_plan(&self, dest: &str) -> (r: Option<ToolCmd>)
        ensures
            match self {
                Resource::Svn { .. } => r matches Some(c) && cmd_is(
                    c,
                    "svn"@,
                    seq!["update"@],
                    Some(dest@),
                ),
                Resource::Git { .. } => r matches Some(c) && cmd_is(
                    c,
                    "git"@,
                    seq!["pull"@],
                    Some(dest@),
                ),
                Resource::Tar { .. } => r is None,
            },
    {
        match self {
            Resource::Svn { .. } => {
                let mut args: Vec<String> = Vec::new();
                args.push("update".to_owned());
                let c = ToolCmd {
                    program: "svn".to_owned(),
                    args,
                    current_dir: Some(dest.to_owned()),
                };
                proof {
                    assert(c.args.deep_view() =~= seq!["update"@]);
                }
                Some(c)
            },
            Resource::Git { .. } => {
                let mut args: Vec<String> = Vec::new();
                args.push("pull".to_owned());
                let c = ToolCmd {
                    program: "git".to_owned(),
                    args,
                    current_dir: Some(dest.to_owned()),
                };
                proof {
                    assert(c.args.deep_view() =~= seq!["pull"@]);
                }
                Some(c)
            },
            Resource::Tar { .. } => None,
        }
    }
}

/// The three git invocations of the network probe, run in order inside
/// the disposable directory `work_dir`: initialize an empty repository,
/// register `url_str` as its remote, and list the remote's references.
/// The probe's verdict is the success of the last one.
pub fn probe_commands(url_str: &str, work_dir: &str) -> (cmds: Vec<ToolCmd>)
    ensures
        cmds@.len() == 3,
        cmd_is(cmds@[0], "git"@, seq!["init"@], Some(work_dir@)),
        cmd_is(cmds@[1], "git"@, seq!["remote"@, "add"@, "origin"@, url_str@], Some(work_dir@)),
        cmd_is(cmds@[2], "git"@, seq!["ls-remote"@], Some(work_dir@)),
{
    let mut cmds: Vec<ToolCmd> = Vec::new();

    let mut args0: Vec<String> = Vec::new();
    args0.push("init".to_owned());
    let c0 = ToolCmd {
        program: "git".to_owned(),
        args: args0,
        current_dir: Some(work_dir.to_owned()),
    };
    proof {
        assert(c0.args.deep_view() =~= seq!["init"@]);
    }
    cmds.push(c0);

    let mut args1: Vec<String> = Vec::new();
    args1.push("remote".to_owned());
    args1.push("add".to_owned());
    args1.push("origin".to_owned());
    args1.push(url_str.to_owned());
    let c1 = ToolCmd {
        program: "git".to_owned(),
        args: args1,
        current_dir: Some(work_dir.to_owned()),
    };
    proof {
        assert(c1.args.deep_view() =~= seq!["remote"@, "add"@, "origin"@, url_str@]);
    }
    cmds.push(c1);

    let mut args2: Vec<String> = Vec::new();
    args2.push("ls-remote".to_owned());
    let c2 = ToolCmd {
        program: "git".to_owned(),
        args: args2,
        current_dir: Some(work_dir.to_owned()),
    };
    proof {
        assert(c2.args.deep_view() =~= seq!["ls-remote"@]);
    }
    cmds.push(c2);

    cmds
}

} // verus!

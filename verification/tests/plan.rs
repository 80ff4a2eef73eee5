use llvmenv::acquire::{probe_commands, DownloadPlan};
use llvmenv::error::AcquireError;
use llvmenv::resource::Resource;

#[test]
fn svn_download_plan_is_a_head_checkout() {
    let res = Resource::Svn { url: "http://example.com/svn/repo".to_string() };
    match res.download_plan("/work/dest").unwrap() {
        DownloadPlan::RunTool(c) => {
            assert_eq!(c.program, "svn");
            assert_eq!(
                c.args,
                vec![
                    "co".to_string(),
                    "http://example.com/svn/repo".to_string(),
                    "-r".to_string(),
                    "HEAD".to_string(),
                    "/work/dest".to_string(),
                ]
            );
            assert!(c.current_dir.is_none());
        }
        other => panic!("expected one tool invocation, got {:?}", other),
    }
}

#[test]
fn git_download_plan_is_a_shallow_clone() {
    let res = Resource::Git { url: "http://github.com/termoshtt/llvmenv".to_string(), branch: None };
    match res.download_plan("/work/dest").unwrap() {
        DownloadPlan::RunTool(c) => {
            assert_eq!(c.program, "git");
            assert_eq!(
                c.args,
                vec![
                    "clone".to_string(),
                    "http://github.com/termoshtt/llvmenv".to_string(),
                    "--depth".to_string(),
                    "1".to_string(),
                    "/work/dest".to_string(),
                ]
            );
            assert!(c.current_dir.is_none());
        }
        other => panic!("expected one tool invocation, got {:?}", other),
    }
}

#[test]
fn git_download_plan_names_the_branch() {
    let res = Resource::Git {
        url: "http://github.com/termoshtt/llvmenv".to_string(),
        branch: Some("develop".to_string()),
    };
    match res.download_plan("/work/dest").unwrap() {
        DownloadPlan::RunTool(c) => {
            assert_eq!(
                c.args,
                vec![
                    "clone".to_string(),
                    "http://github.com/termoshtt/llvmenv".to_string(),
                    "--depth".to_string(),
                    "1".to_string(),
                    "/work/dest".to_string(),
                    "-b".to_string(),
                    "develop".to_string(),
                ]
            );
        }
        other => panic!("expected one tool invocation, got {:?}", other),
    }
}

#[test]
fn tar_download_plan_fetches_then_extracts() {
    let res = Resource::Tar { url: "http://releases.llvm.org/6.0.1/llvm-6.0.1.src.tar.xz".to_string() };
    match res.download_plan("/work/dest").unwrap() {
        DownloadPlan::FetchThenExtract { url, file_name, extract } => {
            assert_eq!(url, "http://releases.llvm.org/6.0.1/llvm-6.0.1.src.tar.xz");
            assert_eq!(file_name, "llvm-6.0.1.src.tar.xz");
            assert_eq!(extract.program, "tar");
            assert_eq!(extract.args, vec!["xf".to_string(), "llvm-6.0.1.src.tar.xz".to_string()]);
            assert_eq!(extract.current_dir, Some("/work/dest".to_string()));
        }
        other => panic!("expected a fetch and extraction, got {:?}", other),
    }
}

#[test]
fn tar_download_plan_rejects_a_malformed_url() {
    let res = Resource::Tar { url: "not a url".to_string() };
    let r = res.download_plan("/work/dest");
    assert!(matches!(r, Err(AcquireError::UrlParse)));
}

#[test]
fn svn_update_plan_runs_update_in_place() {
    let res = Resource::Svn { url: "http://example.com/svn/repo".to_string() };
    let c = res.update_plan("/work/dest").unwrap();
    assert_eq!(c.program, "svn");
    assert_eq!(c.args, vec!["update".to_string()]);
    assert_eq!(c.current_dir, Some("/work/dest".to_string()));
}

#[test]
fn git_update_plan_runs_pull_in_place() {
    let res = Resource::Git { url: "http://github.com/termoshtt/llvmenv".to_string(), branch: None };
    let c = res.update_plan("/work/dest").unwrap();
    assert_eq!(c.program, "git");
    assert_eq!(c.args, vec!["pull".to_string()]);
    assert_eq!(c.current_dir, Some("/work/dest".to_string()));
}

#[test]
fn tar_update_plan_is_a_no_op() {
    let res = Resource::Tar { url: "http://releases.llvm.org/6.0.1/llvm-6.0.1.src.tar.xz".to_string() };
    assert!(res.update_plan("/work/dest").is_none());
}

#[test]
fn probe_runs_init_remote_add_and_ls_remote() {
    let cmds = probe_commands("http://example.com/some/repository", "/tmp/probe");
    assert_eq!(cmds.len(), 3);
    for c in &cmds {
        assert_eq!(c.program, "git");
        assert_eq!(c.current_dir, Some("/tmp/probe".to_string()));
    }
    assert_eq!(cmds[0].args, vec!["init".to_string()]);
    assert_eq!(
        cmds[1].args,
        vec![
            "remote".to_string(),
            "add".to_string(),
            "origin".to_string(),
            "http://example.com/some/repository".to_string(),
        ]
    );
    assert_eq!(cmds[2].args, vec!["ls-remote".to_string()]);
}

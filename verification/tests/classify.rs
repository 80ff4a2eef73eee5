use llvmenv::error::AcquireError;
use llvmenv::resource::{Classification, Resource};
use llvmenv::urlinfo::get_filename_from_url;

#[test]
fn parse_tar_url() {
    let tar_url = "http://releases.llvm.org/6.0.1/llvm-6.0.1.src.tar.xz";
    match Resource::from_url(tar_url).unwrap() {
        Classification::Resolved(Resource::Tar { url }) => {
            assert_eq!(url, tar_url);
        }
        _ => unreachable!("Invalid detection"),
    }
}

#[test]
fn parse_svn_url() {
    let svn_url = "http://llvm.org/svn/llvm-project/llvm/trunk";
    match Resource::from_url(svn_url).unwrap() {
        Classification::Resolved(Resource::Svn { url }) => {
            assert_eq!(url, svn_url);
        }
        _ => unreachable!("Invalid detection"),
    }
}

#[test]
fn parse_git_url() {
    let git_url = "http://github.com/termoshtt/llvmenv";
    match Resource::from_url(git_url).unwrap() {
        Classification::Resolved(Resource::Git { url, branch: _ }) => {
            assert_eq!(url, git_url);
        }
        _ => unreachable!("Invalid detection"),
    }
}

#[test]
fn every_archive_suffix_classifies_as_tar() {
    let urls = vec![
        "http://example.com/pkg/source.tar.gz",
        "http://example.com/pkg/source.tar.xz",
        "http://example.com/pkg/source.tar.bz2",
        "http://example.com/pkg/source.tar.Z",
        "http://example.com/pkg/source.tgz",
        "http://example.com/pkg/source.taz",
    ];
    for u in urls {
        match Resource::from_url(u).unwrap() {
            Classification::Resolved(Resource::Tar { url }) => {
                assert_eq!(url, u);
            }
            other => panic!("expected an archive for {}, got {:?}", u, other),
        }
    }
}

#[test]
fn git_extension_classifies_with_no_branch() {
    let git_url = "https://git.example.org/project/repo.git";
    match Resource::from_url(git_url).unwrap() {
        Classification::Resolved(Resource::Git { url, branch }) => {
            assert_eq!(url, git_url);
            assert!(branch.is_none());
        }
        other => panic!("expected a git repository, got {:?}", other),
    }
}

#[test]
fn gitlab_host_classifies_as_git() {
    let git_url = "https://gitlab.com/group/project";
    match Resource::from_url(git_url).unwrap() {
        Classification::Resolved(Resource::Git { url, branch }) => {
            assert_eq!(url, git_url);
            assert!(branch.is_none());
        }
        other => panic!("expected a git repository, got {:?}", other),
    }
}

#[test]
fn llvm_svn_prefix_classifies_as_svn() {
    let svn_url = "http://llvm.org/svn/llvm-project/cfe";
    match Resource::from_url(svn_url).unwrap() {
        Classification::Resolved(Resource::Svn { url }) => {
            assert_eq!(url, svn_url);
        }
        other => panic!("expected a subversion repository, got {:?}", other),
    }
}

#[test]
fn llvm_git_prefix_classifies_as_git() {
    let git_url = "http://llvm.org/git/llvm";
    match Resource::from_url(git_url).unwrap() {
        Classification::Resolved(Resource::Git { url, branch }) => {
            assert_eq!(url, git_url);
            assert!(branch.is_none());
        }
        other => panic!("expected a git repository, got {:?}", other),
    }
}

#[test]
fn malformed_url_is_a_parse_error() {
    let r = Resource::from_url("not a url");
    assert!(matches!(r, Err(AcquireError::UrlParse)));
}

#[test]
fn undecided_url_needs_a_probe() {
    match Resource::from_url("http://example.com/some/repository").unwrap() {
        Classification::NeedsProbe => {}
        other => panic!("expected a probe, got {:?}", other),
    }
}

#[test]
fn cannot_be_a_base_url_needs_a_probe() {
    match Resource::from_url("mailto:someone@example.com").unwrap() {
        Classification::NeedsProbe => {}
        other => panic!("expected a probe, got {:?}", other),
    }
}

#[test]
fn probe_success_means_git() {
    let url = "http://example.com/some/repository";
    match Resource::from_probe(url, true) {
        Resource::Git { url: u, branch } => {
            assert_eq!(u, url);
            assert!(branch.is_none());
        }
        other => panic!("expected a git repository, got {:?}", other),
    }
}

#[test]
fn probe_failure_means_svn() {
    let url = "http://example.com/some/repository";
    match Resource::from_probe(url, false) {
        Resource::Svn { url: u } => {
            assert_eq!(u, url);
        }
        other => panic!("expected a subversion repository, got {:?}", other),
    }
}

#[test]
fn test_get_filename_from_url() {
    let url = "http://releases.llvm.org/6.0.1/llvm-6.0.1.src.tar.xz";
    assert_eq!(get_filename_from_url(url).unwrap(), "llvm-6.0.1.src.tar.xz");
}

#[test]
fn filename_of_bare_host_is_empty() {
    assert_eq!(get_filename_from_url("http://example.com").unwrap(), "");
}

#[test]
fn filename_of_malformed_url_is_a_parse_error() {
    let r = get_filename_from_url("not a url");
    assert!(matches!(r, Err(AcquireError::UrlParse)));
}

#[test]
fn filename_of_url_without_segments_is_a_parse_error() {
    let r = get_filename_from_url("mailto:someone@example.com");
    assert!(matches!(r, Err(AcquireError::UrlParse)));
}

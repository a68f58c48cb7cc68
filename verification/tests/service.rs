use conductor::git_to_local;
use conductor::BuildContext;
use conductor::Build;
use conductor::Error;
use conductor::LocalPath;
use conductor::Service;
use conductor::ServiceExt;

#[test]
fn git_to_local_fixes_local_directory_paths_as_needed() {
    let ctx = BuildContext::Dir("/src/foo".to_string());
    assert_eq!(git_to_local(&ctx).unwrap().as_str(), "/src/foo");

    let ctx = BuildContext::Dir("../src/foo".to_string());
    assert_eq!(git_to_local(&ctx).unwrap().as_str(), "pods/../src/foo");
}

#[test]
fn git_to_local_extracts_directory_part_of_git_urls() {
    let examples: &[(&str, Option<&str>)] = &[
        ("git://github.com/docker/docker", Some("docker")),
        ("git@github.com:docker/docker.git", Some("docker")),
        (
            "git@bitbucket.org:atlassianlabs/atlassian-docker.git",
            Some("atlassian-docker"),
        ),
        ("https://github.com/docker/docker.git", Some("docker")),
        ("http://github.com/docker/docker.git", Some("docker")),
        ("github.com/docker/docker.git", Some("docker")),
        // A URL from which we can't extract a local directory.
        ("http://www.example.com/", None),
    ];

    for &(url, dir) in examples {
        let in_ctx = BuildContext::GitUrl(url.to_string());
        if let Some(dir) = dir {
            let out_dir = LocalPath::join_under("src", dir);
            assert_eq!(git_to_local(&in_ctx).unwrap(), out_dir);
        } else {
            assert!(git_to_local(&in_ctx).is_err());
        }
    }
}

#[test]
fn dir_mapping_is_idempotent() {
    let first = git_to_local(&BuildContext::Dir("../src/foo".to_string())).unwrap();
    let second = git_to_local(&BuildContext::Dir("../src/foo".to_string())).unwrap();
    assert_eq!(first, second);
}

#[test]
fn relative_dir_goes_under_pods() {
    let ctx = BuildContext::Dir("node/hello".to_string());
    assert_eq!(git_to_local(&ctx).unwrap().as_str(), "pods/node/hello");
}

#[test]
fn join_under_lets_an_absolute_fragment_replace_the_base() {
    assert_eq!(LocalPath::join_under("pods", "/src/foo").as_str(), "/src/foo");
    assert_eq!(LocalPath::join_under("pods", "src/foo").as_str(), "pods/src/foo");
}

#[test]
fn cannot_derive_name_error_mentions_the_url() {
    let err = git_to_local(&BuildContext::GitUrl("http://www.example.com/".to_string()))
        .unwrap_err();
    assert!(matches!(err, Error::CannotDeriveName(url) if url == "http://www.example.com/"));
}

#[test]
fn cannot_derive_name_message_identifies_the_url() {
    let err = git_to_local(&BuildContext::GitUrl("http://www.example.com/".to_string()))
        .unwrap_err();
    assert_eq!(
        err.message(),
        "Can't get dir name from Git URL: http://www.example.com/"
    );
}

#[test]
fn context_read_error_message_repeats_the_upstream_message() {
    let err = Error::ContextReadError("unresolved template".to_string());
    assert_eq!(err.message(), "unresolved template");
}

#[test]
fn trailing_slash_yields_no_name() {
    let err = git_to_local(&BuildContext::GitUrl("https://github.com/docker/".to_string()))
        .unwrap_err();
    assert!(matches!(err, Error::CannotDeriveName(_)));
}

#[test]
fn url_without_a_slash_yields_no_name() {
    assert!(git_to_local(&BuildContext::GitUrl("docker.git".to_string())).is_err());
}

#[test]
fn dotted_final_segment_yields_no_name() {
    assert!(git_to_local(&BuildContext::GitUrl(
        "http://www.example.com/index.html".to_string()
    ))
    .is_err());
    assert!(git_to_local(&BuildContext::GitUrl(
        "https://github.com/docker/my.tool".to_string()
    ))
    .is_err());
}

#[test]
fn only_one_git_suffix_is_stripped() {
    assert!(git_to_local(&BuildContext::GitUrl(
        "https://github.com/docker/docker.git.git".to_string()
    ))
    .is_err());
}

#[test]
fn a_repository_named_git_keeps_its_name() {
    let out = git_to_local(&BuildContext::GitUrl("https://example.com/a/git".to_string()))
        .unwrap();
    assert_eq!(out.as_str(), "src/git");
}

#[test]
fn service_without_build_yields_none() {
    let service = Service { build: None };
    assert!(service.local_build_dir().unwrap().is_none());
}

#[test]
fn service_with_git_build_yields_checkout_under_src() {
    let service = Service {
        build: Some(Build {
            context: Ok(BuildContext::GitUrl(
                "git@github.com:docker/docker.git".to_string(),
            )),
        }),
    };
    let dir = service.local_build_dir().unwrap().unwrap();
    assert_eq!(dir.as_str(), "src/docker");
}

#[test]
fn service_with_dir_build_yields_dir_under_pods() {
    let service = Service {
        build: Some(Build {
            context: Ok(BuildContext::Dir("frontend".to_string())),
        }),
    };
    let dir = service.local_build_dir().unwrap().unwrap();
    assert_eq!(dir.as_str(), "pods/frontend");
}

#[test]
fn service_propagates_context_read_errors() {
    let service = Service {
        build: Some(Build {
            context: Err(Error::ContextReadError("unresolved template".to_string())),
        }),
    };
    let err = service.local_build_dir().unwrap_err();
    assert!(matches!(err, Error::ContextReadError(msg) if msg == "unresolved template"));
}

#[test]
fn service_propagates_mapper_errors() {
    let service = Service {
        build: Some(Build {
            context: Ok(BuildContext::GitUrl("http://www.example.com/".to_string())),
        }),
    };
    let err = service.local_build_dir().unwrap_err();
    assert!(matches!(err, Error::CannotDeriveName(url) if url == "http://www.example.com/"));
}

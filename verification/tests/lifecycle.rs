use tvm_build::build;
use tvm_build::lifecycle::first_stage;
use tvm_build::lifecycle::next_stage;
use tvm_build::lifecycle::ReplyKind;
use tvm_build::uninstall;
use tvm_build::uninstall_outcome;
use tvm_build::Action;
use tvm_build::BuildConfig;
use tvm_build::BuildResult;
use tvm_build::CMakeSetting;
use tvm_build::Error;
use tvm_build::Reply;
use tvm_build::Revision;
use tvm_build::Session;
use tvm_build::Stage;

/// A disk and a repository that exist in memory only.
struct World {
    paths: Vec<String>,
    known_branches: Vec<String>,
    os: String,
    clones: Vec<(String, String, String)>,
    removals: Vec<String>,
    builds: usize,
    log: Vec<String>,
}

fn world(paths: &[&str]) -> World {
    World {
        paths: paths.iter().map(|p| p.to_string()).collect(),
        known_branches: vec!["main".to_string(), "v0.8".to_string()],
        os: "linux".to_string(),
        clones: vec![],
        removals: vec![],
        builds: 0,
        log: vec![],
    }
}

fn perform(world: &mut World, action: &Action) -> Reply {
    match action {
        Action::PathExists(path) => {
            world.log.push(format!("exists {}", path));
            if world.paths.contains(path) {
                Reply::Present
            } else {
                Reply::Absent
            }
        }
        Action::RemoveDirAll(path) => {
            world.log.push(format!("remove-all {}", path));
            world.removals.push(path.clone());
            let under = format!("{}/", path);
            world.paths.retain(|p| p != path && !p.starts_with(&under));
            Reply::Completed
        }
        Action::RemoveDir(path) => {
            world.log.push(format!("remove {}", path));
            if !world.paths.contains(path) {
                return Reply::NotFound("No such file or directory".to_string());
            }
            let under = format!("{}/", path);
            if world.paths.iter().any(|p| p.starts_with(&under)) {
                return Reply::Failed("Directory not empty".to_string());
            }
            world.removals.push(path.clone());
            world.paths.retain(|p| p != path);
            Reply::Completed
        }
        Action::CloneRepository { url, branch, into } => {
            world.log.push(format!("clone {} {} {}", url, branch, into));
            if !world.known_branches.contains(branch) {
                return Reply::NotFound("reference not found".to_string());
            }
            world.clones.push((url.clone(), branch.clone(), into.clone()));
            let root = into.trim_end_matches("/source").to_string();
            if !world.paths.contains(&root) {
                world.paths.push(root);
            }
            world.paths.push(into.clone());
            Reply::Completed
        }
        Action::UpdateSubmodules { repository } => {
            world.log.push(format!("submodules {}", repository));
            Reply::Completed
        }
        Action::DetectPlatform => {
            world.log.push("platform".to_string());
            Reply::Platform {
                os: world.os.clone(),
                arch: "x86_64".to_string(),
                target: "x86_64-unknown-linux-gnu".to_string(),
            }
        }
        Action::CreateDirAll(path) => {
            world.log.push(format!("create {}", path));
            world.paths.push(path.clone());
            Reply::Completed
        }
        Action::RunCMake(invocation) => {
            world.log.push(format!("cmake {} {}", invocation.source_path, invocation.build_path));
            world.builds += 1;
            Reply::Completed
        }
        Action::Finish(_) | Action::Fail(_) => unreachable!(),
    }
}

fn run(world: &mut World, config: BuildConfig, root: &str) -> Result<BuildResult, Error> {
    let mut session = build(config, root)?;
    for _ in 0..32 {
        match session.action() {
            Action::Finish(result) => return Ok(result),
            Action::Fail(e) => return Err(e),
            action => {
                let reply = perform(world, &action);
                session = session.advance(reply);
            }
        }
    }
    panic!("the build did not end");
}

fn start(config: BuildConfig) -> Session {
    build(config, "/r").unwrap()
}

#[test]
fn fresh_build_takes_every_step_in_order() {
    let mut w = world(&[]);
    let result = run(&mut w, BuildConfig::default(), "/r");
    assert_eq!(result, Ok(BuildResult { revision: Revision::new("main".to_string()) }));
    assert_eq!(
        w.log,
        vec![
            "exists /r/main/source",
            "clone https://github.com/apache/tvm main /r/main/source",
            "submodules /r/main/source",
            "platform",
            "exists /r/main/build",
            "create /r/main/build",
            "cmake /r/main/source /r/main/build",
        ]
    );
}

#[test]
fn ensure_source_twice_clones_once() {
    let mut w = world(&[]);
    assert!(run(&mut w, BuildConfig::default(), "/r").is_ok());
    assert_eq!(w.clones.len(), 1);
    let paths_between = w.paths.clone();
    w.log.clear();
    assert!(run(&mut w, BuildConfig::default(), "/r").is_ok());
    assert_eq!(w.clones.len(), 1);
    assert_eq!(w.removals.len(), 0);
    assert_eq!(w.paths, paths_between);
    assert_eq!(
        w.log,
        vec![
            "exists /r/main/source",
            "platform",
            "exists /r/main/build",
            "cmake /r/main/source /r/main/build",
        ]
    );
}

#[test]
fn clean_never_removes_a_directory_of_the_user() {
    let mut w = world(&["/work/tvm", "/work/tvm/source", "/work/tvm/source/README"]);
    let mut config = BuildConfig::default();
    config.repository_path = Some("/work/tvm".to_string());
    config.clean = true;
    assert!(run(&mut w, config, "/r").is_ok());
    assert_eq!(w.removals, Vec::<String>::new());
    assert_eq!(w.clones.len(), 0);
    assert!(w.paths.contains(&"/work/tvm".to_string()));
    assert!(w.paths.contains(&"/work/tvm/source".to_string()));
    assert!(w.paths.contains(&"/work/tvm/source/README".to_string()));
    assert!(w.log.iter().all(|line| !line.starts_with("remove")));
}

#[test]
fn clean_of_a_pinned_revision_without_source_clones_into_it() {
    let mut w = world(&["/work/tvm"]);
    let mut config = BuildConfig::default();
    config.repository_path = Some("/work/tvm".to_string());
    config.clean = true;
    assert!(run(&mut w, config, "/r").is_ok());
    assert_eq!(w.removals, Vec::<String>::new());
    assert_eq!(
        w.clones,
        vec![(
            "https://github.com/apache/tvm".to_string(),
            "main".to_string(),
            "/work/tvm/source".to_string()
        )]
    );
}

#[test]
fn clean_removes_the_revision_and_clones_anew() {
    let mut w = world(&["/r/main", "/r/main/source", "/r/main/build", "/r/other"]);
    let mut config = BuildConfig::default();
    config.clean = true;
    assert!(run(&mut w, config, "/r").is_ok());
    assert_eq!(w.removals, vec!["/r/main".to_string()]);
    assert_eq!(w.clones.len(), 1);
    assert!(w.paths.contains(&"/r/other".to_string()));
    assert_eq!(
        w.log,
        vec![
            "exists /r/main",
            "remove-all /r/main",
            "exists /r/main/source",
            "clone https://github.com/apache/tvm main /r/main/source",
            "submodules /r/main/source",
            "platform",
            "exists /r/main/build",
            "create /r/main/build",
            "cmake /r/main/source /r/main/build",
        ]
    );
}

#[test]
fn clean_of_an_absent_revision_removes_nothing() {
    let mut w = world(&[]);
    let mut config = BuildConfig::default();
    config.clean = true;
    assert!(run(&mut w, config, "/r").is_ok());
    assert_eq!(w.removals, Vec::<String>::new());
    assert_eq!(w.clones.len(), 1);
    assert_eq!(w.log[0], "exists /r/main");
    assert_eq!(w.log[1], "exists /r/main/source");
}

#[test]
fn unknown_revision_is_reported_as_not_found() {
    let mut w = world(&[]);
    let mut config = BuildConfig::default();
    config.branch = Some("does-not-exist-xyz".to_string());
    let result = run(&mut w, config, "/r");
    assert_eq!(
        result,
        Err(Error::RevisionNotFound {
            revision: "does-not-exist-xyz".to_string(),
            repository: "https://github.com/apache/tvm".to_string(),
        })
    );
    assert_eq!(
        w.log,
        vec![
            "exists /r/does-not-exist-xyz/source",
            "clone https://github.com/apache/tvm does-not-exist-xyz /r/does-not-exist-xyz/source",
        ]
    );
}

#[test]
fn unknown_revision_of_another_repository_names_that_repository() {
    let mut w = world(&[]);
    let mut config = BuildConfig::default();
    config.branch = Some("nope".to_string());
    config.repository = Some("https://example.org/fork".to_string());
    assert_eq!(
        run(&mut w, config, "/r"),
        Err(Error::RevisionNotFound {
            revision: "nope".to_string(),
            repository: "https://example.org/fork".to_string(),
        })
    );
}

#[test]
fn failed_clone_keeps_its_message() {
    let session = start(BuildConfig::default()).advance(Reply::Absent);
    assert_eq!(session.stage(), Stage::CloneSource);
    let session = session.advance(Reply::Failed("connection reset".to_string()));
    assert_eq!(session.stage(), Stage::Failed);
    assert_eq!(session.action(), Action::Fail(Error::Git2("connection reset".to_string())));
}

#[test]
fn failed_submodule_keeps_its_message() {
    let session = start(BuildConfig::default())
        .advance(Reply::Absent)
        .advance(Reply::Completed)
        .advance(Reply::NotFound("submodule gone".to_string()));
    assert_eq!(session.action(), Action::Fail(Error::Git2("submodule gone".to_string())));
}

#[test]
fn failed_removal_is_a_filesystem_failure() {
    let mut config = BuildConfig::default();
    config.clean = true;
    let session = start(config).advance(Reply::Present);
    assert_eq!(session.action(), Action::RemoveDirAll("/r/main".to_string()));
    let session = session.advance(Reply::Failed("permission denied".to_string()));
    assert_eq!(session.action(), Action::Fail(Error::IoError("permission denied".to_string())));
}

#[test]
fn failed_build_directory_and_failed_build_are_surfaced() {
    let ready = || {
        start(BuildConfig::default()).advance(Reply::Present).advance(Reply::Platform {
            os: "linux".to_string(),
            arch: "x86_64".to_string(),
            target: "t".to_string(),
        })
    };
    let session = ready().advance(Reply::Absent).advance(Reply::Failed("read-only".to_string()));
    assert_eq!(session.action(), Action::Fail(Error::IoError("read-only".to_string())));
    let session = ready().advance(Reply::Present).advance(Reply::Failed("cmake: exit 1".to_string()));
    assert_eq!(session.action(), Action::Fail(Error::IoError("cmake: exit 1".to_string())));
}

#[test]
fn unsupported_platform_fails_the_build_by_name() {
    let mut w = world(&["/r/main", "/r/main/source"]);
    w.os = "plan9".to_string();
    let result = run(&mut w, BuildConfig::default(), "/r");
    assert_eq!(result, Err(Error::UnsupportedPlatform("plan9".to_string())));
    assert!(result.unwrap_err().message().contains("plan9"));
    assert_eq!(w.builds, 0);
    assert_eq!(w.log, vec!["exists /r/main/source", "platform"]);
}

#[test]
fn platform_is_not_asked_for_before_the_source_is_there() {
    let mut w = world(&[]);
    let mut config = BuildConfig::default();
    config.branch = Some("missing".to_string());
    assert!(run(&mut w, config, "/r").is_err());
    assert!(!w.log.contains(&"platform".to_string()));
}

#[test]
fn report_that_does_not_answer_fails_the_build() {
    let session = start(BuildConfig::default()).advance(Reply::Completed);
    assert_eq!(session.stage(), Stage::Failed);
    assert_eq!(session.action(), Action::Fail(Error::UnexpectedReply));
    let session = start(BuildConfig::default()).advance(Reply::Platform {
        os: "linux".to_string(),
        arch: "x86_64".to_string(),
        target: "t".to_string(),
    });
    assert_eq!(session.action(), Action::Fail(Error::UnexpectedReply));
}

#[test]
fn ended_build_stays_as_it_ended() {
    let session = start(BuildConfig::default())
        .advance(Reply::Absent)
        .advance(Reply::Failed("first".to_string()))
        .advance(Reply::Failed("second".to_string()))
        .advance(Reply::Completed);
    assert_eq!(session.action(), Action::Fail(Error::Git2("first".to_string())));
    let mut w = world(&["/r/main/source", "/r/main/build"]);
    let mut done = start(BuildConfig::default());
    for _ in 0..4 {
        let reply = perform(&mut w, &done.action());
        done = done.advance(reply);
    }
    assert_eq!(done.stage(), Stage::Done);
    let done = done.advance(Reply::Failed("late".to_string()));
    assert_eq!(done.stage(), Stage::Done);
    assert_eq!(
        done.action(),
        Action::Finish(BuildResult { revision: Revision::new("main".to_string()) })
    );
}

#[test]
fn build_with_an_output_path_is_refused() {
    let mut config = BuildConfig::default();
    config.output_path = Some("/out".to_string());
    match build(config, "/r") {
        Err(e) => assert_eq!(e, Error::OutputPathNotSupported("/out".to_string())),
        Ok(_) => panic!("a build with an output path was started"),
    }
}

#[test]
fn build_hands_the_options_to_cmake() {
    let mut config = BuildConfig::default();
    config.branch = Some("v0.8".to_string());
    config.settings.use_cuda = Some(CMakeSetting::On);
    config.settings.use_blas = Some("openblas".to_string());
    let session = start(config).advance(Reply::Present).advance(Reply::Platform {
        os: "macos".to_string(),
        arch: "aarch64".to_string(),
        target: "aarch64-apple-darwin".to_string(),
    });
    assert_eq!(session.action(), Action::PathExists("/r/v0.8/build".to_string()));
    let session = session.advance(Reply::Present);
    match session.action() {
        Action::RunCMake(invocation) => {
            assert_eq!(invocation.source_path, "/r/v0.8/source");
            assert_eq!(invocation.build_path, "/r/v0.8/build");
            assert_eq!(invocation.host, "Darwin");
            assert_eq!(invocation.target, "arm64-apple-darwin");
            assert!(!invocation.very_verbose);
            assert_eq!(
                invocation.defines,
                vec![
                    ("CMAKE_OSX_ARCHITECTURES".to_string(), "arm64".to_string()),
                    ("USE_CUDA".to_string(), "ON".to_string()),
                    ("USE_BLAS".to_string(), "openblas".to_string()),
                ]
            );
        }
        other => panic!("expected the run of cmake, got {:?}", other),
    }
}

#[test]
fn stages_follow_one_another() {
    assert_eq!(first_stage(false, false), Stage::ProbeSource);
    assert_eq!(first_stage(true, false), Stage::ProbeRoot);
    assert_eq!(first_stage(true, true), Stage::ProbeSource);
    assert_eq!(first_stage(false, true), Stage::ProbeSource);
    assert_eq!(next_stage(true, false, Stage::ProbeRoot, ReplyKind::Present), Stage::RemoveRoot);
    assert_eq!(next_stage(true, true, Stage::ProbeRoot, ReplyKind::Present), Stage::ProbeSource);
    assert_eq!(next_stage(false, false, Stage::ProbeRoot, ReplyKind::Present), Stage::ProbeSource);
    assert_eq!(next_stage(true, false, Stage::ProbeRoot, ReplyKind::Absent), Stage::ProbeSource);
    assert_eq!(next_stage(true, false, Stage::RemoveRoot, ReplyKind::Completed), Stage::ProbeSource);
    assert_eq!(next_stage(false, false, Stage::ProbeSource, ReplyKind::Present), Stage::ResolveTarget);
    assert_eq!(next_stage(false, false, Stage::ProbeSource, ReplyKind::Absent), Stage::CloneSource);
    assert_eq!(
        next_stage(false, false, Stage::CloneSource, ReplyKind::Completed),
        Stage::UpdateSubmodules
    );
    assert_eq!(next_stage(false, false, Stage::CloneSource, ReplyKind::NotFound), Stage::Failed);
    assert_eq!(
        next_stage(false, false, Stage::UpdateSubmodules, ReplyKind::Completed),
        Stage::ResolveTarget
    );
    assert_eq!(next_stage(false, false, Stage::ResolveTarget, ReplyKind::Supported), Stage::ProbeBuild);
    assert_eq!(next_stage(false, false, Stage::ResolveTarget, ReplyKind::Unsupported), Stage::Failed);
    assert_eq!(next_stage(false, false, Stage::ProbeBuild, ReplyKind::Present), Stage::RunBuild);
    assert_eq!(next_stage(false, false, Stage::ProbeBuild, ReplyKind::Absent), Stage::CreateBuild);
    assert_eq!(next_stage(false, false, Stage::CreateBuild, ReplyKind::Completed), Stage::RunBuild);
    assert_eq!(next_stage(false, false, Stage::RunBuild, ReplyKind::Completed), Stage::Done);
    assert_eq!(next_stage(false, false, Stage::RunBuild, ReplyKind::Failed), Stage::Failed);
    assert_eq!(next_stage(false, false, Stage::Done, ReplyKind::Failed), Stage::Done);
    assert_eq!(next_stage(false, false, Stage::Failed, ReplyKind::Completed), Stage::Failed);
}

#[test]
fn reply_kinds_drop_the_texts() {
    assert_eq!(Reply::Present.kind(), ReplyKind::Present);
    assert_eq!(Reply::Absent.kind(), ReplyKind::Absent);
    assert_eq!(Reply::Completed.kind(), ReplyKind::Completed);
    assert_eq!(Reply::NotFound("m".to_string()).kind(), ReplyKind::NotFound);
    assert_eq!(Reply::Failed("m".to_string()).kind(), ReplyKind::Failed);
    let platform = |os: &str| Reply::Platform {
        os: os.to_string(),
        arch: "x86_64".to_string(),
        target: "t".to_string(),
    };
    assert_eq!(platform("linux").kind(), ReplyKind::Supported);
    assert_eq!(platform("macos").kind(), ReplyKind::Supported);
    assert_eq!(platform("windows").kind(), ReplyKind::Unsupported);
}

#[test]
fn uninstall_removes_the_directory_of_the_revision() {
    assert_eq!(
        uninstall("r".to_string(), None, "/home/u/.tvm_build"),
        Ok(Action::RemoveDir("/home/u/.tvm_build/r".to_string()))
    );
    assert_eq!(
        uninstall("r".to_string(), Some("/out".to_string()), "/home/u/.tvm_build"),
        Err(Error::OutputPathNotSupported("/out".to_string()))
    );
}

#[test]
fn uninstall_of_a_missing_revision_is_directory_not_found() {
    let mut w = world(&["/root"]);
    let action = uninstall("r".to_string(), None, "/root").unwrap();
    let reply = perform(&mut w, &action);
    let outcome = uninstall_outcome("/root/r".to_string(), reply);
    assert_eq!(outcome, Err(Error::DirectoryNotFound("/root/r".to_string())));
    assert_eq!(outcome.unwrap_err().message(), "the directory does not exist: /root/r");
}

#[test]
fn uninstall_of_a_revision_with_contents_fails() {
    let mut w = world(&["/root/r", "/root/r/source"]);
    let action = uninstall("r".to_string(), None, "/root").unwrap();
    let reply = perform(&mut w, &action);
    assert_eq!(
        uninstall_outcome("/root/r".to_string(), reply),
        Err(Error::IoError("Directory not empty".to_string()))
    );
    assert!(w.paths.contains(&"/root/r".to_string()));
}

#[test]
fn uninstall_of_an_empty_revision_succeeds() {
    let mut w = world(&["/root/r"]);
    let action = uninstall("r".to_string(), None, "/root").unwrap();
    let reply = perform(&mut w, &action);
    assert_eq!(uninstall_outcome("/root/r".to_string(), reply), Ok(()));
    assert_eq!(w.paths, Vec::<String>::new());
    assert_eq!(
        uninstall_outcome("/root/r".to_string(), Reply::Present),
        Err(Error::UnexpectedReply)
    );
}

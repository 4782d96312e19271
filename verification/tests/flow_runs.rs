use purin::builder::{BuildFlow, FlowAction, FlowEvent, FlowState, GLibCBuilder};
use purin::file::FileManager;
use purin::utils::{Cmd, CmdOutcome};

fn flow(version: &str, force: bool, rebuild_image: bool) -> BuildFlow {
    BuildFlow::new(
        version.to_string(),
        force,
        rebuild_image,
        GLibCBuilder::new(),
        FileManager::from_config_dir("/root/.config/purin".to_string()),
    )
}

fn ok_outcome(lines: Vec<String>) -> FlowEvent {
    FlowEvent::CommandDone {
        outcome: CmdOutcome::Exited {
            success: true,
            status: "exit status: 0".to_string(),
            lines,
        },
    }
}

fn failed_outcome(status: &str) -> FlowEvent {
    FlowEvent::CommandDone {
        outcome: CmdOutcome::Exited {
            success: false,
            status: status.to_string(),
            lines: Vec::new(),
        },
    }
}

fn expect_run(act: FlowAction) -> Cmd {
    match act {
        FlowAction::Run { cmd } => cmd,
        _ => panic!("a command run was expected"),
    }
}

fn args(cmd: &Cmd) -> Vec<&str> {
    cmd.args.iter().map(|a| a.as_str()).collect()
}

#[test]
fn malformed_version_fails_before_any_action() {
    let f = flow("not-a-version", false, false);
    let (f, act) = f.step(FlowEvent::Started);
    assert!(matches!(act, FlowAction::Halt));
    match f.state {
        FlowState::Failed { error } => assert_eq!(
            error.to_string(),
            "A version of glibc must follow \"[0-9]+\\.[0-9]+\"."
        ),
        _ => panic!("validation must fail first"),
    }
}

#[test]
fn probe_failure_is_a_network_error() {
    let f = flow("2.31", false, false);
    let (f, _) = f.step(FlowEvent::Started);
    let (f, act) = f.step(FlowEvent::ProbeFailed { message: "connection refused".to_string() });
    assert!(matches!(act, FlowAction::Halt));
    match f.state {
        FlowState::Failed { error } => {
            assert_eq!(error.to_string(), "Network error: connection refused");
        },
        _ => panic!("a probe failure must end the run"),
    }
}

#[test]
fn probe_with_non_ok_status_reports_it() {
    let f = flow("2.31", false, false);
    let (f, _) = f.step(FlowEvent::Started);
    let (f, act) = f.step(FlowEvent::ProbeOk { status: 404, reason: "Not Found".to_string() });
    assert!(matches!(act, FlowAction::Halt));
    match f.state {
        FlowState::Failed { error } => {
            assert_eq!(error.to_string(), "The request failed with a status \"404 Not Found\".");
        },
        _ => panic!("a non-OK probe must end the run"),
    }
}

#[test]
fn ensure_cached_twice_builds_once() {
    // first run: the version is not cached, so the flow proceeds to the
    // environment work; it is driven here only as far as the decision point
    let f = flow("2.31", false, false);
    let (f, act) = f.step(FlowEvent::Started);
    match &act {
        FlowAction::Probe { url } => {
            assert_eq!(url, "https://ftp.gnu.org/gnu/glibc/glibc-2.31.tar.xz");
        },
        _ => panic!("the flow must probe the source first"),
    }
    let (f, act) = f.step(FlowEvent::ProbeOk { status: 200, reason: "OK".to_string() });
    assert!(matches!(act, FlowAction::CheckCache { .. }));
    let (_f, act) = f.step(FlowEvent::CacheChecked { exists: false });
    let cmd = expect_run(act);
    assert_eq!(cmd.program, "docker");

    // second run: the cache entry now exists and no force flag is given; the
    // flow is a no-op that reports "already built"
    let f = flow("2.31", false, false);
    let (f, _) = f.step(FlowEvent::Started);
    let (f, _) = f.step(FlowEvent::ProbeOk { status: 200, reason: "OK".to_string() });
    let (f, act) = f.step(FlowEvent::CacheChecked { exists: true });
    assert!(matches!(act, FlowAction::Halt));
    match f.state {
        FlowState::Done { already_built } => assert!(already_built),
        _ => panic!("the second run must be a no-op"),
    }
}

#[test]
fn force_rebuild_deletes_the_cache_entry_first() {
    let f = flow("2.31", true, false);
    let (f, _) = f.step(FlowEvent::Started);
    let (f, _) = f.step(FlowEvent::ProbeOk { status: 200, reason: "OK".to_string() });
    let (f, act) = f.step(FlowEvent::CacheChecked { exists: true });
    match &act {
        FlowAction::CleanCache { dir } => assert_eq!(dir, "/root/.config/purin/glibc-2.31"),
        _ => panic!("a forced rebuild must delete the cached entry"),
    }
    let (_f, act) = f.step(FlowEvent::CacheCleaned { error: None });
    let cmd = expect_run(act);
    assert_eq!(cmd.program, "docker");
    assert!(cmd.args.is_empty());
}

#[test]
fn full_build_runs_the_stages_in_order() {
    let f = flow("2.31", false, false);
    let (f, _) = f.step(FlowEvent::Started);
    let (f, act) = f.step(FlowEvent::ProbeOk { status: 200, reason: "OK".to_string() });
    match &act {
        FlowAction::CheckCache { dir } => assert_eq!(dir, "/root/.config/purin/glibc-2.31"),
        _ => panic!("the cache must be consulted"),
    }

    // no cache entry: the runtime is probed
    let (f, act) = f.step(FlowEvent::CacheChecked { exists: false });
    let cmd = expect_run(act);
    assert_eq!(cmd.program, "docker");
    assert!(cmd.args.is_empty());

    // the runtime answered: the image is queried; no image is found
    let (f, act) = f.step(ok_outcome(Vec::new()));
    let cmd = expect_run(act);
    assert_eq!(args(&cmd), vec!["images", "-q", "purin:latest"]);
    let (f, act) = f.step(ok_outcome(Vec::new()));
    match &act {
        FlowAction::PrepareEnvFile { path } => {
            assert_eq!(path, "/root/.config/purin/Dockerfile");
        },
        _ => panic!("the definition file must be materialized"),
    }

    // the image is built from the definition file
    let (f, act) = f.step(FlowEvent::EnvFileReady { created: true });
    let cmd = expect_run(act);
    assert_eq!(
        args(&cmd),
        vec!["build", "/root/.config/purin", "--tag", "purin:latest", "--progress", "plain"]
    );

    // no stale container exists: a fresh one is started
    let (f, act) = f.step(ok_outcome(Vec::new()));
    let cmd = expect_run(act);
    assert_eq!(
        args(&cmd),
        vec!["container", "ls", "--all", "--filter", "name=purin-exec", "--quiet"]
    );
    let (f, act) = f.step(ok_outcome(Vec::new()));
    let cmd = expect_run(act);
    assert_eq!(
        args(&cmd),
        vec!["container", "run", "--detach", "--tty", "--name", "purin-exec", "purin:latest", "sh"]
    );

    // the six-plus-one stages run strictly in order
    let stage = |workdir: &str, rest: Vec<&str>| -> Vec<String> {
        let mut v = vec![
            "container".to_string(),
            "exec".to_string(),
            "--tty".to_string(),
            "--workdir".to_string(),
            workdir.to_string(),
            "purin-exec".to_string(),
        ];
        for r in rest {
            v.push(r.to_string());
        }
        v
    };
    let expected_stages: Vec<Vec<String>> = vec![
        stage("/", vec!["mkdir", "-p", "/build/dest"]),
        stage("/", vec!["mkdir", "-p", "/build/out"]),
        stage("/build", vec!["wget", "https://ftp.gnu.org/gnu/glibc/glibc-2.31.tar.xz"]),
        stage("/build", vec!["tar", "-xf", "glibc-2.31.tar.xz"]),
        stage(
            "/build/dest",
            vec![
                "bash",
                "-c",
                "../glibc-2.31/configure --disable-werror --prefix=/build/out CC=\"gcc -m64\" CXX=\"g++ -m64\"",
            ],
        ),
        stage("/build/dest", vec!["bash", "-c", "make -j `nproc`"]),
        stage("/build/dest", vec!["bash", "-c", "make install"]),
    ];
    let mut f = f;
    let (f2, act) = f.step(ok_outcome(Vec::new()));
    f = f2;
    let mut current = expect_run(act);
    for (i, expected) in expected_stages.iter().enumerate() {
        assert_eq!(&current.args, expected, "stage {} differs", i);
        let (f2, act) = f.step(ok_outcome(Vec::new()));
        f = f2;
        if i + 1 < expected_stages.len() {
            current = expect_run(act);
        } else {
            // after the last stage the cache entry is created
            match &act {
                FlowAction::CreateCacheDir { dir } => {
                    assert_eq!(dir, "/root/.config/purin/glibc-2.31");
                },
                _ => panic!("the cache entry must be created after the install stage"),
            }
        }
    }

    // the artifacts are copied out, then the environment is torn down
    let (f, act) = f.step(FlowEvent::CacheDirCreated { error: None });
    let cmd = expect_run(act);
    assert_eq!(
        args(&cmd),
        vec!["container", "cp", "purin-exec:/build/out/.", "/root/.config/purin/glibc-2.31"]
    );
    let (f, act) = f.step(ok_outcome(Vec::new()));
    let cmd = expect_run(act);
    assert_eq!(args(&cmd), vec!["container", "stop", "purin-exec"]);
    let (f, act) = f.step(ok_outcome(Vec::new()));
    let cmd = expect_run(act);
    assert_eq!(args(&cmd), vec!["container", "rm", "purin-exec"]);
    let (f, act) = f.step(ok_outcome(Vec::new()));
    assert!(matches!(act, FlowAction::Halt));
    match f.state {
        FlowState::Done { already_built } => assert!(!already_built),
        _ => panic!("the build must finish cached"),
    }
}

#[test]
fn reused_image_skips_the_image_build() {
    let f = flow("2.31", false, false);
    let (f, _) = f.step(FlowEvent::Started);
    let (f, _) = f.step(FlowEvent::ProbeOk { status: 200, reason: "OK".to_string() });
    let (f, _) = f.step(FlowEvent::CacheChecked { exists: false });
    let (f, _) = f.step(ok_outcome(Vec::new()));
    // an image hash is listed: the image is reused, and the flow goes
    // straight to the container listing
    let (_f, act) = f.step(ok_outcome(vec!["f2a9b1c8".to_string()]));
    let cmd = expect_run(act);
    assert_eq!(
        args(&cmd),
        vec!["container", "ls", "--all", "--filter", "name=purin-exec", "--quiet"]
    );
}

#[test]
fn forced_image_rebuild_deletes_the_image() {
    let f = flow("2.31", false, true);
    let (f, _) = f.step(FlowEvent::Started);
    let (f, _) = f.step(FlowEvent::ProbeOk { status: 200, reason: "OK".to_string() });
    let (f, _) = f.step(FlowEvent::CacheChecked { exists: false });
    let (f, _) = f.step(ok_outcome(Vec::new()));
    let (f, act) = f.step(ok_outcome(vec!["f2a9b1c8".to_string()]));
    let cmd = expect_run(act);
    assert_eq!(args(&cmd), vec!["rmi", "-f", "purin:latest"]);
    let (_f, act) = f.step(ok_outcome(Vec::new()));
    assert!(matches!(act, FlowAction::PrepareEnvFile { .. }));
}

#[test]
fn stale_container_is_stopped_and_removed() {
    let f = flow("2.31", false, false);
    let (f, _) = f.step(FlowEvent::Started);
    let (f, _) = f.step(FlowEvent::ProbeOk { status: 200, reason: "OK".to_string() });
    let (f, _) = f.step(FlowEvent::CacheChecked { exists: false });
    let (f, _) = f.step(ok_outcome(Vec::new()));
    let (f, _) = f.step(ok_outcome(vec!["f2a9b1c8".to_string()]));
    // a stale instance is listed: it is stopped, removed, and a fresh one is
    // started; it is never reused
    let (f, act) = f.step(ok_outcome(vec!["0123abcd".to_string()]));
    let cmd = expect_run(act);
    assert_eq!(args(&cmd), vec!["container", "stop", "purin-exec"]);
    let (f, act) = f.step(ok_outcome(Vec::new()));
    let cmd = expect_run(act);
    assert_eq!(args(&cmd), vec!["container", "rm", "purin-exec"]);
    let (_f, act) = f.step(ok_outcome(Vec::new()));
    let cmd = expect_run(act);
    assert_eq!(
        args(&cmd),
        vec!["container", "run", "--detach", "--tty", "--name", "purin-exec", "purin:latest", "sh"]
    );
}

#[test]
fn stage_failure_tears_the_environment_down_and_keeps_the_stage_error() {
    let f = flow("2.31", false, false);
    let (f, _) = f.step(FlowEvent::Started);
    let (f, _) = f.step(FlowEvent::ProbeOk { status: 200, reason: "OK".to_string() });
    let (f, _) = f.step(FlowEvent::CacheChecked { exists: false });
    let (f, _) = f.step(ok_outcome(Vec::new()));
    let (f, _) = f.step(ok_outcome(vec!["f2a9b1c8".to_string()]));
    let (f, _) = f.step(ok_outcome(Vec::new()));
    // the container starts; the stages mkdir, mkdir, wget and tar succeed;
    // configure fails
    let (f, _) = f.step(ok_outcome(Vec::new()));
    let (f, _) = f.step(ok_outcome(Vec::new()));
    let (f, _) = f.step(ok_outcome(Vec::new()));
    let (f, _) = f.step(ok_outcome(Vec::new()));
    let (f, _) = f.step(ok_outcome(Vec::new()));
    let (f, act) = f.step(failed_outcome("exit status: 2"));
    // the teardown starts although the stage failed
    let cmd = expect_run(act);
    assert_eq!(args(&cmd), vec!["container", "stop", "purin-exec"]);
    let (f, act) = f.step(ok_outcome(Vec::new()));
    let cmd = expect_run(act);
    assert_eq!(args(&cmd), vec!["container", "rm", "purin-exec"]);
    let (f, act) = f.step(ok_outcome(Vec::new()));
    assert!(matches!(act, FlowAction::Halt));
    match f.state {
        FlowState::Failed { error } => assert_eq!(
            error.to_string(),
            "Failed to configure the glibc.\nThe program \"docker\" finished with a status exit status: 2."
        ),
        _ => panic!("the stage error must be reported after teardown"),
    }
}

#[test]
fn missing_runtime_ends_the_run_with_a_hint() {
    let f = flow("2.31", false, false);
    let (f, _) = f.step(FlowEvent::Started);
    let (f, _) = f.step(FlowEvent::ProbeOk { status: 200, reason: "OK".to_string() });
    let (f, _) = f.step(FlowEvent::CacheChecked { exists: false });
    let (f, act) = f.step(FlowEvent::CommandDone {
        outcome: CmdOutcome::IoFailed { message: "No such file or directory".to_string() },
    });
    assert!(matches!(act, FlowAction::Halt));
    match f.state {
        FlowState::Failed { error } => assert_eq!(
            error.to_string(),
            "Docker is not found. Please make sure Docker is ready."
        ),
        _ => panic!("a missing runtime must be reported"),
    }
}

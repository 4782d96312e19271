use purin::error::InternalError;
use purin::file::{lib_list, not_found_msg, rm_decision, FileManager, LibProbe, LinkProbe, RmAction};

fn cache() -> FileManager {
    FileManager::from_config_dir("/home/user/.config/purin".to_string())
}

fn file_probe() -> LibProbe {
    LibProbe::NotSymlink { is_file: true }
}

#[test]
fn copy_fails_when_destination_is_missing() {
    let fm = cache();
    let extra: Vec<String> = Vec::new();
    let probes = vec![file_probe(), file_probe()];
    let r = fm.copy_to("2.31", false, &extra, &probes);
    match r {
        Err(InternalError::IOError(m)) => {
            assert_eq!(m, "A destination of the binary of glibc 2.31 does not exist.");
        },
        _ => panic!("a missing destination must fail with an I/O error"),
    }
}

#[test]
fn copy_fails_naming_the_missing_runtime_library() {
    let fm = cache();
    let extra: Vec<String> = Vec::new();
    // the runtime library is missing, the loader is present: nothing may be
    // copied, and the error must name the runtime library
    let probes = vec![LibProbe::NotSymlink { is_file: false }, file_probe()];
    let r = fm.copy_to("2.31", true, &extra, &probes);
    match r {
        Err(InternalError::Common(m)) => {
            assert_eq!(m, "Failed to find libc.so.6.");
        },
        _ => panic!("a missing runtime library must fail naming it"),
    }
}

#[test]
fn copy_resolves_symlinks_to_unversioned_names() {
    let fm = cache();
    let extra: Vec<String> = Vec::new();
    let probes = vec![
        LibProbe::Symlink {
            link: LinkProbe::Resolved { name: "libc-2.31.so".to_string(), is_file: true },
        },
        LibProbe::Symlink {
            link: LinkProbe::Resolved { name: "ld-2.31.so".to_string(), is_file: true },
        },
    ];
    let steps = fm.copy_to("2.31", true, &extra, &probes).unwrap();
    assert_eq!(steps.len(), 2);
    assert_eq!(steps[0].src, "/home/user/.config/purin/glibc-2.31/lib/libc-2.31.so");
    assert_eq!(steps[0].dest_name, "libc.so.6");
    assert_eq!(steps[1].src, "/home/user/.config/purin/glibc-2.31/lib/ld-2.31.so");
    assert_eq!(steps[1].dest_name, "ld-linux-x86-64.so.2");
}

#[test]
fn copy_includes_caller_extras_after_the_defaults() {
    let fm = cache();
    let extra = vec!["libpthread.so.0".to_string()];
    let probes = vec![file_probe(), file_probe(), file_probe()];
    let steps = fm.copy_to("2.17", true, &extra, &probes).unwrap();
    assert_eq!(steps.len(), 3);
    assert_eq!(steps[0].dest_name, "libc.so.6");
    assert_eq!(steps[0].src, "/home/user/.config/purin/glibc-2.17/lib/libc.so.6");
    assert_eq!(steps[2].dest_name, "libpthread.so.0");
    assert_eq!(steps[2].src, "/home/user/.config/purin/glibc-2.17/lib/libpthread.so.0");
}

#[test]
fn copy_reports_each_link_failure() {
    let fm = cache();
    let extra: Vec<String> = Vec::new();
    let r = fm.copy_to(
        "2.31",
        true,
        &extra,
        &vec![LibProbe::Symlink { link: LinkProbe::NoFileName }, file_probe()],
    );
    match r {
        Err(InternalError::Common(m)) => assert_eq!(
            m,
            "Failed to get the destination of /home/user/.config/purin/glibc-2.31/lib/libc.so.6"
        ),
        _ => panic!("an unresolvable link must fail"),
    }
    let r = fm.copy_to(
        "2.31",
        true,
        &extra,
        &vec![LibProbe::Symlink { link: LinkProbe::NotUnicode }, file_probe()],
    );
    match r {
        Err(InternalError::Common(m)) => assert_eq!(m, "The path is not valid in Unicode."),
        _ => panic!("a non-Unicode link target must fail"),
    }
    let r = fm.copy_to(
        "2.31",
        true,
        &extra,
        &vec![
            LibProbe::Symlink {
                link: LinkProbe::ReadFailed { message: "permission denied".to_string() },
            },
            file_probe(),
        ],
    );
    match r {
        Err(InternalError::IOError(m)) => assert_eq!(m, "permission denied"),
        _ => panic!("a failed link read must surface the I/O error"),
    }
}

#[test]
fn copy_fails_when_a_symlink_points_at_nothing() {
    let fm = cache();
    let extra: Vec<String> = Vec::new();
    let probes = vec![
        LibProbe::Symlink {
            link: LinkProbe::Resolved { name: "libc-2.31.so".to_string(), is_file: false },
        },
        file_probe(),
    ];
    match fm.copy_to("2.31", true, &extra, &probes) {
        Err(InternalError::Common(m)) => assert_eq!(m, "Failed to find libc.so.6."),
        _ => panic!("a dangling symlink must fail naming the library"),
    }
}

#[test]
fn default_library_list_holds_loader_and_runtime() {
    let fm = cache();
    let defaults = fm.get_default_lib_list();
    assert_eq!(defaults, vec!["libc.so.6", "ld-linux-x86-64.so.2"]);
    let extra = vec!["libdl.so.2".to_string()];
    let all = lib_list(&extra);
    assert_eq!(
        all,
        vec![
            "libc.so.6".to_string(),
            "ld-linux-x86-64.so.2".to_string(),
            "libdl.so.2".to_string()
        ]
    );
}

#[test]
fn removing_a_missing_version_reports_not_found() {
    // the decision for a version that is not cached directs no deletion
    match rm_decision(false) {
        RmAction::NotFound => {},
        RmAction::Remove => panic!("nothing may be removed for a missing version"),
    }
    assert_eq!(not_found_msg("9.9"), "Glibc 9.9 is not found.");
    match rm_decision(true) {
        RmAction::Remove => {},
        RmAction::NotFound => panic!("an existing version must be removed"),
    }
}

#[test]
fn cleaning_an_empty_root_reports_already_cleaned() {
    let fm = cache();
    assert!(fm.clean(true).is_ok());
    match fm.clean(false) {
        Err(InternalError::Common(m)) => assert_eq!(m, "Already cleaned."),
        _ => panic!("cleaning nothing must fail as already cleaned"),
    }
}

#[test]
fn cache_paths_follow_the_fixed_layout() {
    let fm = cache();
    assert_eq!(fm.get_glibc_dir("2.31"), "/home/user/.config/purin/glibc-2.31");
    assert_eq!(fm.get_docker_file_path(), "/home/user/.config/purin/Dockerfile");
    assert_eq!(fm.config_root(), "/home/user/.config/purin");
}

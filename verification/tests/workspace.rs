use processor::job::{
    subpath, workspace_root, Job, Role, BINDINGS_FOLDER_NAME, COMPONENT_FILE_NAME,
    COMPONENT_INPUT_FOLDER_NAME, COMPONENT_OUTPUT_FOLDER_NAME, COMPOSED_FILE_PATH,
};

#[test]
fn fixed_names() {
    assert_eq!(COMPONENT_INPUT_FOLDER_NAME, "component-input");
    assert_eq!(COMPONENT_OUTPUT_FOLDER_NAME, "component-output");
    assert_eq!(BINDINGS_FOLDER_NAME, "bindings");
    assert_eq!(COMPONENT_FILE_NAME, "component.wasm");
    assert_eq!(COMPOSED_FILE_PATH, "./composed.wasm");
}

#[test]
fn new_job_is_blank() {
    let job = Job::new();
    assert_eq!(job.source_path, "");
    assert_eq!(job.language, None);
    assert_eq!(job.temp_dir, "");
}

#[test]
fn new_jobs_differ() {
    let first = Job::new();
    let second = Job::new();
    assert_ne!(first.id, second.id);
}

#[test]
fn new_job_has_a_random_version_four_identifier() {
    let job = Job::new();
    assert_eq!((job.id >> 76) & 0xf, 4);
    assert_eq!((job.id >> 62) & 0x3, 2);
    let text = workspace_root("", job.id);
    assert_eq!(text.chars().nth(14), Some('4'));
    assert!(matches!(text.chars().nth(19), Some('8' | '9' | 'a' | 'b')));
}

#[test]
fn workspace_root_writes_the_identifier_hyphenated() {
    assert_eq!(
        workspace_root("/tmp", 0x67e55044_10b1_426f_9247_bb680e5fe0c8),
        "/tmp/67e55044-10b1-426f-9247-bb680e5fe0c8"
    );
    assert_eq!(workspace_root("/tmp/", 0), "/tmp/00000000-0000-0000-0000-000000000000");
    assert_eq!(workspace_root("", u128::MAX), "ffffffff-ffff-ffff-ffff-ffffffffffff");
    assert_eq!(
        workspace_root("t", 0x0123456789abcdef0123456789abcdef),
        "t/01234567-89ab-cdef-0123-456789abcdef"
    );
}

#[test]
fn assign_workspace_derives_the_root_from_the_identifier() {
    let mut job = Job::new();
    job.id = 0xa1a2a3a4_b1b2_c1c2_d1d2_d3d4d5d6d7d8;
    job.source_path = "proj".to_string();
    job.assign_workspace("/var/tmp");
    assert_eq!(job.temp_dir, "/var/tmp/a1a2a3a4-b1b2-c1c2-d1d2-d3d4d5d6d7d8");
    assert_eq!(job.id, 0xa1a2a3a4_b1b2_c1c2_d1d2_d3d4d5d6d7d8);
    assert_eq!(job.source_path, "proj");
    assert_eq!(job.language, None);
    job.assign_workspace("/var/tmp");
    assert_eq!(job.temp_dir, "/var/tmp/a1a2a3a4-b1b2-c1c2-d1d2-d3d4d5d6d7d8");
}

#[test]
fn subpath_for_each_role() {
    assert_eq!(subpath("/tmp/w", Role::ComponentInput), "/tmp/w/component-input");
    assert_eq!(subpath("/tmp/w", Role::ComponentOutput), "/tmp/w/component-output");
    assert_eq!(subpath("/tmp/w", Role::Bindings), "/tmp/w/bindings");
    assert_eq!(subpath("/tmp/w/", Role::Bindings), "/tmp/w/bindings");
    assert_eq!(subpath("", Role::ComponentInput), "component-input");
}

#[test]
fn workspaces_of_different_jobs_are_apart() {
    let first = workspace_root("/tmp", 1);
    let second = workspace_root("/tmp", 2);
    assert_ne!(first, second);
    assert_eq!(first.len(), second.len());
    for role in [Role::ComponentInput, Role::ComponentOutput, Role::Bindings] {
        let path = subpath(&first, role);
        assert!(path.starts_with(&format!("{}/", first)));
        assert!(!path.starts_with(&second));
    }
}

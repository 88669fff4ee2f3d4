use processor::job::Job;
use processor::language::CodeLanguages;
use processor::tasks::{
    build_component, build_python_component, copy_dir_contents, guest_module_path,
    prep_app_modules, stage_guest, DirEntry, Resource, Task, ADAPTER_FILE_NAME,
    ADAPTER_MODULE_NAME, WORLD_FILE_NAME, WORLD_NAME,
};

fn entry(name: &str, is_file: bool) -> DirEntry {
    DirEntry::new(name.to_string(), is_file).unwrap()
}

fn job(language: Option<CodeLanguages>, source: &str, root: &str) -> Job {
    let mut job = Job::new();
    job.source_path = source.to_string();
    job.language = language;
    job.temp_dir = root.to_string();
    job
}

fn create(path: &str) -> Task {
    Task::CreateDirAll { path: path.to_string() }
}

fn copy(from: &str, to: &str) -> Task {
    Task::CopyFile { from: from.to_string(), to: to.to_string() }
}

#[test]
fn fixed_resource_names() {
    assert_eq!(ADAPTER_FILE_NAME, "python_module.py");
    assert_eq!(ADAPTER_MODULE_NAME, "python_module");
    assert_eq!(WORLD_FILE_NAME, "world.wit");
    assert_eq!(WORLD_NAME, "promptmodifier");
}

#[test]
fn dir_entry_takes_plain_names_only() {
    assert!(DirEntry::new("app.py".to_string(), true).is_some());
    assert!(DirEntry::new(".hidden".to_string(), true).is_some());
    assert!(DirEntry::new("...".to_string(), true).is_some());
    assert!(DirEntry::new("".to_string(), true).is_none());
    assert!(DirEntry::new(".".to_string(), false).is_none());
    assert!(DirEntry::new("..".to_string(), false).is_none());
    assert!(DirEntry::new("a/b".to_string(), true).is_none());
    assert!(DirEntry::new("/abs".to_string(), true).is_none());
    assert!(DirEntry::new("dir/".to_string(), false).is_none());
}

#[test]
fn dir_entry_keeps_what_it_was_given() {
    let e = entry("app.py", true);
    assert_eq!(e.file_name(), "app.py");
    assert!(e.is_file());
    let d = entry("sub", false);
    assert_eq!(d.file_name(), "sub");
    assert!(!d.is_file());
}

#[test]
fn copy_of_an_empty_directory_only_creates_the_target() {
    assert_eq!(copy_dir_contents("src", "dst", &vec![]), vec![create("dst")]);
}

#[test]
fn copy_takes_the_regular_files_in_order() {
    let entries = vec![
        entry("b.py", true),
        entry("nested", false),
        entry("a.txt", true),
        entry("other", false),
    ];
    assert_eq!(
        copy_dir_contents("/home/u/proj", "/tmp/w/component-input", &entries),
        vec![
            create("/tmp/w/component-input"),
            copy("/home/u/proj/b.py", "/tmp/w/component-input/b.py"),
            copy("/home/u/proj/a.txt", "/tmp/w/component-input/a.txt"),
        ]
    );
}

#[test]
fn copy_does_not_descend_into_directories() {
    let entries = vec![entry("nested", false)];
    assert_eq!(copy_dir_contents("src/", "dst/", &entries), vec![create("dst/")]);
}

#[test]
fn preparation_copies_the_sources_and_adds_the_adapter() {
    let job = job(Some(CodeLanguages::Python), "proj", "/tmp/w");
    let entries = vec![entry("app.py", true), entry("venv", false)];
    assert_eq!(
        prep_app_modules(&job, &entries),
        vec![
            create("/tmp/w/component-input"),
            copy("proj/app.py", "/tmp/w/component-input/app.py"),
            Task::WriteResource {
                resource: Resource::Adapter,
                to: "/tmp/w/component-input/python_module.py".to_string(),
            },
        ]
    );
}

#[test]
fn guest_lies_in_the_output_directory() {
    let job = job(Some(CodeLanguages::Wasm), "x.wasm", "/tmp/w");
    assert_eq!(guest_module_path(&job), "/tmp/w/component-output/component.wasm");
}

#[test]
fn build_writes_the_world_generates_bindings_and_compiles() {
    let job = job(Some(CodeLanguages::Python), "proj", "/tmp/w");
    let expected = vec![
        create("/tmp/w"),
        Task::WriteResource { resource: Resource::World, to: "/tmp/w/world.wit".to_string() },
        Task::GenerateBindings {
            wit: "/tmp/w/world.wit".to_string(),
            world: "promptmodifier".to_string(),
            output_dir: "/tmp/w/bindings".to_string(),
        },
        create("/tmp/w/component-output"),
        Task::Componentize {
            wit: "/tmp/w/world.wit".to_string(),
            world: "promptmodifier".to_string(),
            python_path: "/tmp/w/component-input".to_string(),
            module: "python_module".to_string(),
            output: "/tmp/w/component-output/component.wasm".to_string(),
        },
    ];
    assert_eq!(build_python_component(&job), expected);
    assert_eq!(build_component(&job), expected);
}

#[test]
fn a_component_is_always_brought_to_the_output_directory() {
    let job = job(Some(CodeLanguages::Wasm), "/home/u/x.wasm", "/tmp/w");
    let expected = vec![
        create("/tmp/w/component-output"),
        copy("/home/u/x.wasm", "/tmp/w/component-output/component.wasm"),
    ];
    assert_eq!(stage_guest(&job), expected);
    assert_eq!(stage_guest(&job), expected);
}

#[test]
fn nothing_is_brought_for_a_project() {
    for language in [CodeLanguages::Python, CodeLanguages::JavaScript, CodeLanguages::TypeScript] {
        let job = job(Some(language), "proj", "/tmp/w");
        assert_eq!(stage_guest(&job), vec![]);
    }
    let undetected = job(None, "proj", "/tmp/w");
    assert_eq!(stage_guest(&undetected), vec![]);
}

#[test]
fn preparation_writes_into_the_input_directory_only() {
    let job = job(Some(CodeLanguages::Python), "proj", "/tmp/w");
    let entries = vec![entry("app.py", true), entry("lib.py", true), entry("pkg", false)];
    for task in prep_app_modules(&job, &entries) {
        let to = target(&task);
        assert!(to == "/tmp/w/component-input" || to.starts_with("/tmp/w/component-input/"));
    }
}

fn target(task: &Task) -> &str {
    match task {
        Task::CreateDirAll { path } => path,
        Task::CopyFile { to, .. } => to,
        Task::WriteResource { to, .. } => to,
        Task::GenerateBindings { output_dir, .. } => output_dir,
        Task::Componentize { output, .. } => output,
    }
}

#[test]
fn plans_of_two_jobs_write_apart() {
    let mut first = job(Some(CodeLanguages::Python), "proj", "");
    first.id = 1;
    first.assign_workspace("/tmp");
    let mut second = job(Some(CodeLanguages::Python), "proj", "");
    second.id = 2;
    second.assign_workspace("/tmp");
    let entries = vec![entry("app.py", true)];
    let mut first_plan = prep_app_modules(&first, &entries);
    first_plan.extend(build_component(&first));
    let mut second_plan = prep_app_modules(&second, &entries);
    second_plan.extend(build_component(&second));
    for task in &first_plan {
        assert!(target(task).starts_with("/tmp/00000000-0000-0000-0000-000000000001"));
        assert!(!target(task).starts_with("/tmp/00000000-0000-0000-0000-000000000002"));
        for other in &second_plan {
            assert_ne!(target(task), target(other));
        }
    }
}

#[test]
fn every_write_follows_the_creation_of_its_directory() {
    let job = job(Some(CodeLanguages::Python), "proj", "/tmp/w");
    let entries = vec![entry("app.py", true)];
    let mut plan = prep_app_modules(&job, &entries);
    plan.extend(build_component(&job));
    let mut created: Vec<String> = vec![];
    for task in &plan {
        if let Task::CreateDirAll { path } = task {
            created.push(path.clone());
            continue;
        }
        let to = target(task);
        let directory = &to[..to.rfind('/').unwrap()];
        assert!(created.iter().any(|c| c == directory || c.starts_with(&format!("{}/", directory))));
    }
}

//! What has to be done on disk and by the compiler, as data: each stage of a
//! job is planned here and carried out elsewhere.

use crate::job::{
    folder_name, lemma_folder_names_plain, lemma_workspaces_apart, subpath, subpath_of,
    workspace_of, Job, Role, COMPONENT_FILE_NAME,
};
use crate::language::CodeLanguages;
use crate::paths::{
    chars_of, directory_of, is_plain_name, join, joined, lemma_directory_of_joined,
    lemma_joined_within, lemma_within_transitive, within,
};
use vstd::prelude::*;

verus! {

/// The file name of the adapter that presents the user's functions to the
/// compiler.
pub const ADAPTER_FILE_NAME: &'static str = "python_module.py";

/// The module that the compiler starts from: the adapter.
pub const ADAPTER_MODULE_NAME: &'static str = "python_module";

/// The file name of the interface definitions.
pub const WORLD_FILE_NAME: &'static str = "world.wit";

/// The world, among the interface definitions, that the guest implements.
pub const WORLD_NAME: &'static str = "promptmodifier";

/// A file that comes with the program.
#[derive(Clone, Copy, Debug, PartialEq, Eq, Structural)]
pub enum Resource {
    /// The adapter module.
    Adapter,
    /// The interface definitions.
    World,
}

/// One thing to do.
#[derive(Debug, PartialEq, Eq)]
pub enum Task {
    /// Create the directory `path` and what is missing above it.
    CreateDirAll { path: String },
    /// Copy the file `from` to `to`.
    CopyFile { from: String, to: String },
    /// Write `resource` to the file `to`.
    WriteResource { resource: Resource, to: String },
    /// Generate the bindings for `world` of the definitions `wit` into
    /// `output_dir`.
    GenerateBindings { wit: String, world: String, output_dir: String },
    /// Compile `module`, found on `python_path`, to a component for `world`
    /// of the definitions `wit`, and write it to `output`.
    Componentize { wit: String, world: String, python_path: String, module: String, output: String },
}

/// A task as plain values.
pub ghost enum TaskView {
    CreateDirAll { path: Seq<char> },
    CopyFile { from: Seq<char>, to: Seq<char> },
    WriteResource { resource: Resource, to: Seq<char> },
    GenerateBindings { wit: Seq<char>, world: Seq<char>, output_dir: Seq<char> },
    Componentize {
        wit: Seq<char>,
        world: Seq<char>,
        python_path: Seq<char>,
        module: Seq<char>,
        output: Seq<char>,
    },
}

impl View for Task {
    type V = TaskView;

    open spec fn view(&self) -> TaskView {
        match self {
            Task::CreateDirAll { path } => TaskView::CreateDirAll { path: path@ },
            Task::CopyFile { from, to } => TaskView::CopyFile { from: from@, to: to@ },
            Task::WriteResource { resource, to } => TaskView::WriteResource {
                resource: *resource,
                to: to@,
            },
            Task::GenerateBindings { wit, world, output_dir } => TaskView::GenerateBindings {
                wit: wit@,
                world: world@,
                output_dir: output_dir@,
            },
            Task::Componentize { wit, world, python_path, module, output } => TaskView::Componentize {
                wit: wit@,
                world: world@,
                python_path: python_path@,
                module: module@,
                output: output@,
            },
        }
    }
}

/// The tasks of a plan as plain values.
pub open spec fn plan_view(plan: Seq<Task>) -> Seq<TaskView> {
    plan.map_values(|task: Task| task@)
}

/// The path that a task creates or writes.
pub open spec fn target(task: TaskView) -> Seq<char> {
    match task {
        TaskView::CreateDirAll { path } => path,
        TaskView::CopyFile { to, .. } => to,
        TaskView::WriteResource { to, .. } => to,
        TaskView::GenerateBindings { output_dir, .. } => output_dir,
        TaskView::Componentize { output, .. } => output,
    }
}

/// Every task of `plan` creates or writes within `root`.
pub open spec fn confined(plan: Seq<TaskView>, root: Seq<char>) -> bool {
    forall|i: int| 0 <= i < plan.len() ==> within(root, #[trigger] target(plan[i]))
}

/// By the time the `i`-th task of `plan` runs, an earlier one has created
/// the directory that holds its target.
pub open spec fn housed(plan: Seq<TaskView>, i: int) -> bool {
    plan[i] is CreateDirAll || exists|j: int|
        0 <= j < i && #[trigger] plan[j] is CreateDirAll && within(
            directory_of(target(plan[i])),
            target(plan[j]),
        )
}

/// No task of `plan` writes where no directory has been made for it.
pub open spec fn orderly(plan: Seq<TaskView>) -> bool {
    forall|i: int| 0 <= i < plan.len() ==> #[trigger] housed(plan, i)
}

/// One entry of a directory listing.
#[derive(Debug)]
pub struct DirEntry {
    file_name: String,
    is_file: bool,
}

impl DirEntry {
    #[verifier::type_invariant]
    spec fn plainly_named(self) -> bool {
        is_plain_name(self.file_name@)
    }

    /// The name of the entry.
    pub closed spec fn name(self) -> Seq<char> {
        self.file_name@
    }

    /// Whether the entry is a regular file.
    pub closed spec fn regular(self) -> bool {
        self.is_file
    }

    /// An entry, if `file_name` is a plain name.
    pub fn new(file_name: String, is_file: bool) -> (entry: Option<DirEntry>)
        ensures
            entry is Some <==> is_plain_name(file_name@),
            entry matches Some(e) ==> e.name() == file_name@ && e.regular() == is_file,
    {
        let chars = chars_of(file_name.as_str());
        let n = chars.len();
        if n == 0 || (n == 1 && chars[0] == '.') || (n == 2 && chars[0] == '.' && chars[1] == '.') {
            return None;
        }
        let mut i: usize = 0;
        while i < chars.len()
            invariant
                i <= chars.len(),
                chars@ == file_name@,
                forall|j: int| 0 <= j < i ==> chars@[j] != '/',
            decreases chars.len() - i,
        {
            if chars[i] == '/' {
                return None;
            }
            i += 1;
        }
        Some(DirEntry { file_name, is_file })
    }

    /// The name of the entry.
    pub fn file_name(&self) -> (name: &str)
        ensures
            name@ == self.name(),
            is_plain_name(name@),
    {
        proof {
            use_type_invariant(self);
        }
        self.file_name.as_str()
    }

    /// Whether the entry is a regular file.
    pub fn is_file(&self) -> (regular: bool)
        ensures
            regular == self.regular(),
    {
        self.is_file
    }
}

/// The copies of the regular files among `entries` from `src` to `dst`, in
/// the order of the listing.
pub open spec fn copies(src: Seq<char>, dst: Seq<char>, entries: Seq<DirEntry>) -> Seq<TaskView>
    decreases entries.len(),
{
    if entries.len() == 0 {
        Seq::empty()
    } else {
        let before = copies(src, dst, entries.drop_last());
        let entry = entries.last();
        if entry.regular() {
            before.push(
                TaskView::CopyFile {
                    from: joined(src, entry.name()),
                    to: joined(dst, entry.name()),
                },
            )
        } else {
            before
        }
    }
}

/// Creating `dst`, then copying into it the regular files that `src` lists.
/// Directories and what they hold are left out.
pub open spec fn copy_plan(src: Seq<char>, dst: Seq<char>, entries: Seq<DirEntry>) -> Seq<TaskView> {
    seq![TaskView::CreateDirAll { path: dst }] + copies(src, dst, entries)
}

/// Copying the sources into the input directory of the workspace `root`,
/// then writing the adapter beside them.
pub open spec fn preparation_plan(source: Seq<char>, root: Seq<char>, entries: Seq<DirEntry>) -> Seq<
    TaskView,
> {
    let input = subpath_of(root, Role::ComponentInput);
    copy_plan(source, input, entries).push(
        TaskView::WriteResource {
            resource: Resource::Adapter,
            to: joined(input, ADAPTER_FILE_NAME@),
        },
    )
}

/// Where the guest component of the workspace `root` lies.
pub open spec fn guest_path_of(root: Seq<char>) -> Seq<char> {
    joined(subpath_of(root, Role::ComponentOutput), COMPONENT_FILE_NAME@)
}

/// Making sure of the workspace `root`, writing the interface definitions
/// into it, generating the bindings, and compiling what the input directory
/// holds to the guest component.
pub open spec fn build_plan(root: Seq<char>) -> Seq<TaskView> {
    let wit = joined(root, WORLD_FILE_NAME@);
    seq![
        TaskView::CreateDirAll { path: root },
        TaskView::WriteResource { resource: Resource::World, to: wit },
        TaskView::GenerateBindings {
            wit: wit,
            world: WORLD_NAME@,
            output_dir: subpath_of(root, Role::Bindings),
        },
        TaskView::CreateDirAll { path: subpath_of(root, Role::ComponentOutput) },
        TaskView::Componentize {
            wit: wit,
            world: WORLD_NAME@,
            python_path: subpath_of(root, Role::ComponentInput),
            module: ADAPTER_MODULE_NAME@,
            output: guest_path_of(root),
        },
    ]
}

/// Bringing a component that was handed in to where a built one would lie,
/// whatever lies there. A job that builds its guest has nothing to bring.
pub open spec fn staging_plan(
    source: Seq<char>,
    root: Seq<char>,
    language: Option<CodeLanguages>,
) -> Seq<TaskView> {
    if language == Some(CodeLanguages::Wasm) {
        seq![
            TaskView::CreateDirAll { path: subpath_of(root, Role::ComponentOutput) },
            TaskView::CopyFile { from: source, to: guest_path_of(root) },
        ]
    } else {
        Seq::empty()
    }
}

/// The fixed file names are plain names.
pub proof fn lemma_file_names_plain()
    ensures
        is_plain_name(ADAPTER_FILE_NAME@),
        is_plain_name(WORLD_FILE_NAME@),
        is_plain_name(COMPONENT_FILE_NAME@),
{
    reveal_strlit("python_module.py");
    reveal_strlit("world.wit");
    reveal_strlit("component.wasm");
}

/// A plan that is confined and orderly stays so with one more task at its
/// end, if that task writes within the same root and into a directory that
/// the task at `maker` creates, or creates a directory itself.
pub proof fn lemma_plan_grows(plan: Seq<TaskView>, task: TaskView, root: Seq<char>, maker: int)
    requires
        confined(plan, root),
        orderly(plan),
        within(root, target(task)),
        task is CreateDirAll || (0 <= maker < plan.len() && plan[maker] is CreateDirAll && within(
            directory_of(target(task)),
            target(plan[maker]),
        )),
    ensures
        confined(plan.push(task), root),
        orderly(plan.push(task)),
{
    let grown = plan.push(task);
    assert forall|k: int| 0 <= k < grown.len() implies #[trigger] housed(grown, k) by {
        if k < plan.len() {
            assert(housed(plan, k));
            assert(grown[k] == plan[k]);
            if !(plan[k] is CreateDirAll) {
                let j = choose|j: int|
                    0 <= j < k && #[trigger] plan[j] is CreateDirAll && within(
                        directory_of(target(plan[k])),
                        target(plan[j]),
                    );
                assert(grown[j] == plan[j]);
            }
        } else if !(task is CreateDirAll) {
            assert(grown[maker] == plan[maker]);
        }
    }
}

/// What is confined to a directory is confined to every directory around
/// it.
pub proof fn lemma_confined_wider(plan: Seq<TaskView>, inner: Seq<char>, outer: Seq<char>)
    requires
        confined(plan, inner),
        within(outer, inner),
    ensures
        confined(plan, outer),
{
    assert forall|i: int| 0 <= i < plan.len() implies within(outer, #[trigger] target(plan[i])) by {
        lemma_within_transitive(outer, inner, target(plan[i]));
    }
}

/// Two jobs with different identifiers, with their workspaces below one
/// directory: no plan that is confined to the workspace of the one creates
/// or writes what a plan confined to the workspace of the other does, nor
/// anything else within that workspace.
pub proof fn lemma_plans_apart(
    base: Seq<char>,
    first: u128,
    second: u128,
    first_plan: Seq<TaskView>,
    second_plan: Seq<TaskView>,
)
    requires
        first != second,
        confined(first_plan, workspace_of(base, first)),
        confined(second_plan, workspace_of(base, second)),
    ensures
        forall|i: int|
            0 <= i < first_plan.len() ==> !within(
                workspace_of(base, second),
                #[trigger] target(first_plan[i]),
            ),
        forall|i: int, j: int|
            0 <= i < first_plan.len() && 0 <= j < second_plan.len() ==> #[trigger] target(
                first_plan[i],
            ) != #[trigger] target(second_plan[j]),
{
    assert forall|i: int| 0 <= i < first_plan.len() implies !within(
        workspace_of(base, second),
        #[trigger] target(first_plan[i]),
    ) by {
        lemma_workspaces_apart(base, first, second, target(first_plan[i]));
    }
}

/// Plans the copy of the files that the directory `src` lists as `entries`
/// into the directory `dst`.
pub fn copy_dir_contents(src: &str, dst: &str, entries: &Vec<DirEntry>) -> (plan: Vec<Task>)
    ensures
        plan_view(plan@) == copy_plan(src@, dst@, entries@),
        confined(plan_view(plan@), dst@),
        orderly(plan_view(plan@)),
{
    let mut plan: Vec<Task> = Vec::new();
    plan.push(Task::CreateDirAll { path: dst.to_owned() });
    let mut i: usize = 0;
    proof {
        assert(entries@.take(0) == Seq::<DirEntry>::empty());
        assert(plan_view(plan@) == copy_plan(src@, dst@, entries@.take(0)));
        assert(housed(plan_view(plan@), 0));
    }
    while i < entries.len()
        invariant
            i <= entries.len(),
            plan_view(plan@) == copy_plan(src@, dst@, entries@.take(i as int)),
            confined(plan_view(plan@), dst@),
            orderly(plan_view(plan@)),
        decreases entries.len() - i,
    {
        let entry = &entries[i];
        let ghost before = plan_view(plan@);
        proof {
            assert(entries@.take(i + 1).drop_last() == entries@.take(i as int));
            assert(entries@.take(i + 1).last() == entries@[i as int]);
        }
        if entry.is_file() {
            let name = entry.file_name();
            let from = join(src, name);
            let to = join(dst, name);
            plan.push(Task::CopyFile { from, to });
            proof {
                lemma_directory_of_joined(dst@, name@);
                lemma_joined_within(dst@, name@);
                assert(plan_view(plan@) == before.push(plan@.last()@));
                lemma_plan_grows(before, plan@.last()@, dst@, 0);
            }
        }
        i += 1;
    }
    assert(entries@.take(i as int) == entries@);
    plan
}

/// Plans the preparation of a Python project: what `entries` lists of the
/// source directory goes to the input directory of the job's workspace, and
/// the adapter with it. Nothing is written outside the input directory.
pub fn prep_app_modules(job: &Job, entries: &Vec<DirEntry>) -> (plan: Vec<Task>)
    requires
        job.language == Some(CodeLanguages::Python),
    ensures
        plan_view(plan@) == preparation_plan(job.source_path@, job.temp_dir@, entries@),
        confined(plan_view(plan@), subpath_of(job.temp_dir@, Role::ComponentInput)),
        confined(plan_view(plan@), job.temp_dir@),
        orderly(plan_view(plan@)),
{
    let input = subpath(job.temp_dir.as_str(), Role::ComponentInput);
    let mut plan = copy_dir_contents(job.source_path.as_str(), input.as_str(), entries);
    let ghost before = plan_view(plan@);
    let to = join(input.as_str(), ADAPTER_FILE_NAME);
    plan.push(Task::WriteResource { resource: Resource::Adapter, to });
    proof {
        lemma_file_names_plain();
        lemma_directory_of_joined(input@, ADAPTER_FILE_NAME@);
        lemma_joined_within(input@, ADAPTER_FILE_NAME@);
        assert(plan_view(plan@) == before.push(plan@.last()@));
        lemma_plan_grows(before, plan@.last()@, input@, 0);
        lemma_confined_wider(plan_view(plan@), input@, job.temp_dir@);
    }
    plan
}

/// Where the guest component of `job` lies, built or brought.
pub fn guest_module_path(job: &Job) -> (path: String)
    ensures
        path@ == guest_path_of(job.temp_dir@),
        within(job.temp_dir@, path@),
{
    let output = subpath(job.temp_dir.as_str(), Role::ComponentOutput);
    let path = join(output.as_str(), COMPONENT_FILE_NAME);
    proof {
        lemma_file_names_plain();
        lemma_directory_of_joined(output@, COMPONENT_FILE_NAME@);
        lemma_joined_within(output@, COMPONENT_FILE_NAME@);
        lemma_within_transitive(job.temp_dir@, output@, path@);
    }
    path
}

/// Plans the build of the guest component from a prepared Python project.
pub fn build_python_component(job: &Job) -> (plan: Vec<Task>)
    ensures
        plan_view(plan@) == build_plan(job.temp_dir@),
        confined(plan_view(plan@), job.temp_dir@),
        orderly(plan_view(plan@)),
{
    let root = job.temp_dir.as_str();
    let wit = join(root, WORLD_FILE_NAME);
    let bindings = subpath(root, Role::Bindings);
    let input = subpath(root, Role::ComponentInput);
    let output = subpath(root, Role::ComponentOutput);
    let guest = guest_module_path(job);
    proof {
        lemma_file_names_plain();
        lemma_folder_names_plain(Role::Bindings);
        lemma_directory_of_joined(root@, WORLD_FILE_NAME@);
        lemma_joined_within(root@, WORLD_FILE_NAME@);
        lemma_directory_of_joined(root@, folder_name(Role::Bindings));
        lemma_directory_of_joined(output@, COMPONENT_FILE_NAME@);
    }
    let mut plan: Vec<Task> = Vec::new();
    plan.push(Task::CreateDirAll { path: root.to_owned() });
    plan.push(Task::WriteResource { resource: Resource::World, to: wit.clone() });
    plan.push(
        Task::GenerateBindings {
            wit: wit.clone(),
            world: WORLD_NAME.to_owned(),
            output_dir: bindings,
        },
    );
    plan.push(Task::CreateDirAll { path: output });
    plan.push(
        Task::Componentize {
            wit,
            world: WORLD_NAME.to_owned(),
            python_path: input,
            module: ADAPTER_MODULE_NAME.to_owned(),
            output: guest,
        },
    );
    proof {
        let tasks = plan_view(plan@);
        assert(tasks =~= build_plan(job.temp_dir@));
        assert(tasks[0] is CreateDirAll && tasks[3] is CreateDirAll);
        assert(housed(tasks, 0) && housed(tasks, 1) && housed(tasks, 2) && housed(tasks, 3)
            && housed(tasks, 4));
    }
    plan
}

/// Plans the build of the guest component of `job`. Python is the one
/// language that can be built.
pub fn build_component(job: &Job) -> (plan: Vec<Task>)
    requires
        job.language == Some(CodeLanguages::Python),
    ensures
        plan_view(plan@) == build_plan(job.temp_dir@),
        confined(plan_view(plan@), job.temp_dir@),
        orderly(plan_view(plan@)),
{
    build_python_component(job)
}

/// Plans what has to happen before `job`'s guest can be read: a component
/// that was handed in is copied to the output directory first, so that
/// what is composed is the input and nothing that lay there before.
pub fn stage_guest(job: &Job) -> (plan: Vec<Task>)
    ensures
        plan_view(plan@) == staging_plan(job.source_path@, job.temp_dir@, job.language),
        confined(plan_view(plan@), job.temp_dir@),
        orderly(plan_view(plan@)),
{
    let mut plan: Vec<Task> = Vec::new();
    let brought = match job.language {
        Some(CodeLanguages::Wasm) => true,
        _ => false,
    };
    if brought {
        let output = subpath(job.temp_dir.as_str(), Role::ComponentOutput);
        let guest = guest_module_path(job);
        proof {
            lemma_file_names_plain();
            lemma_directory_of_joined(output@, COMPONENT_FILE_NAME@);
        }
        plan.push(Task::CreateDirAll { path: output });
        plan.push(Task::CopyFile { from: job.source_path.clone(), to: guest });
        proof {
            let tasks = plan_view(plan@);
            assert(tasks =~= staging_plan(job.source_path@, job.temp_dir@, job.language));
            assert(tasks[0] is CreateDirAll);
            assert(housed(tasks, 0) && housed(tasks, 1));
        }
    } else {
        assert(plan_view(plan@) =~= Seq::<TaskView>::empty());
    }
    plan
}

} // verus!

//! A job: one source path on its way to a composed component, and the
//! directory tree that belongs to it alone.

use crate::ident::{
    hyphenated, id_text, is_version_four, lemma_id_text_injective, lemma_id_text_plain, random_id,
};
use crate::language::CodeLanguages;
use crate::paths::{
    is_plain_name, is_relative, join, joined, lemma_joined_within, lemma_within_apart, within,
};
use vstd::prelude::*;

verus! {

/// The directory, below the workspace, that the compiler reads.
pub const COMPONENT_INPUT_FOLDER_NAME: &'static str = "component-input";

/// The directory, below the workspace, that the compiler writes to.
pub const COMPONENT_OUTPUT_FOLDER_NAME: &'static str = "component-output";

/// The directory, below the workspace, that the generated bindings go to.
pub const BINDINGS_FOLDER_NAME: &'static str = "bindings";

/// The file name of the guest component in the output directory.
pub const COMPONENT_FILE_NAME: &'static str = "component.wasm";

/// Where the composed component is written.
pub const COMPOSED_FILE_PATH: &'static str = "./composed.wasm";

/// What a directory of the workspace is for.
#[derive(Clone, Copy, Debug, PartialEq, Eq, Structural)]
pub enum Role {
    ComponentInput,
    ComponentOutput,
    Bindings,
}

/// One request to build and compose.
#[derive(Debug)]
pub struct Job {
    /// Names the job and its workspace; drawn at random.
    pub id: u128,
    /// The file or directory that was handed in.
    pub source_path: String,
    /// What the source path holds, once detected.
    pub language: Option<CodeLanguages>,
    /// The root of the workspace; empty until one is assigned.
    pub temp_dir: String,
}

/// A job as plain values.
pub ghost struct JobView {
    pub id: u128,
    pub source_path: Seq<char>,
    pub language: Option<CodeLanguages>,
    pub temp_dir: Seq<char>,
}

impl View for Job {
    type V = JobView;

    open spec fn view(&self) -> JobView {
        JobView {
            id: self.id,
            source_path: self.source_path@,
            language: self.language,
            temp_dir: self.temp_dir@,
        }
    }
}

/// The name of the directory for `role`.
pub open spec fn folder_name(role: Role) -> Seq<char> {
    match role {
        Role::ComponentInput => COMPONENT_INPUT_FOLDER_NAME@,
        Role::ComponentOutput => COMPONENT_OUTPUT_FOLDER_NAME@,
        Role::Bindings => BINDINGS_FOLDER_NAME@,
    }
}

/// The workspace of the job `id` below the directory `base`.
pub open spec fn workspace_of(base: Seq<char>, id: u128) -> Seq<char> {
    joined(base, id_text(id))
}

/// The directory for `role` in the workspace `root`.
pub open spec fn subpath_of(root: Seq<char>, role: Role) -> Seq<char> {
    joined(root, folder_name(role))
}

/// The names of the workspace directories are plain names.
pub proof fn lemma_folder_names_plain(role: Role)
    ensures
        is_plain_name(folder_name(role)),
        is_relative(folder_name(role)),
{
    reveal_strlit("component-input");
    reveal_strlit("component-output");
    reveal_strlit("bindings");
}

/// The workspace of a job, below `base`.
pub fn workspace_root(base: &str, id: u128) -> (root: String)
    ensures
        root@ == workspace_of(base@, id),
        within(base@, root@),
{
    let text = hyphenated(id);
    proof {
        lemma_id_text_plain(id);
        lemma_joined_within(base@, id_text(id));
    }
    join(base, text.as_str())
}

/// The directory for `role` in the workspace `root`.
pub fn subpath(root: &str, role: Role) -> (path: String)
    ensures
        path@ == subpath_of(root@, role),
        within(root@, path@),
{
    proof {
        lemma_folder_names_plain(role);
        lemma_joined_within(root@, folder_name(role));
    }
    match role {
        Role::ComponentInput => join(root, COMPONENT_INPUT_FOLDER_NAME),
        Role::ComponentOutput => join(root, COMPONENT_OUTPUT_FOLDER_NAME),
        Role::Bindings => join(root, BINDINGS_FOLDER_NAME),
    }
}

impl Job {
    /// A job with a fresh identifier and nothing else: no source path, no
    /// language, no workspace. The identifier is drawn at random, in the
    /// form of a random identifier.
    pub fn new() -> (job: Job)
        ensures
            is_version_four(job.id),
            job.source_path@.len() == 0,
            job.language is None,
            job.temp_dir@.len() == 0,
    {
        Job {
            id: random_id(),
            source_path: String::new(),
            language: None,
            temp_dir: String::new(),
        }
    }

    /// Gives the job its workspace below `base`. Only the root changes.
    pub fn assign_workspace(&mut self, base: &str)
        ensures
            final(self).temp_dir@ == workspace_of(base@, old(self).id),
            final(self).id == old(self).id,
            final(self).source_path == old(self).source_path,
            final(self).language == old(self).language,
    {
        self.temp_dir = workspace_root(base, self.id);
    }
}

/// Jobs with different identifiers have different workspaces below one
/// directory, and no path lies within both.
pub proof fn lemma_workspaces_apart(base: Seq<char>, first: u128, second: u128, path: Seq<char>)
    requires
        first != second,
    ensures
        workspace_of(base, first) != workspace_of(base, second),
        !(within(workspace_of(base, first), path) && within(workspace_of(base, second), path)),
{
    let a = id_text(first);
    let b = id_text(second);
    lemma_id_text_plain(first);
    lemma_id_text_plain(second);
    let ra = workspace_of(base, first);
    let rb = workspace_of(base, second);
    assert(ra.len() == rb.len());
    if ra == rb {
        let skip = ra.len() - 36;
        assert(a =~= ra.skip(skip));
        assert(b =~= rb.skip(skip));
        lemma_id_text_injective(first, second);
    }
    lemma_within_apart(ra, rb, path);
}

} // verus!

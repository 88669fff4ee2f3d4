//! The course of a job: detection, then preparation and build for a source
//! project, then composition. The pipeline decides what comes next; what it
//! orders is carried out elsewhere and reported back.

use crate::job::{workspace_of, Job, JobView};
use crate::language::{CodeLanguages, Rejection};
use vstd::prelude::*;

verus! {

/// Why a job failed.
#[derive(Clone, Copy, Debug, PartialEq, Eq, Structural)]
pub enum Failure {
    UnsupportedLanguage,
    Preparation,
    Compilation,
    Composition,
}

/// Where a job stands.
#[derive(Clone, Copy, Debug, PartialEq, Eq, Structural)]
pub enum State {
    Created,
    LanguageDetected,
    SkipPrepare,
    Prepared,
    SkipBuild,
    Built,
    Composed,
    Done,
    Failed(Failure),
}

/// What the pipeline asks for next.
#[derive(Clone, Copy, Debug, PartialEq, Eq, Structural)]
pub enum Order {
    /// Find out what the source path holds.
    Detect,
    /// Carry out the plan of preparation.
    Prepare,
    /// Carry out the plan of the build.
    Build,
    /// Stage the guest, compose it with the host and write the result.
    Compose,
    /// Say where the composed component lies: the job is done.
    Finish,
    /// Say why the job failed: nothing more will be ordered.
    GiveUp(Failure),
}

/// What came of the last order.
#[derive(Debug)]
pub enum Report {
    /// Detection ended, with a language or without.
    Detected(Result<CodeLanguages, Rejection>),
    /// The stage that was ordered is complete.
    Succeeded,
    /// The stage that was ordered failed, with this to say about it.
    Failed(String),
}

/// A report as plain values.
pub ghost enum ReportView {
    Detected(Result<CodeLanguages, Rejection>),
    Succeeded,
    Failed(Seq<char>),
}

impl View for Report {
    type V = ReportView;

    open spec fn view(&self) -> ReportView {
        match self {
            Report::Detected(found) => ReportView::Detected(*found),
            Report::Succeeded => ReportView::Succeeded,
            Report::Failed(detail) => ReportView::Failed(detail@),
        }
    }
}

/// The pipeline of one job.
#[derive(Debug)]
pub struct Pipeline {
    state: State,
    job: Job,
    base: String,
    current_stage: u8,
    total_stages: u8,
    detail: String,
}

/// A pipeline as plain values.
pub ghost struct PipelineView {
    pub state: State,
    pub job: JobView,
    /// The directory below which the workspace goes.
    pub base: Seq<char>,
    /// The number of the stage that was ordered last; 0 before the first.
    pub current_stage: nat,
    /// The number of stages of the job; 0 until the language is known.
    pub total_stages: nat,
    /// What the failed stage had to say; empty where none failed.
    pub detail: Seq<char>,
}

/// The number of stages for a source path that holds `language`: a
/// component is only composed, a project is prepared and built before.
pub open spec fn stages_for(language: CodeLanguages) -> nat {
    if language == CodeLanguages::Wasm {
        1
    } else {
        3
    }
}

/// The transition that `report` causes, if it answers what the state waits
/// for. Any other report changes nothing.
pub open spec fn reported(v: PipelineView, report: ReportView) -> PipelineView {
    match (v.state, report) {
        (State::Created, ReportView::Detected(Ok(language))) => PipelineView {
            state: State::LanguageDetected,
            job: JobView {
                language: Some(language),
                temp_dir: workspace_of(v.base, v.job.id),
                ..v.job
            },
            total_stages: stages_for(language),
            current_stage: if language == CodeLanguages::Wasm {
                0
            } else {
                1
            },
            ..v
        },
        (State::Created, ReportView::Detected(Err(_))) => PipelineView {
            state: State::Failed(Failure::UnsupportedLanguage),
            ..v
        },
        (State::LanguageDetected, ReportView::Succeeded) => PipelineView {
            state: State::Prepared,
            current_stage: 2,
            ..v
        },
        (State::LanguageDetected, ReportView::Failed(detail)) => PipelineView {
            state: State::Failed(Failure::Preparation),
            detail,
            ..v
        },
        (State::Prepared, ReportView::Succeeded) => PipelineView {
            state: State::Built,
            current_stage: 3,
            ..v
        },
        (State::Prepared, ReportView::Failed(detail)) => PipelineView {
            state: State::Failed(Failure::Compilation),
            detail,
            ..v
        },
        (State::SkipBuild, ReportView::Succeeded) | (State::Built, ReportView::Succeeded) => PipelineView {
            state: State::Composed,
            ..v
        },
        (State::SkipBuild, ReportView::Failed(detail)) | (
            State::Built,
            ReportView::Failed(detail),
        ) => PipelineView { state: State::Failed(Failure::Composition), detail, ..v },
        _ => v,
    }
}

/// The pipeline passes through this state without an order: a component
/// needs no preparation and no build, and a composed job is done.
pub open spec fn is_passing(v: PipelineView) -> bool {
    match v.state {
        State::LanguageDetected => v.job.language == Some(CodeLanguages::Wasm),
        State::SkipPrepare | State::Composed => true,
        _ => false,
    }
}

/// The transition out of a state that is passed through.
pub open spec fn passed(v: PipelineView) -> PipelineView {
    match v.state {
        State::LanguageDetected => PipelineView { state: State::SkipPrepare, ..v },
        State::SkipPrepare => PipelineView { state: State::SkipBuild, current_stage: 1, ..v },
        State::Composed => PipelineView { state: State::Done, ..v },
        _ => v,
    }
}

/// Follows the transitions that need no order, as far as they go.
pub open spec fn settled(v: PipelineView) -> PipelineView {
    if !is_passing(v) {
        v
    } else if !is_passing(passed(v)) {
        passed(v)
    } else {
        passed(passed(v))
    }
}

/// The pipeline after `report`: the transition it causes, and those that
/// follow without an order.
pub open spec fn after(v: PipelineView, report: ReportView) -> PipelineView {
    settled(reported(v, report))
}

/// What a pipeline at rest waits for.
pub open spec fn order_in(v: PipelineView) -> Order {
    match v.state {
        State::Created => Order::Detect,
        State::LanguageDetected => Order::Prepare,
        State::Prepared => Order::Build,
        State::SkipBuild | State::Built => Order::Compose,
        State::Failed(failure) => Order::GiveUp(failure),
        _ => Order::Finish,
    }
}

/// The counters and the job's fields agree with the state.
pub open spec fn well_formed(v: PipelineView) -> bool {
    let language = v.job.language;
    let source = language is Some && language != Some(CodeLanguages::Wasm);
    let component = language == Some(CodeLanguages::Wasm);
    &&& v.current_stage <= v.total_stages
    &&& match language {
        Some(l) => v.total_stages == stages_for(l) && v.job.temp_dir == workspace_of(
            v.base,
            v.job.id,
        ),
        None => v.total_stages == 0 && v.job.temp_dir.len() == 0,
    }
    &&& match v.state {
        State::Created => language is None,
        State::LanguageDetected => if component {
            v.current_stage == 0
        } else {
            source && v.current_stage == 1
        },
        State::SkipPrepare => component && v.current_stage == 0,
        State::Prepared => source && v.current_stage == 2,
        State::SkipBuild => component && v.current_stage == 1,
        State::Built => source && v.current_stage == 3,
        State::Composed | State::Done => language is Some && v.current_stage == v.total_stages,
        State::Failed(Failure::UnsupportedLanguage) => language is None,
        State::Failed(Failure::Preparation) => source && v.current_stage == 1,
        State::Failed(Failure::Compilation) => source && v.current_stage == 2,
        State::Failed(Failure::Composition) => language is Some && v.current_stage
            == v.total_stages,
    }
    &&& (v.state is Failed || v.detail.len() == 0)
}

/// The text for a failure.
pub open spec fn reason_of(failure: Failure) -> Seq<char> {
    match failure {
        Failure::UnsupportedLanguage => "unsupported language"@,
        Failure::Preparation => "preparation error"@,
        Failure::Compilation => "compilation error"@,
        Failure::Composition => "composition error"@,
    }
}

/// The one line that tells of a failure.
pub open spec fn message_of(failure: Failure, detail: Seq<char>) -> Seq<char> {
    if detail.len() == 0 {
        reason_of(failure)
    } else {
        reason_of(failure) + ": "@ + detail
    }
}

/// The pipeline after a sequence of reports, taken one after the other.
pub open spec fn after_all(v: PipelineView, reports: Seq<ReportView>) -> PipelineView
    decreases reports.len(),
{
    if reports.len() == 0 {
        v
    } else {
        after(after_all(v, reports.drop_last()), reports.last())
    }
}

/// The job is over: done or failed.
pub open spec fn is_over(v: PipelineView) -> bool {
    v.state is Done || v.state is Failed
}

/// A report takes a consistent pipeline at rest to a consistent pipeline at
/// rest. In particular the stage that was ordered last never has a number
/// above the number of stages.
pub proof fn lemma_after_well_formed(v: PipelineView, report: ReportView)
    requires
        well_formed(v),
        !is_passing(v),
    ensures
        well_formed(after(v, report)),
        !is_passing(after(v, report)),
        after(v, report).current_stage <= after(v, report).total_stages,
{
}

/// The stage numbers only grow, by one stage at a time, and the number of
/// stages is fixed once it is known.
pub proof fn lemma_stages_only_grow(v: PipelineView, report: ReportView)
    requires
        well_formed(v),
        !is_passing(v),
    ensures
        v.current_stage <= after(v, report).current_stage <= v.current_stage + 1,
        v.total_stages > 0 ==> after(v, report).total_stages == v.total_stages,
{
}

/// Once the job is over, no report changes anything: a failure is final,
/// and no stage is tried again.
pub proof fn lemma_over_is_final(v: PipelineView, reports: Seq<ReportView>)
    requires
        is_over(v),
    ensures
        after_all(v, reports) == v,
    decreases reports.len(),
{
    if reports.len() > 0 {
        lemma_over_is_final(v, reports.drop_last());
    }
}

/// The job keeps its identifier and its source path, and once the language
/// is known it keeps the language and the workspace as well.
pub proof fn lemma_job_is_kept(v: PipelineView, report: ReportView)
    ensures
        after(v, report).job.id == v.job.id,
        after(v, report).job.source_path == v.job.source_path,
        after(v, report).base == v.base,
        v.state != State::Created ==> after(v, report).job == v.job,
{
}

/// Whatever is ordered to be written is ordered for a job whose language is
/// known and whose workspace is the one that belongs to its identifier.
pub proof fn lemma_work_has_workspace(v: PipelineView)
    requires
        well_formed(v),
        !is_passing(v),
        order_in(v) == Order::Prepare || order_in(v) == Order::Build || order_in(v)
            == Order::Compose,
    ensures
        v.job.language is Some,
        v.job.temp_dir == workspace_of(v.base, v.job.id),
        1 <= v.current_stage <= v.total_stages,
{
}

/// A component is composed and nothing else: one stage, no preparation and
/// no build.
pub proof fn lemma_component_is_only_composed(v: PipelineView)
    requires
        well_formed(v),
        !is_passing(v),
        v.job.language == Some(CodeLanguages::Wasm),
    ensures
        v.total_stages == 1,
        order_in(v) != Order::Prepare,
        order_in(v) != Order::Build,
{
}

/// A job comes to be done in one way only: by a report that its composition
/// succeeded.
pub proof fn lemma_done_by_composition(v: PipelineView, report: ReportView)
    requires
        well_formed(v),
        !is_passing(v),
        v.state != State::Done,
        after(v, report).state == State::Done,
    ensures
        order_in(v) == Order::Compose,
        report == ReportView::Succeeded,
{
}

/// A new job for a project is done after four reports: the language, and
/// the success of preparation, build and composition, in three stages.
pub proof fn lemma_project_reaches_done(v: PipelineView, language: CodeLanguages)
    requires
        well_formed(v),
        v.state == State::Created,
        language != CodeLanguages::Wasm,
    ensures
        after_all(
            v,
            seq![
                ReportView::Detected(Ok(language)),
                ReportView::Succeeded,
                ReportView::Succeeded,
                ReportView::Succeeded,
            ],
        ).state == State::Done,
        after_all(
            v,
            seq![
                ReportView::Detected(Ok(language)),
                ReportView::Succeeded,
                ReportView::Succeeded,
                ReportView::Succeeded,
            ],
        ).total_stages == 3,
{
    let reports = seq![
        ReportView::Detected(Ok(language)),
        ReportView::Succeeded,
        ReportView::Succeeded,
        ReportView::Succeeded,
    ];
    let first = seq![ReportView::Detected(Ok::<CodeLanguages, Rejection>(language))];
    assert(reports.drop_last().drop_last().drop_last() == first);
    assert(first.drop_last().len() == 0);
    reveal_with_fuel(after_all, 5);
}

/// A new job for a component is done after two reports: the language, and
/// the success of composition, its one stage.
pub proof fn lemma_component_reaches_done(v: PipelineView)
    requires
        well_formed(v),
        v.state == State::Created,
    ensures
        after_all(
            v,
            seq![ReportView::Detected(Ok(CodeLanguages::Wasm)), ReportView::Succeeded],
        ).state == State::Done,
        after_all(
            v,
            seq![ReportView::Detected(Ok(CodeLanguages::Wasm)), ReportView::Succeeded],
        ).total_stages == 1,
        order_in(after(v, ReportView::Detected(Ok(CodeLanguages::Wasm)))) == Order::Compose,
{
    let reports = seq![ReportView::Detected(Ok(CodeLanguages::Wasm)), ReportView::Succeeded];
    let first = seq![ReportView::Detected(Ok::<CodeLanguages, Rejection>(CodeLanguages::Wasm))];
    assert(reports.drop_last() == first);
    assert(first.drop_last().len() == 0);
    reveal_with_fuel(after_all, 3);
}

/// A source path that holds nothing known fails the job at once: whatever
/// is reported afterwards, nothing is ordered but to give up, and the job
/// never gets a workspace.
pub proof fn lemma_unsupported_fails_without_work(
    v: PipelineView,
    why: Rejection,
    later: Seq<ReportView>,
)
    requires
        well_formed(v),
        v.state == State::Created,
    ensures
        order_in(after_all(after(v, ReportView::Detected(Err(why))), later)) == Order::GiveUp(
            Failure::UnsupportedLanguage,
        ),
        after_all(after(v, ReportView::Detected(Err(why))), later).job.temp_dir.len() == 0,
{
    lemma_over_is_final(after(v, ReportView::Detected(Err(why))), later);
}

/// A build that fails ends the job: whatever is reported afterwards,
/// composition is never ordered.
pub proof fn lemma_failed_build_never_composes(
    v: PipelineView,
    said: Seq<char>,
    later: Seq<ReportView>,
)
    requires
        well_formed(v),
        v.state == State::Prepared,
    ensures
        order_in(after_all(after(v, ReportView::Failed(said)), later)) == Order::GiveUp(
            Failure::Compilation,
        ),
{
    lemma_over_is_final(after(v, ReportView::Failed(said)), later);
}

impl View for Pipeline {
    type V = PipelineView;

    closed spec fn view(&self) -> PipelineView {
        PipelineView {
            state: self.state,
            job: self.job@,
            base: self.base@,
            current_stage: self.current_stage as nat,
            total_stages: self.total_stages as nat,
            detail: self.detail@,
        }
    }
}

impl Pipeline {
    #[verifier::type_invariant]
    spec fn consistent_at_rest(self) -> bool {
        well_formed(self@) && !is_passing(self@)
    }

    /// The pipeline of a new job for `source_path`, whose workspace will lie
    /// below `base`.
    pub fn new(source_path: String, base: String) -> (pipeline: Pipeline)
        ensures
            pipeline@.state == State::Created,
            pipeline@.job.source_path == source_path@,
            pipeline@.job.language is None,
            pipeline@.job.temp_dir.len() == 0,
            pipeline@.base == base@,
            pipeline@.current_stage == 0,
            pipeline@.total_stages == 0,
            pipeline@.detail.len() == 0,
            well_formed(pipeline@),
    {
        let mut job = Job::new();
        job.source_path = source_path;
        Pipeline {
            state: State::Created,
            job,
            base,
            current_stage: 0,
            total_stages: 0,
            detail: String::new(),
        }
    }

    /// Where the job stands. A pipeline is always at rest.
    pub fn state(&self) -> (state: State)
        ensures
            state == self@.state,
            well_formed(self@),
            !is_passing(self@),
    {
        proof {
            use_type_invariant(self);
        }
        self.state
    }

    /// The job.
    pub fn job(&self) -> (job: &Job)
        ensures
            job@ == self@.job,
    {
        &self.job
    }

    /// The number of the stage that was ordered last.
    pub fn current_stage(&self) -> (n: u8)
        ensures
            n == self@.current_stage,
            n <= self@.total_stages,
    {
        proof {
            use_type_invariant(self);
        }
        self.current_stage
    }

    /// The number of stages of the job.
    pub fn total_stages(&self) -> (n: u8)
        ensures
            n == self@.total_stages,
    {
        self.total_stages
    }

    /// What the failed stage had to say.
    pub fn detail(&self) -> (detail: &str)
        ensures
            detail@ == self@.detail,
    {
        self.detail.as_str()
    }

    /// Why the job failed, as text; `None` where it has not failed.
    pub fn failure_reason(&self) -> (reason: Option<String>)
        ensures
            match reason {
                Some(text) => self@.state is Failed && text@ == reason_of(self@.state->Failed_0),
                None => !(self@.state is Failed),
            },
    {
        match self.state {
            State::Failed(Failure::UnsupportedLanguage) => Some("unsupported language".to_owned()),
            State::Failed(Failure::Preparation) => Some("preparation error".to_owned()),
            State::Failed(Failure::Compilation) => Some("compilation error".to_owned()),
            State::Failed(Failure::Composition) => Some("composition error".to_owned()),
            _ => None,
        }
    }

    /// Why the job failed, in one line: the reason, and after it what the
    /// failed stage had to say, if it said anything.
    pub fn failure_message(&self) -> (message: Option<String>)
        ensures
            match message {
                Some(text) => self@.state is Failed && text@ == message_of(
                    self@.state->Failed_0,
                    self@.detail,
                ),
                None => !(self@.state is Failed),
            },
    {
        match self.failure_reason() {
            Some(reason) => if self.detail.as_str().unicode_len() == 0 {
                Some(reason)
            } else {
                Some(reason.concat(": ").concat(self.detail.as_str()))
            },
            None => None,
        }
    }

    /// What the pipeline waits for.
    pub fn order(&self) -> (order: Order)
        ensures
            order == order_in(self@),
    {
        match self.state {
            State::Created => Order::Detect,
            State::LanguageDetected => Order::Prepare,
            State::Prepared => Order::Build,
            State::SkipBuild | State::Built => Order::Compose,
            State::Failed(failure) => Order::GiveUp(failure),
            _ => Order::Finish,
        }
    }

    /// Takes the report on the last order: the pipeline after it, and what
    /// to do next.
    pub fn advance(self, report: Report) -> (next: (Pipeline, Order))
        ensures
            next.0@ == after(self@, report@),
            next.1 == order_in(next.0@),
            well_formed(next.0@),
            !is_passing(next.0@),
    {
        proof {
            use_type_invariant(&self);
        }
        let Pipeline { state, job, base, current_stage, total_stages, detail } = self;
        let next = match (state, report) {
            (State::Created, Report::Detected(Ok(language))) => {
                let mut job = job;
                job.language = Some(language);
                job.assign_workspace(base.as_str());
                match language {
                    CodeLanguages::Wasm => Pipeline {
                        state: State::SkipBuild,
                        job,
                        base,
                        current_stage: 1,
                        total_stages: 1,
                        detail,
                    },
                    _ => Pipeline {
                        state: State::LanguageDetected,
                        job,
                        base,
                        current_stage: 1,
                        total_stages: 3,
                        detail,
                    },
                }
            },
            (State::Created, Report::Detected(Err(_))) => Pipeline {
                state: State::Failed(Failure::UnsupportedLanguage),
                job,
                base,
                current_stage,
                total_stages,
                detail,
            },
            (State::LanguageDetected, Report::Succeeded) => Pipeline {
                state: State::Prepared,
                job,
                base,
                current_stage: 2,
                total_stages,
                detail,
            },
            (State::LanguageDetected, Report::Failed(said)) => Pipeline {
                state: State::Failed(Failure::Preparation),
                job,
                base,
                current_stage,
                total_stages,
                detail: said,
            },
            (State::Prepared, Report::Succeeded) => Pipeline {
                state: State::Built,
                job,
                base,
                current_stage: 3,
                total_stages,
                detail,
            },
            (State::Prepared, Report::Failed(said)) => Pipeline {
                state: State::Failed(Failure::Compilation),
                job,
                base,
                current_stage,
                total_stages,
                detail: said,
            },
            (State::SkipBuild, Report::Succeeded) | (State::Built, Report::Succeeded) => Pipeline {
                state: State::Done,
                job,
                base,
                current_stage,
                total_stages,
                detail,
            },
            (State::SkipBuild, Report::Failed(said)) | (State::Built, Report::Failed(said)) => {
                Pipeline {
                    state: State::Failed(Failure::Composition),
                    job,
                    base,
                    current_stage,
                    total_stages,
                    detail: said,
                }
            },
            (state, _) => Pipeline { state, job, base, current_stage, total_stages, detail },
        };
        let order = next.order();
        (next, order)
    }
}

} // verus!

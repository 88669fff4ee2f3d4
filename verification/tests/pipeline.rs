use processor::language::{CodeLanguages, Rejection};
use processor::pipeline::{Failure, Order, Pipeline, Report, State};

fn start(source: &str) -> Pipeline {
    Pipeline::new(source.to_string(), "/tmp".to_string())
}

fn run(source: &str, reports: Vec<Report>) -> (Pipeline, Vec<Order>) {
    let mut pipeline = start(source);
    let mut orders = vec![pipeline.order()];
    for report in reports {
        let (next, order) = pipeline.advance(report);
        assert_eq!(order, next.order());
        assert!(next.current_stage() <= next.total_stages());
        pipeline = next;
        orders.push(order);
    }
    (pipeline, orders)
}

fn detected(language: CodeLanguages) -> Report {
    Report::Detected(Ok(language))
}

fn failed(detail: &str) -> Report {
    Report::Failed(detail.to_string())
}

#[test]
fn a_new_pipeline_waits_for_detection() {
    let p = start("proj");
    assert_eq!(p.state(), State::Created);
    assert_eq!(p.order(), Order::Detect);
    assert_eq!(p.current_stage(), 0);
    assert_eq!(p.total_stages(), 0);
    assert_eq!(p.job().source_path, "proj");
    assert_eq!(p.job().language, None);
    assert_eq!(p.job().temp_dir, "");
    assert_eq!(p.failure_reason(), None);
    assert_eq!(p.detail(), "");
}

#[test]
fn scenario_source_project_reaches_done() {
    let (p, order) = start("proj").advance(detected(CodeLanguages::Python));
    assert_eq!(order, Order::Prepare);
    assert_eq!(p.state(), State::LanguageDetected);
    assert_eq!((p.current_stage(), p.total_stages()), (1, 3));
    assert_eq!(p.job().language, Some(CodeLanguages::Python));
    assert!(p.job().temp_dir.starts_with("/tmp/"));
    assert_eq!(p.job().temp_dir.len(), "/tmp/".len() + 36);
    let (p, order) = p.advance(Report::Succeeded);
    assert_eq!(order, Order::Build);
    assert_eq!(p.state(), State::Prepared);
    assert_eq!((p.current_stage(), p.total_stages()), (2, 3));
    let (p, order) = p.advance(Report::Succeeded);
    assert_eq!(order, Order::Compose);
    assert_eq!(p.state(), State::Built);
    assert_eq!((p.current_stage(), p.total_stages()), (3, 3));
    let (p, order) = p.advance(Report::Succeeded);
    assert_eq!(order, Order::Finish);
    assert_eq!(p.state(), State::Done);
    assert_eq!((p.current_stage(), p.total_stages()), (3, 3));
    assert_eq!(p.failure_reason(), None);
}

#[test]
fn scenario_component_skips_prepare_and_build() {
    let (p, orders) = run("x.wasm", vec![detected(CodeLanguages::Wasm)]);
    assert_eq!(orders, vec![Order::Detect, Order::Compose]);
    assert_eq!(p.state(), State::SkipBuild);
    assert_eq!(p.total_stages(), 1);
    assert_eq!(p.current_stage(), 1);
    assert_eq!(p.job().source_path, "x.wasm");
    assert_eq!(p.job().language, Some(CodeLanguages::Wasm));
    let (p, order) = p.advance(Report::Succeeded);
    assert_eq!(order, Order::Finish);
    assert_eq!(p.state(), State::Done);
    assert_eq!(p.total_stages(), 1);
}

#[test]
fn scenario_unsupported_input_fails_before_any_work() {
    let (p, orders) = run("empty", vec![Report::Detected(Err(Rejection::NoSources))]);
    assert_eq!(orders, vec![Order::Detect, Order::GiveUp(Failure::UnsupportedLanguage)]);
    assert_eq!(p.state(), State::Failed(Failure::UnsupportedLanguage));
    assert_eq!(p.failure_reason(), Some("unsupported language".to_string()));
    assert_eq!(p.job().temp_dir, "");
    assert_eq!(p.job().language, None);
    assert_eq!((p.current_stage(), p.total_stages()), (0, 0));
    let (_, orders) = run("notes.txt", vec![Report::Detected(Err(Rejection::NotAComponent))]);
    assert_eq!(orders[1], Order::GiveUp(Failure::UnsupportedLanguage));
}

#[test]
fn scenario_compiler_failure_halts_before_composition() {
    let (p, orders) = run(
        "proj",
        vec![
            detected(CodeLanguages::Python),
            Report::Succeeded,
            failed("SyntaxError: line 3"),
            Report::Succeeded,
            Report::Succeeded,
        ],
    );
    assert_eq!(
        orders,
        vec![
            Order::Detect,
            Order::Prepare,
            Order::Build,
            Order::GiveUp(Failure::Compilation),
            Order::GiveUp(Failure::Compilation),
            Order::GiveUp(Failure::Compilation),
        ]
    );
    assert!(!orders.contains(&Order::Compose));
    assert_eq!(p.state(), State::Failed(Failure::Compilation));
    assert_eq!(p.failure_reason(), Some("compilation error".to_string()));
    assert_eq!(p.detail(), "SyntaxError: line 3");
    assert_eq!((p.current_stage(), p.total_stages()), (2, 3));
}

#[test]
fn preparation_failure_is_final() {
    let (p, orders) = run(
        "proj",
        vec![
            detected(CodeLanguages::JavaScript),
            failed("cannot read"),
            detected(CodeLanguages::Wasm),
        ],
    );
    assert_eq!(orders[2], Order::GiveUp(Failure::Preparation));
    assert_eq!(orders[3], Order::GiveUp(Failure::Preparation));
    assert_eq!(p.failure_reason(), Some("preparation error".to_string()));
    assert_eq!(p.detail(), "cannot read");
    assert_eq!(p.job().language, Some(CodeLanguages::JavaScript));
}

#[test]
fn composition_failure_is_final() {
    let (p, orders) = run("x.wasm", vec![detected(CodeLanguages::Wasm), failed("wiring")]);
    assert_eq!(orders[2], Order::GiveUp(Failure::Composition));
    assert_eq!(p.failure_reason(), Some("composition error".to_string()));
    assert_eq!(p.state(), State::Failed(Failure::Composition));
    let (q, orders) = run(
        "proj",
        vec![
            detected(CodeLanguages::TypeScript),
            Report::Succeeded,
            Report::Succeeded,
            failed("e"),
            Report::Succeeded,
        ],
    );
    assert_eq!(orders[4], Order::GiveUp(Failure::Composition));
    assert_eq!(orders[5], Order::GiveUp(Failure::Composition));
    assert_eq!((q.current_stage(), q.total_stages()), (3, 3));
}

#[test]
fn a_report_that_answers_nothing_is_ignored() {
    let (p, orders) = run("proj", vec![Report::Succeeded, failed("x")]);
    assert_eq!(orders, vec![Order::Detect, Order::Detect, Order::Detect]);
    assert_eq!(p.state(), State::Created);
    assert_eq!(p.detail(), "");
    let (p, _) = p.advance(detected(CodeLanguages::Python));
    let root = p.job().temp_dir.clone();
    let id = p.job().id;
    let (p, order) = p.advance(detected(CodeLanguages::Wasm));
    assert_eq!(order, Order::Prepare);
    assert_eq!(p.job().language, Some(CodeLanguages::Python));
    assert_eq!(p.total_stages(), 3);
    assert_eq!(p.job().temp_dir, root);
    assert_eq!(p.job().id, id);
}

#[test]
fn done_is_final() {
    let (p, orders) = run(
        "x.wasm",
        vec![detected(CodeLanguages::Wasm), Report::Succeeded, failed("late"), Report::Succeeded],
    );
    assert_eq!(orders[2..], [Order::Finish, Order::Finish, Order::Finish]);
    assert_eq!(p.state(), State::Done);
    assert_eq!(p.detail(), "");
}

#[test]
fn the_stage_number_only_grows_and_never_passes_the_number_of_stages() {
    let mut p = start("proj");
    let mut last = 0;
    let reports = vec![
        Report::Succeeded,
        detected(CodeLanguages::Python),
        Report::Succeeded,
        Report::Succeeded,
        Report::Succeeded,
        Report::Succeeded,
        failed("x"),
    ];
    for report in reports {
        let (next, _) = p.advance(report);
        assert!(next.current_stage() <= next.total_stages());
        assert!(next.current_stage() >= last);
        assert!(next.current_stage() <= last + 1);
        last = next.current_stage();
        p = next;
    }
    assert_eq!(last, 3);
}

#[test]
fn the_workspace_belongs_to_the_identifier() {
    let (first, _) = start("a").advance(detected(CodeLanguages::Python));
    let (second, _) = start("b").advance(detected(CodeLanguages::Python));
    assert_ne!(first.job().id, second.job().id);
    assert_ne!(first.job().temp_dir, second.job().temp_dir);
    let text = &first.job().temp_dir["/tmp/".len()..];
    assert_eq!(u128::from_str_radix(&text.replace('-', ""), 16), Ok(first.job().id));
}

#[test]
fn failure_message_names_the_reason_and_the_detail() {
    let (p, _) = run("proj", vec![detected(CodeLanguages::Python), failed("disk full")]);
    assert_eq!(p.failure_message(), Some("preparation error: disk full".to_string()));
    let (p, _) = run("proj", vec![detected(CodeLanguages::Python), failed("")]);
    assert_eq!(p.failure_message(), Some("preparation error".to_string()));
    let (p, _) = run("void", vec![Report::Detected(Err(Rejection::NoSources))]);
    assert_eq!(p.failure_message(), Some("unsupported language".to_string()));
    let (p, _) = run(
        "proj",
        vec![detected(CodeLanguages::Python), Report::Succeeded, failed("bad syntax")],
    );
    assert_eq!(p.failure_message(), Some("compilation error: bad syntax".to_string()));
    let (p, _) = run("x.wasm", vec![detected(CodeLanguages::Wasm), failed("wiring error: x")]);
    assert_eq!(p.failure_message(), Some("composition error: wiring error: x".to_string()));
    let (p, _) = run("x.wasm", vec![detected(CodeLanguages::Wasm)]);
    assert_eq!(p.failure_message(), None);
}

use sector_worker::errors::{
    bare_failure, diagnostic_text, exit_code, Failure, Outcome, WorkerError, EXIT_CLEAN,
    EXIT_CRASHED, EXIT_REPORTED,
};
use sector_worker::machine::{on_crash, on_engine, on_params, on_write, run, Action, State};
use sector_worker::phase::{
    C2Param, P1Param, P2Param, Phase, PhaseOutput, PhaseParams, PieceInfo, PorepConfig,
    PostConfig, ShapeBoundRecord, WindowPostParam,
};
use sector_worker::shape::SectorShape;

fn args(list: &[&str]) -> Vec<String> {
    list.iter().map(|s| s.to_string()).collect()
}

fn porep_config(sector_size: u64) -> PorepConfig {
    PorepConfig { sector_size, partitions: 1, porep_id: [0u8; 32] }
}

fn p1_params() -> PhaseParams {
    PhaseParams::P1 {
        param: P1Param {
            porep_config: porep_config(2048),
            cache_path: "/work/cache".to_string(),
            in_path: "/work/unsealed".to_string(),
            prover_id: [1u8; 32],
            sector_id: 9,
            ticket: [2u8; 32],
            piece_infos: vec![PieceInfo { commitment: [3u8; 32], size: 2032 }],
        },
    }
}

fn p2_params(shape: SectorShape) -> PhaseParams {
    PhaseParams::P2 {
        param: P2Param {
            porep_config: porep_config(2048),
            phase1_output: ShapeBoundRecord { shape, body: vec![1, 2, 3] },
            cache_path: "/work/cache".to_string(),
            replica_path: "/work/replica".to_string(),
        },
    }
}

fn c2_params(shape: SectorShape) -> PhaseParams {
    PhaseParams::C2 {
        param: C2Param {
            porep_config: porep_config(2048),
            phase1_output: ShapeBoundRecord { shape, body: vec![4, 5] },
            prover_id: [1u8; 32],
            sector_id: 9,
        },
    }
}

fn post_params(keys: &[u64], shape: SectorShape) -> PhaseParams {
    PhaseParams::WindowPost {
        param: WindowPostParam {
            post_config: PostConfig { sector_size: 2048, challenge_count: 10, sector_count: 2 },
            randomness: [7u8; 32],
            replicas: keys
                .iter()
                .map(|k| (*k, ShapeBoundRecord { shape, body: vec![9] }))
                .collect(),
            prover_id: [1u8; 32],
        },
    }
}

fn failure(kind: WorkerError, detail: &str, backtrace: &str) -> Failure {
    Failure { kind, detail: detail.to_string(), backtrace: backtrace.to_string() }
}

#[test]
fn clean_success_walks_the_whole_chain() {
    // Identifier "abc-123", sector size 2048, base directory "/work": the
    // parameter file is read, the engine runs, its serialized output
    // replaces the file, and the process exits cleanly.
    let (s1, a1) = run(
        Phase::P1,
        &args(&["lotus-p1", "abc-123", "2048"]),
        &Some("/work".to_string()),
    );
    assert!(
        matches!(&s1, State::Dispatched { phase: Phase::P1, path, shape: SectorShape::Shape2KiB }
            if path == "/work/param/abc-123")
    );
    assert!(matches!(&a1, Action::ReadParams { path } if path == "/work/param/abc-123"));

    let (s2, a2) = on_params(s1, Ok(p1_params()));
    assert!(matches!(&s2, State::ParamsRead { .. }));
    assert!(matches!(&a2, Action::RunEngine { params } if *params == p1_params()));

    let sealed = b"{\"labels\":[1,2,3]}".to_vec();
    let (s3, a3) = on_engine(s2, Ok(PhaseOutput::P1 { output: sealed.clone() }));
    assert!(matches!(&s3, State::Computed { path } if path == "/work/param/abc-123"));
    assert!(
        matches!(&a3, Action::WriteResult { path, bytes }
            if path == "/work/param/abc-123" && *bytes == sealed)
    );

    let (s4, a4) = on_write(s3, Ok(()));
    assert_eq!(s4, State::Finished { outcome: Outcome::Success });
    assert_eq!(a4, Action::Exit { code: EXIT_CLEAN });
    assert_eq!(EXIT_CLEAN, 0);
}

#[test]
fn unsupported_size_reports_and_never_runs_the_engine() {
    // Identifier "abc-123", sector size 999999: the first action already
    // reports the unrecognized shape into the work item's file, and the
    // process exits with the reported-error code.
    let (s1, a1) = run(
        Phase::P1,
        &args(&["lotus-p1", "abc-123", "999999"]),
        &Some("/work".to_string()),
    );
    assert!(
        matches!(&s1, State::Reporting { path, error: WorkerError::UnrecognizedShapeError }
            if path == "/work/param/abc-123")
    );
    match &a1 {
        Action::WriteDiagnostic { path, text } => {
            assert_eq!(path, "/work/param/abc-123");
            assert!(text.contains("unrecognized sector shape"));
        }
        other => panic!("expected a diagnostic write, got {:?}", other),
    }
    let (s2, a2) = on_write(s1, Ok(()));
    assert_eq!(
        s2,
        State::Finished {
            outcome: Outcome::ReportedError { error: WorkerError::UnrecognizedShapeError }
        }
    );
    assert_eq!(a2, Action::Exit { code: EXIT_REPORTED });
    assert_ne!(EXIT_REPORTED, 0);
}

#[test]
fn shape_mismatch_is_a_deserialization_error_before_the_engine() {
    let (s1, _) = run(
        Phase::P2,
        &args(&["lotus-p2", "abc-123", "2048"]),
        &Some("/work".to_string()),
    );
    // The record was produced under the 4 KiB shape, the dispatcher chose 2 KiB.
    let (s2, a2) = on_params(s1, Ok(p2_params(SectorShape::Shape4KiB)));
    assert!(!matches!(&a2, Action::RunEngine { .. }));
    assert!(
        matches!(&s2, State::Reporting { error: WorkerError::DeserializationError, .. })
    );
    assert!(
        matches!(&a2, Action::WriteDiagnostic { text, .. }
            if text.contains("does not match the expected schema"))
    );
}

#[test]
fn matching_shape_bound_record_reaches_the_engine() {
    let (s1, _) = run(
        Phase::C2,
        &args(&["lotus-c2", "abc-123", "2048"]),
        &Some("/work".to_string()),
    );
    let (_, a2) = on_params(s1, Ok(c2_params(SectorShape::Shape2KiB)));
    assert!(matches!(&a2, Action::RunEngine { .. }));
}

#[test]
fn record_of_another_phase_is_rejected() {
    let (s1, _) = run(
        Phase::P2,
        &args(&["lotus-p2", "abc-123", "2048"]),
        &Some("/work".to_string()),
    );
    let (s2, a2) = on_params(s1, Ok(p1_params()));
    assert!(!matches!(&a2, Action::RunEngine { .. }));
    assert!(
        matches!(&s2, State::Reporting { error: WorkerError::DeserializationError, .. })
    );
}

#[test]
fn replica_table_must_be_strictly_increasing() {
    let (s1, _) = run(
        Phase::WindowPost,
        &args(&["lotus-post", "abc-123", "2048"]),
        &Some("/work".to_string()),
    );
    let (_, a2) = on_params(s1, Ok(post_params(&[3, 3, 5], SectorShape::Shape2KiB)));
    assert!(!matches!(&a2, Action::RunEngine { .. }));

    let (s1b, _) = run(
        Phase::WindowPost,
        &args(&["lotus-post", "abc-123", "2048"]),
        &Some("/work".to_string()),
    );
    let (_, a2b) = on_params(s1b, Ok(post_params(&[3, 4, 5], SectorShape::Shape2KiB)));
    assert!(matches!(&a2b, Action::RunEngine { .. }));
}

#[test]
fn missing_configuration_exits_before_any_file_action() {
    let (s, a) = run(Phase::P1, &args(&["lotus-p1", "abc-123", "2048"]), &None);
    assert_eq!(
        s,
        State::Finished { outcome: Outcome::ReportedError { error: WorkerError::ConfigError } }
    );
    assert_eq!(a, Action::Exit { code: EXIT_REPORTED });
}

#[test]
fn missing_arguments_exit_before_any_file_action() {
    let (s, a) = run(Phase::P1, &args(&["lotus-p1"]), &Some("/work".to_string()));
    assert_eq!(
        s,
        State::Finished { outcome: Outcome::ReportedError { error: WorkerError::ArgumentError } }
    );
    assert_eq!(a, Action::Exit { code: EXIT_REPORTED });
}

#[test]
fn unreadable_parameter_file_is_reported() {
    let (s1, _) = run(
        Phase::P1,
        &args(&["lotus-p1", "abc-123", "2048"]),
        &Some("/work".to_string()),
    );
    let (s2, a2) = on_params(s1, Err(failure(WorkerError::IoError, "cannot open file", "")));
    assert!(matches!(&s2, State::Reporting { error: WorkerError::IoError, .. }));
    assert!(
        matches!(&a2, Action::WriteDiagnostic { text, .. } if text.contains("cannot open file"))
    );
    let (s3, a3) = on_write(s2, Ok(()));
    assert_eq!(
        s3,
        State::Finished { outcome: Outcome::ReportedError { error: WorkerError::IoError } }
    );
    assert_eq!(a3, Action::Exit { code: EXIT_REPORTED });
}

#[test]
fn engine_failure_is_passed_through_as_a_proving_error() {
    let (s1, _) = run(
        Phase::C2,
        &args(&["lotus-c2", "abc-123", "2048"]),
        &Some("/work".to_string()),
    );
    let (s2, _) = on_params(s1, Ok(c2_params(SectorShape::Shape2KiB)));
    let (s3, a3) = on_engine(
        s2,
        Err(failure(WorkerError::ProvingError, "invalid vanilla proof", "stack frames")),
    );
    assert!(matches!(&s3, State::Reporting { error: WorkerError::ProvingError, .. }));
    match &a3 {
        Action::WriteDiagnostic { path, text } => {
            assert_eq!(path, "/work/param/abc-123");
            assert!(text.contains("proving engine reported a failure"));
            assert!(text.contains("invalid vanilla proof"));
            assert!(text.contains("stack frames"));
        }
        other => panic!("expected a diagnostic write, got {:?}", other),
    }
    let (_, a4) = on_write(s3, Ok(()));
    assert_eq!(a4, Action::Exit { code: EXIT_REPORTED });
}

#[test]
fn a_result_write_failure_is_an_overall_failure() {
    let (s1, _) = run(
        Phase::C2,
        &args(&["lotus-c2", "abc-123", "2048"]),
        &Some("/work".to_string()),
    );
    let (s2, _) = on_params(s1, Ok(c2_params(SectorShape::Shape2KiB)));
    let (s3, _) = on_engine(s2, Ok(PhaseOutput::C2 { proof_bytes: vec![1, 2, 3] }));
    // The proof was computed, but persisting it fails: still non-zero exit.
    let (s4, a4) = on_write(s3, Err(failure(WorkerError::IoError, "disk full", "")));
    assert!(matches!(&s4, State::Reporting { error: WorkerError::IoError, .. }));
    assert!(matches!(&a4, Action::WriteDiagnostic { text, .. } if text.contains("disk full")));
    let (s5, a5) = on_write(s4, Ok(()));
    assert_eq!(
        s5,
        State::Finished { outcome: Outcome::ReportedError { error: WorkerError::IoError } }
    );
    assert_eq!(a5, Action::Exit { code: EXIT_REPORTED });
}

#[test]
fn a_failed_diagnostic_write_is_swallowed() {
    let (s1, _) = run(
        Phase::P1,
        &args(&["lotus-p1", "abc-123", "999999"]),
        &Some("/work".to_string()),
    );
    // Even if the diagnostic cannot be persisted, the invocation still
    // finishes with the error it was reporting.
    let (s2, a2) = on_write(s1, Err(failure(WorkerError::IoError, "read-only", "")));
    assert_eq!(
        s2,
        State::Finished {
            outcome: Outcome::ReportedError { error: WorkerError::UnrecognizedShapeError }
        }
    );
    assert_eq!(a2, Action::Exit { code: EXIT_REPORTED });
}

#[test]
fn a_crash_with_a_known_path_writes_one_best_effort_diagnostic() {
    let (s1, _) = run(
        Phase::P1,
        &args(&["lotus-p1", "abc-123", "2048"]),
        &Some("/work".to_string()),
    );
    let (s2, _) = on_params(s1, Ok(p1_params()));
    let (s3, a3) = on_crash(s2, failure(WorkerError::CrashFault, "", "0: engine frame"));
    assert!(matches!(&s3, State::Reporting { error: WorkerError::CrashFault, .. }));
    match &a3 {
        Action::WriteDiagnostic { path, text } => {
            assert_eq!(path, "/work/param/abc-123");
            assert!(text.contains("uncontrolled fault"));
            assert!(text.contains("0: engine frame"));
        }
        other => panic!("expected a diagnostic write, got {:?}", other),
    }
    let (s4, a4) = on_write(s3, Ok(()));
    assert_eq!(s4, State::Finished { outcome: Outcome::Crashed });
    assert_eq!(a4, Action::Exit { code: EXIT_CRASHED });
}

#[test]
fn a_crash_while_reporting_never_starts_a_second_write() {
    // First a typed error starts its diagnostic write; a crash during that
    // write must exit at once, leaving the one full write as the last one.
    let (s1, a1) = run(
        Phase::P1,
        &args(&["lotus-p1", "abc-123", "999999"]),
        &Some("/work".to_string()),
    );
    assert!(matches!(&a1, Action::WriteDiagnostic { .. }));
    let (s2, a2) = on_crash(s1, failure(WorkerError::CrashFault, "", ""));
    assert_eq!(s2, State::Finished { outcome: Outcome::Crashed });
    assert_eq!(a2, Action::Exit { code: EXIT_CRASHED });
}

#[test]
fn reporting_twice_composes_the_same_full_text() {
    // The diagnostic for one failure is one self-contained text: writing
    // it twice replaces the file with identical content, so the last write
    // is fully readable.
    let f1 = failure(WorkerError::ProvingError, "boom", "frames");
    let f2 = failure(WorkerError::ProvingError, "boom", "frames");
    assert_eq!(diagnostic_text(&f1), diagnostic_text(&f2));
}

#[test]
fn a_crash_before_any_path_is_known_just_exits() {
    let (s, a) = on_crash(
        State::Start { phase: Phase::P1 },
        failure(WorkerError::CrashFault, "", ""),
    );
    assert_eq!(s, State::Finished { outcome: Outcome::Crashed });
    assert_eq!(a, Action::Exit { code: EXIT_CRASHED });
    assert_ne!(EXIT_CRASHED, EXIT_REPORTED);
    assert_ne!(EXIT_CRASHED, 0);
}

#[test]
fn exit_codes_classify_the_three_outcomes() {
    assert_eq!(exit_code(&Outcome::Success), 0);
    assert_eq!(
        exit_code(&Outcome::ReportedError { error: WorkerError::IoError }),
        EXIT_REPORTED
    );
    assert_eq!(exit_code(&Outcome::Crashed), EXIT_CRASHED);
}

#[test]
fn diagnostic_text_is_the_documented_composition() {
    let t = diagnostic_text(&failure(WorkerError::ProvingError, "boom", "bt"));
    assert_eq!(t, "error: proving engine reported a failure: boom\nbacktrace: bt");
    let bare = bare_failure(WorkerError::UnrecognizedShapeError);
    assert_eq!(
        diagnostic_text(&bare),
        "error: unrecognized sector shape: \nbacktrace: "
    );
}

#[test]
fn an_empty_replica_table_is_well_formed() {
    let (s1, _) = run(
        Phase::WindowPost,
        &args(&["lotus-post", "abc-123", "2048"]),
        &Some("/work".to_string()),
    );
    let (_, a2) = on_params(s1, Ok(post_params(&[], SectorShape::Shape2KiB)));
    assert!(matches!(&a2, Action::RunEngine { .. }));
}

#[test]
fn an_empty_identifier_is_used_verbatim() {
    let (s1, _) = run(
        Phase::P1,
        &args(&["lotus-p1", "", "2048"]),
        &Some("/work".to_string()),
    );
    assert!(matches!(&s1, State::Dispatched { path, .. } if path == "/work/param/"));
}

use aftermath::session::{
    Aftermath, DisableRequest, PollDecision, RuntimeCommand, POLL_INTERVAL_MS, RESULT_SUCCESS,
    run_session,
};
use aftermath::status::CollectionStatus;

#[test]
fn initialize_success_yields_enabled_session() {
    let session = Aftermath::initialize(RESULT_SUCCESS).unwrap();
    assert!(session.enabled);
}

#[test]
fn initialize_failure_surfaces_raw_code() {
    let err = Aftermath::initialize(0).unwrap_err();
    assert_eq!(err.code, 0);
    let err = Aftermath::initialize(0xbad0_0001).unwrap_err();
    assert_eq!(err.code, 0xbad0_0001);
    let err = Aftermath::initialize(42).unwrap_err();
    assert_eq!(err.code, 42);
}

#[test]
fn enable_request_registers_all_delivery_callbacks() {
    let req = Aftermath::enable_request();
    assert!(req.watch_vulkan);
    assert!(req.defer_debug_info_callbacks);
    assert!(req.crash_dump_callback);
    assert!(req.shader_debug_info_callback);
    assert!(req.description_callback);
    assert!(!req.marker_resolve_callback);
}

#[test]
fn polling_interval_is_one_hundred_milliseconds() {
    assert_eq!(POLL_INTERVAL_MS, 100);
}

#[test]
fn wait_step_stops_only_on_terminal_statuses() {
    let session = Aftermath::initialize(RESULT_SUCCESS).unwrap();
    assert_eq!(
        session.wait_step(CollectionStatus::Finished),
        PollDecision::Stop
    );
    assert_eq!(
        session.wait_step(CollectionStatus::CollectionFailed),
        PollDecision::Stop
    );
    assert_eq!(
        session.wait_step(CollectionStatus::Unknown),
        PollDecision::SleepThenRetry
    );
    assert_eq!(
        session.wait_step(CollectionStatus::InProgress),
        PollDecision::SleepThenRetry
    );
    assert_eq!(
        session.wait_step(CollectionStatus::Invalid),
        PollDecision::SleepThenRetry
    );
}

#[test]
fn wait_queries_exactly_until_first_terminal() {
    // Three non-terminal observations, then one terminal one: exactly four
    // queries, each preceded by a full polling interval.
    let session = Aftermath::initialize(RESULT_SUCCESS).unwrap();
    let script = vec![
        CollectionStatus::InProgress,
        CollectionStatus::Unknown,
        CollectionStatus::InProgress,
        CollectionStatus::Finished,
    ];
    let run = session.wait_for_dump(&script).unwrap();
    assert_eq!(run.queries, 4);
    assert_eq!(run.sleeps, 4);
    assert!(run.sleeps >= 3);
    assert_eq!(run.terminal, CollectionStatus::Finished);
}

#[test]
fn wait_treats_collection_failure_as_terminal() {
    let session = Aftermath::initialize(RESULT_SUCCESS).unwrap();
    let script = vec![
        CollectionStatus::InProgress,
        CollectionStatus::CollectionFailed,
        CollectionStatus::Finished,
    ];
    let run = session.wait_for_dump(&script).unwrap();
    assert_eq!(run.queries, 2);
    assert_eq!(run.terminal, CollectionStatus::CollectionFailed);
}

#[test]
fn wait_stops_at_once_on_an_immediately_terminal_status() {
    let session = Aftermath::initialize(RESULT_SUCCESS).unwrap();
    let script = vec![CollectionStatus::Finished];
    let run = session.wait_for_dump(&script).unwrap();
    assert_eq!(run.queries, 1);
    assert_eq!(run.sleeps, 1);
}

#[test]
fn wait_does_not_return_without_a_terminal_status() {
    let session = Aftermath::initialize(RESULT_SUCCESS).unwrap();
    let script = vec![
        CollectionStatus::Unknown,
        CollectionStatus::InProgress,
        CollectionStatus::Invalid,
    ];
    assert!(session.wait_for_dump(&script).is_none());
}

#[test]
fn teardown_yields_the_disable_request() {
    let session = Aftermath::initialize(RESULT_SUCCESS).unwrap();
    assert_eq!(session.teardown(), DisableRequest {});
}

fn count_disables(transcript: &[RuntimeCommand]) -> usize {
    transcript
        .iter()
        .filter(|c| matches!(c, RuntimeCommand::DisableCapture))
        .count()
}

#[test]
fn session_run_disables_exactly_once_after_a_wait() {
    let script = vec![CollectionStatus::InProgress, CollectionStatus::Finished];
    let transcript = run_session(RESULT_SUCCESS, true, &script);
    assert_eq!(transcript[0], RuntimeCommand::EnableCapture);
    assert_eq!(count_disables(&transcript), 1);
    assert_eq!(
        transcript[transcript.len() - 1],
        RuntimeCommand::DisableCapture
    );
    assert_eq!(
        transcript,
        vec![
            RuntimeCommand::EnableCapture,
            RuntimeCommand::SleepInterval,
            RuntimeCommand::QueryStatus,
            RuntimeCommand::SleepInterval,
            RuntimeCommand::QueryStatus,
            RuntimeCommand::DisableCapture,
        ]
    );
}

#[test]
fn session_run_disables_exactly_once_without_a_wait() {
    let script: Vec<CollectionStatus> = Vec::new();
    let transcript = run_session(RESULT_SUCCESS, false, &script);
    assert_eq!(
        transcript,
        vec![
            RuntimeCommand::EnableCapture,
            RuntimeCommand::DisableCapture,
        ]
    );
    assert_eq!(count_disables(&transcript), 1);
}

#[test]
fn session_run_disables_exactly_once_when_the_wait_never_ends() {
    // The script is exhausted before any terminal status: the run still
    // closes with exactly one disable.
    let script = vec![CollectionStatus::InProgress, CollectionStatus::Unknown];
    let transcript = run_session(RESULT_SUCCESS, true, &script);
    assert_eq!(count_disables(&transcript), 1);
    assert_eq!(
        transcript[transcript.len() - 1],
        RuntimeCommand::DisableCapture
    );
}

#[test]
fn failed_session_run_never_disables() {
    let script = vec![CollectionStatus::Finished];
    let transcript = run_session(0xbad0_0002, true, &script);
    assert_eq!(transcript, vec![RuntimeCommand::EnableCapture]);
    assert_eq!(count_disables(&transcript), 0);
}

use chat_ffi::error::ErrorCodes;
use chat_ffi::startup::{
    create_chat_client, resume, StartupAction, StartupConfig, StartupEvent, StartupState,
};

const CODES: ErrorCodes = ErrorCodes { null_error: 11, invalid_argument: 22, tokio_error: 33 };
const LOGGED: StartupConfig<'static> = StartupConfig { log_path: Some(b"log.txt") };
const SILENT: StartupConfig<'static> = StartupConfig { log_path: None };

type State = StartupState<'static, u8>;
type Event = StartupEvent<u8, char, &'static str>;
type Action = StartupAction<'static, u8, char, &'static str>;

fn begin(
    config: Option<&StartupConfig<'static>>,
    path: Option<&'static [u8]>,
    error: &mut i32,
) -> (State, Action) {
    create_chat_client(config, path, error, &CODES)
}

fn go_on(state: State, event: Event, error: &mut i32) -> (State, Action) {
    resume(state, event, error, &CODES)
}

fn gave_up() -> (State, Action) {
    (StartupState::Finished, StartupAction::GiveUp)
}

#[test]
fn null_config_is_a_null_error() {
    let mut error: i32 = 9;
    assert_eq!(begin(None, Some(b"id.json"), &mut error), gave_up());
    assert_eq!(error, 11);
    error = 0;
    assert_eq!(begin(None, None, &mut error), gave_up());
    assert_eq!(error, 11);
}

#[test]
fn client_is_handed_out_after_logging_identity_and_runtime() {
    let mut error: i32 = 0;
    let (state, action) = begin(Some(&LOGGED), Some(b"id.json"), &mut error);
    assert_eq!(action, StartupAction::InitLogging(b"log.txt"));
    let (state, action) = go_on(state, StartupEvent::LoggingReady { installed: true }, &mut error);
    assert_eq!(action, StartupAction::LoadIdentity("id.json".to_string()));
    let (state, action) = go_on(state, StartupEvent::IdentityRead(Ok(Some(7))), &mut error);
    assert_eq!(action, StartupAction::CreateRuntime);
    let (state, action) = go_on(state, StartupEvent::RuntimeCreated(Ok('r')), &mut error);
    assert_eq!(state, StartupState::Client);
    assert_eq!(action, StartupAction::StartClient { identity: 7, runtime: 'r' });
    let (state, action) = go_on(state, StartupEvent::ClientStarted(Ok("client")), &mut error);
    assert_eq!(state, StartupState::Finished);
    assert_eq!(action, StartupAction::HandOut("client"));
    assert_eq!(error, 0);
}

#[test]
fn logging_is_skipped_without_a_path() {
    let mut error: i32 = 6;
    let (state, action) = begin(Some(&SILENT), Some(b"id.json"), &mut error);
    assert_eq!(state, StartupState::Identity);
    assert_eq!(action, StartupAction::LoadIdentity("id.json".to_string()));
    assert_eq!(error, 0);
}

#[test]
fn prior_slot_is_ignored() {
    for prior in [6, 0, -6] {
        let mut error: i32 = prior;
        let (state, action) = begin(Some(&LOGGED), Some(b"id.json"), &mut error);
        assert_eq!(action, StartupAction::InitLogging(b"log.txt"));
        assert_eq!(error, 0);
        let (state, action) = go_on(state, StartupEvent::LoggingReady { installed: true }, &mut error);
        assert_eq!(state, StartupState::Identity);
        assert_eq!(action, StartupAction::LoadIdentity("id.json".to_string()));
        assert_eq!(error, 0);
    }
}

#[test]
fn earlier_logging_is_no_error() {
    let mut error: i32 = 0;
    let (state, _) = begin(Some(&LOGGED), Some(b"id.json"), &mut error);
    let (state, action) = go_on(state, StartupEvent::LoggingReady { installed: false }, &mut error);
    assert_eq!(state, StartupState::Identity);
    assert_eq!(action, StartupAction::LoadIdentity("id.json".to_string()));
    assert_eq!(error, 0);
}

#[test]
fn failed_logging_is_an_invalid_argument() {
    let mut error: i32 = 0;
    let (state, _) = begin(Some(&LOGGED), Some(b"id.json"), &mut error);
    let event = StartupEvent::LoggingFailed("permission denied".to_string());
    assert_eq!(go_on(state, event, &mut error), gave_up());
    assert_eq!(error, 22);
}

#[test]
fn missing_identity_path_is_a_null_error() {
    let mut error: i32 = 0;
    assert_eq!(begin(Some(&SILENT), None, &mut error), gave_up());
    assert_eq!(error, 11);
    let (state, _) = begin(Some(&LOGGED), None, &mut error);
    assert_eq!(error, 0);
    assert_eq!(go_on(state, StartupEvent::LoggingReady { installed: true }, &mut error), gave_up());
    assert_eq!(error, 11);
}

#[test]
fn identity_path_that_is_no_text_is_an_invalid_argument() {
    let mut error: i32 = 0;
    assert_eq!(begin(Some(&SILENT), Some(&[0xe2, 0x82]), &mut error), gave_up());
    assert_eq!(error, 22);
}

#[test]
fn absent_or_unreadable_identity_is_an_invalid_argument() {
    let mut error: i32 = 0;
    let (state, _) = begin(Some(&SILENT), Some(b"id.json"), &mut error);
    assert_eq!(go_on(state, StartupEvent::IdentityRead(Ok(None)), &mut error), gave_up());
    assert_eq!(error, 22);
    let (state, _) = begin(Some(&SILENT), Some(b"id.json"), &mut error);
    let event = StartupEvent::IdentityRead(Err("no such file".to_string()));
    assert_eq!(go_on(state, event, &mut error), gave_up());
    assert_eq!(error, 22);
}

#[test]
fn failing_runtime_is_a_runtime_error() {
    let mut error: i32 = 0;
    let state: State = StartupState::Runtime { identity: 7 };
    let event = StartupEvent::RuntimeCreated(Err("no threads".to_string()));
    assert_eq!(go_on(state, event, &mut error), gave_up());
    assert_eq!(error, 33);
}

#[test]
fn client_without_a_service_is_a_null_error() {
    let mut error: i32 = 0;
    let event = StartupEvent::ClientStarted(Err("No contacts service loaded yet".to_string()));
    assert_eq!(go_on(StartupState::Client, event, &mut error), gave_up());
    assert_eq!(error, 11);
}

//! Starting a client, as a dialogue.
//!
//! Starting takes work on files, threads and the network. [`create_chat_client`] and [`resume`] say
//! what to do next and are told how it went, until the client can be handed out or is given up.

use crate::error::{ErrorCodes, ErrorView, InterfaceError};
use crate::text::{read_text, text_of};
use vstd::pervasive::unreached;
use vstd::prelude::*;

verus! {

/// What a start reads of a client's finished configuration.
#[derive(Debug, PartialEq, Eq)]
pub struct StartupConfig<'a> {
    /// The path to log to, as the platform encodes it.
    pub log_path: Option<&'a [u8]>,
}

/// How far a start has come.
#[derive(Debug, PartialEq, Eq)]
pub enum StartupState<'a, I> {
    /// Logging is being set up.
    Logging { identity_file_path: Option<&'a [u8]> },
    /// The identity of the node is being read.
    Identity,
    /// The asynchronous runtime is being created.
    Runtime { identity: I },
    /// The client is being started.
    Client,
    /// Nothing is left to wait for.
    Finished,
}

/// How the work that was asked for went.
#[derive(Debug, PartialEq, Eq)]
pub enum StartupEvent<I, R, C> {
    /// The log file is open. `installed` tells whether logging goes to it; if not, the process logs
    /// already and goes on as before.
    LoggingReady { installed: bool },
    /// The log file cannot be used.
    LoggingFailed(String),
    /// The identity file was read.
    IdentityRead(Result<Option<I>, String>),
    /// The runtime was created, or not.
    RuntimeCreated(Result<R, String>),
    /// The client came up with all its services, or one is missing.
    ClientStarted(Result<C, String>),
}

/// What to do next.
#[derive(Debug, PartialEq, Eq)]
pub enum StartupAction<'a, I, R, C> {
    /// Set up logging to the file at this path.
    InitLogging(&'a [u8]),
    /// Read the identity of the node from the file at this path.
    LoadIdentity(String),
    /// Create an asynchronous runtime.
    CreateRuntime,
    /// Start a client with this identity on this runtime.
    StartClient { identity: I, runtime: R },
    /// Hand out the client.
    HandOut(C),
    /// Hand out a null pointer.
    GiveUp,
}

/// The mathematical content of a [`StartupAction`].
pub enum ActionView<I, R, C> {
    InitLogging(Seq<u8>),
    LoadIdentity(Seq<char>),
    CreateRuntime,
    StartClient { identity: I, runtime: R },
    HandOut(C),
    GiveUp,
}

impl<'a, I, R, C> View for StartupAction<'a, I, R, C> {
    type V = ActionView<I, R, C>;

    open spec fn view(&self) -> ActionView<I, R, C> {
        match *self {
            StartupAction::InitLogging(path) => ActionView::InitLogging(path@),
            StartupAction::LoadIdentity(path) => ActionView::LoadIdentity(path@),
            StartupAction::CreateRuntime => ActionView::CreateRuntime,
            StartupAction::StartClient { identity, runtime } => ActionView::StartClient {
                identity,
                runtime,
            },
            StartupAction::HandOut(client) => ActionView::HandOut(client),
            StartupAction::GiveUp => ActionView::GiveUp,
        }
    }
}

/// One turn of the dialogue: where the start stands, what to do next, and what the error slot holds.
pub struct Turn<'a, I, R, C> {
    pub state: StartupState<'a, I>,
    pub action: ActionView<I, R, C>,
    pub slot: i32,
}

/// The turn that an answer amounts to, with what the error slot holds at that point.
pub open spec fn turn_of<'a, I, R, C>(
    answer: (StartupState<'a, I>, StartupAction<'a, I, R, C>),
    slot: i32,
) -> Turn<'a, I, R, C> {
    Turn { state: answer.0, action: answer.1@, slot }
}

/// The turn that gives a start up because of an error.
pub open spec fn given_up<'a, I, R, C>(error: ErrorView, codes: ErrorCodes) -> Turn<'a, I, R, C> {
    Turn { state: StartupState::Finished, action: ActionView::GiveUp, slot: codes.code(error) }
}

/// The turn that asks for the identity of the node.
pub open spec fn identity_turn<'a, I, R, C>(
    identity_file_path: Option<&'a [u8]>,
    codes: ErrorCodes,
) -> Turn<'a, I, R, C> {
    match identity_file_path {
        None => given_up(ErrorView::NullError("identity_file_path"@), codes),
        Some(bytes) => match text_of(bytes@) {
            Ok(path) => Turn { state: StartupState::Identity, action: ActionView::LoadIdentity(path), slot: 0 },
            Err(e) => given_up(ErrorView::InvalidArgument(e), codes),
        },
    }
}

/// The first turn. A configuration with a path to log to has logging set up before anything else.
pub open spec fn first_turn<'a, I, R, C>(
    config: Option<&StartupConfig<'a>>,
    identity_file_path: Option<&'a [u8]>,
    codes: ErrorCodes,
) -> Turn<'a, I, R, C> {
    match config {
        None => given_up(ErrorView::NullError("config"@), codes),
        Some(config) => match config.log_path {
            Some(log_path) => Turn {
                state: StartupState::Logging { identity_file_path },
                action: ActionView::InitLogging(log_path@),
                slot: 0,
            },
            None => identity_turn(identity_file_path, codes),
        },
    }
}

/// The event is one that the state waits for.
pub open spec fn awaits<'a, I, R, C>(state: StartupState<'a, I>, event: StartupEvent<I, R, C>) -> bool {
    match state {
        StartupState::Logging { .. } => event is LoggingReady || event is LoggingFailed,
        StartupState::Identity => event is IdentityRead,
        StartupState::Runtime { .. } => event is RuntimeCreated,
        StartupState::Client => event is ClientStarted,
        StartupState::Finished => false,
    }
}

/// The turn after the identity file was read.
pub open spec fn identified_turn<'a, I, R, C>(
    read: Result<Option<I>, String>,
    codes: ErrorCodes,
) -> Turn<'a, I, R, C> {
    match read {
        Ok(Some(identity)) => Turn {
            state: StartupState::Runtime { identity },
            action: ActionView::CreateRuntime,
            slot: 0,
        },
        _ => given_up(ErrorView::InvalidArgument("No identity loaded"@), codes),
    }
}

/// The turn after the runtime was created, or not.
pub open spec fn runtime_turn<'a, I, R, C>(
    identity: I,
    created: Result<R, String>,
    codes: ErrorCodes,
) -> Turn<'a, I, R, C> {
    match created {
        Ok(runtime) => Turn {
            state: StartupState::Client,
            action: ActionView::StartClient { identity, runtime },
            slot: 0,
        },
        Err(e) => given_up(ErrorView::TokioError(e@), codes),
    }
}

/// The turn after the client was started, or not.
pub open spec fn client_turn<'a, I, R, C>(started: Result<C, String>, codes: ErrorCodes) -> Turn<'a, I, R, C> {
    match started {
        Ok(client) => Turn { state: StartupState::Finished, action: ActionView::HandOut(client), slot: 0 },
        Err(e) => given_up(ErrorView::NullError(e@), codes),
    }
}

/// The turn that follows an event.
pub open spec fn next_turn<'a, I, R, C>(
    state: StartupState<'a, I>,
    event: StartupEvent<I, R, C>,
    codes: ErrorCodes,
) -> Turn<'a, I, R, C>
    recommends
        awaits(state, event),
{
    match (state, event) {
        (StartupState::Logging { identity_file_path }, StartupEvent::LoggingReady { .. }) => identity_turn(
            identity_file_path,
            codes,
        ),
        (StartupState::Logging { .. }, StartupEvent::LoggingFailed(e)) => given_up(
            ErrorView::InvalidArgument(e@),
            codes,
        ),
        (StartupState::Identity, StartupEvent::IdentityRead(read)) => identified_turn(read, codes),
        (StartupState::Runtime { identity }, StartupEvent::RuntimeCreated(created)) => runtime_turn(
            identity,
            created,
            codes,
        ),
        (StartupState::Client, StartupEvent::ClientStarted(started)) => client_turn(started, codes),
        _ => arbitrary(),
    }
}

fn give_up<'a, I, R, C>(error: InterfaceError, error_out: &mut i32, codes: &ErrorCodes) -> (turn: (
    StartupState<'a, I>,
    StartupAction<'a, I, R, C>,
))
    ensures
        turn_of(turn, *final(error_out)) == given_up::<I, R, C>(error@, *codes),
{
    *error_out = codes.code_of(&error);
    (StartupState::Finished, StartupAction::GiveUp)
}

fn ask_identity<'a, I, R, C>(
    identity_file_path: Option<&'a [u8]>,
    error_out: &mut i32,
    codes: &ErrorCodes,
) -> (turn: (StartupState<'a, I>, StartupAction<'a, I, R, C>))
    ensures
        turn_of(turn, *final(error_out)) == identity_turn::<I, R, C>(identity_file_path, *codes),
{
    match identity_file_path {
        None => give_up(InterfaceError::NullError("identity_file_path".to_owned()), error_out, codes),
        Some(bytes) => match read_text(bytes) {
            Ok(path) => {
                *error_out = 0;
                (StartupState::Identity, StartupAction::LoadIdentity(path.to_owned()))
            },
            Err(e) => give_up(InterfaceError::InvalidArgument(e), error_out, codes),
        },
    }
}

/// Begins to start a client.
pub fn create_chat_client<'a, I, R, C>(
    config: Option<&StartupConfig<'a>>,
    identity_file_path: Option<&'a [u8]>,
    error_out: &mut i32,
    codes: &ErrorCodes,
) -> (turn: (StartupState<'a, I>, StartupAction<'a, I, R, C>))
    ensures
        turn_of(turn, *final(error_out)) == first_turn::<I, R, C>(config, identity_file_path, *codes),
{
    match config {
        None => give_up(InterfaceError::NullError("config".to_owned()), error_out, codes),
        Some(config) => match config.log_path {
            Some(log_path) => {
                *error_out = 0;
                (StartupState::Logging { identity_file_path }, StartupAction::InitLogging(log_path))
            },
            None => ask_identity(identity_file_path, error_out, codes),
        },
    }
}

/// Goes on with a start once the work asked for last is done.
pub fn resume<'a, I, R, C>(
    state: StartupState<'a, I>,
    event: StartupEvent<I, R, C>,
    error_out: &mut i32,
    codes: &ErrorCodes,
) -> (turn: (StartupState<'a, I>, StartupAction<'a, I, R, C>))
    requires
        awaits(state, event),
    ensures
        turn_of(turn, *final(error_out)) == next_turn(state, event, *codes),
{
    match (state, event) {
        (StartupState::Logging { identity_file_path }, StartupEvent::LoggingReady { .. }) => ask_identity(
            identity_file_path,
            error_out,
            codes,
        ),
        (StartupState::Logging { .. }, StartupEvent::LoggingFailed(e)) => give_up(
            InterfaceError::InvalidArgument(e),
            error_out,
            codes,
        ),
        (StartupState::Identity, StartupEvent::IdentityRead(read)) => match read {
            Ok(Some(identity)) => {
                *error_out = 0;
                (StartupState::Runtime { identity }, StartupAction::CreateRuntime)
            },
            _ => give_up(
                InterfaceError::InvalidArgument("No identity loaded".to_owned()),
                error_out,
                codes,
            ),
        },
        (StartupState::Runtime { identity }, StartupEvent::RuntimeCreated(created)) => match created {
            Ok(runtime) => {
                *error_out = 0;
                (StartupState::Client, StartupAction::StartClient { identity, runtime })
            },
            Err(e) => give_up(InterfaceError::TokioError(e), error_out, codes),
        },
        (StartupState::Client, StartupEvent::ClientStarted(started)) => match started {
            Ok(client) => {
                *error_out = 0;
                (StartupState::Finished, StartupAction::HandOut(client))
            },
            Err(e) => give_up(InterfaceError::NullError(e), error_out, codes),
        },
        _ => unreached(),
    }
}

} // verus!

//! What holds of the library as a whole.

use crate::address::address_made;
use crate::archive::{archive_pattern, last_dot, lemma_has_last_dot, lemma_last_dot_unique};
use crate::config::{assembled, config_made, required_text, ConfigView};
use crate::error::{ErrorCodes, ErrorView};
use crate::log_backend::{
    config_appenders, config_loggers, config_root_appenders, config_root_level, has_marker, Level,
    LoggerView,
};
use crate::logging::{client_logging, logging_prepared, LogFile};
use crate::messaging::{
    handles, message_limit, message_page, sending, DEFAULT_MESSAGE_LIMIT, DEFAULT_MESSAGE_PAGE,
    MAX_MESSAGE_LIMIT,
};
use crate::startup::{
    awaits, first_turn, identity_turn, next_turn, turn_of, ActionView, StartupAction, StartupConfig,
    StartupEvent, StartupState, Turn,
};
use crate::text::{reads_alike, text_of};
use log4rs::append::rolling_file::RollingFileAppender;
use log4rs::config::Config;
use vstd::prelude::*;
use vstd::utf8::{encode_utf8, encode_utf8_decode_utf8, encode_utf8_valid_utf8};

verus! {

/// An error slot that a call leaves at zero means success, and only that.
pub proof fn law_zero_means_success<T>(codes: ErrorCodes, outcome: Result<T, ErrorView>)
    requires
        codes.well_formed(),
    ensures
        codes.slot(outcome) == 0 <==> outcome is Ok,
        codes.slot(outcome) >= 0,
{
}

/// A text argument that C encodes as UTF-8 is read back as it was written.
pub proof fn law_text_is_kept(text: Seq<char>, name: Seq<char>)
    ensures
        text_of(encode_utf8(text)) == Ok::<Seq<char>, Seq<char>>(text),
        required_text(Some(encode_utf8(text)), name) == Ok::<Seq<char>, ErrorView>(text),
{
    encode_utf8_valid_utf8(text);
    encode_utf8_decode_utf8(text);
}

/// A message that C encodes as UTF-8 goes out as it was written, through the client and to the
/// receiver that were named.
pub proof fn law_message_is_kept<C, A>(client: C, receiver: A, text: Seq<char>)
    ensures
        sending(Some(client), Some(receiver), encode_utf8(text)) == Ok::<_, ErrorView>((client, receiver, text)),
{
    law_text_is_kept(text, Seq::empty());
}

/// Nothing is asked of a client unless both handles are there, and a missing one is reported as such.
pub proof fn law_missing_handle_is_reported<C, A>(client: Option<C>, receiver: Option<A>, codes: ErrorCodes)
    ensures
        handles(client, receiver) is Ok <==> client is Some && receiver is Some,
        client is None || receiver is None ==> codes.slot(handles(client, receiver)) == codes.null_error,
{
}

/// Never more than the most allowed messages are fetched. Within that bound a caller gets what was
/// asked for, beyond it the most allowed, and a negative number asks for the default.
pub proof fn law_message_limit(limit: i32)
    ensures
        message_limit(limit) <= MAX_MESSAGE_LIMIT,
        0 <= limit <= MAX_MESSAGE_LIMIT ==> message_limit(limit) == limit,
        limit > MAX_MESSAGE_LIMIT ==> message_limit(limit) == MAX_MESSAGE_LIMIT,
        limit < 0 ==> message_limit(limit) == DEFAULT_MESSAGE_LIMIT,
{
}

/// A caller gets the page asked for, and a negative number asks for the default.
pub proof fn law_message_page(page: i32)
    ensures
        page >= 0 ==> message_page(page) == page,
        page < 0 ==> message_page(page) == DEFAULT_MESSAGE_PAGE,
{
}

/// A node makes itself known under the address on which it listens and under no other, and always
/// logs.
pub proof fn law_config_is_complete<N>(
    network: Result<N, ErrorView>,
    public_address: Option<Seq<u8>>,
    datastore_path: Option<Seq<u8>>,
    log_path: Option<Seq<u8>>,
)
    requires
        assembled(network, public_address, datastore_path, log_path) is Ok,
    ensures
        ({
            let config = assembled(network, public_address, datastore_path, log_path)->Ok_0;
            &&& config.public_addresses == seq![config.listener_address]
            &&& config.log_path is Some
            &&& Ok::<N, ErrorView>(config.network) == network
        }),
{
}

/// No configuration is made from arguments of which one is missing.
pub proof fn law_config_needs_every_argument<N>(
    network: Result<N, ErrorView>,
    public_address: Option<Seq<u8>>,
    datastore_path: Option<Seq<u8>>,
    log_path: Option<Seq<u8>>,
)
    requires
        network is Err || public_address is None || datastore_path is None || log_path is None,
    ensures
        assembled(network, public_address, datastore_path, log_path) is Err,
{
}

/// What comes of making a configuration depends on the arguments alone: two calls with the same ones
/// end alike, whatever the error slot held before. The parser must read any one text in one way.
pub proof fn law_config_is_repeatable<N, F: Fn(&str) -> Result<N, String>>(
    network_str: Option<Seq<u8>>,
    public_address: Option<Seq<u8>>,
    datastore_path: Option<Seq<u8>>,
    log_path: Option<Seq<u8>>,
    parse_network: F,
    codes: ErrorCodes,
    one: (Option<ConfigView<N>>, i32),
    other: (Option<ConfigView<N>>, i32),
)
    requires
        reads_alike(parse_network),
        config_made(network_str, public_address, datastore_path, log_path, parse_network, codes, one.0, one.1),
        config_made(network_str, public_address, datastore_path, log_path, parse_network, codes, other.0, other.1),
    ensures
        one == other,
{
}

/// A configuration is handed out exactly if the error slot is left at zero.
pub proof fn law_config_or_error<N, F: Fn(&str) -> Result<N, String>>(
    network_str: Option<Seq<u8>>,
    public_address: Option<Seq<u8>>,
    datastore_path: Option<Seq<u8>>,
    log_path: Option<Seq<u8>>,
    parse_network: F,
    codes: ErrorCodes,
    made: Option<ConfigView<N>>,
    slot: i32,
)
    requires
        codes.well_formed(),
        config_made(network_str, public_address, datastore_path, log_path, parse_network, codes, made, slot),
    ensures
        slot == 0 <==> made is Some,
{
}

/// An address that is written out and read in again is the same, as long as the parser reads it back
/// from its text.
pub proof fn law_address_is_kept<A, F: Fn(&str) -> Result<A, String>>(
    written: A,
    text: Seq<char>,
    parse: F,
    codes: ErrorCodes,
    address: Option<A>,
    slot: i32,
)
    requires
        forall|s: &str, parsed: Result<A, String>|
            s@ == text && #[trigger] call_ensures(parse, (s,), parsed) ==> parsed == Ok::<A, String>(written),
        address_made(encode_utf8(text), parse, codes, address, slot),
    ensures
        address == Some(written),
        slot == 0,
{
    law_text_is_kept(text, Seq::empty());
}

/// How many events a start can still wait for.
pub open spec fn events_left<'a, I>(state: StartupState<'a, I>) -> nat {
    match state {
        StartupState::Logging { .. } => 4,
        StartupState::Identity => 3,
        StartupState::Runtime { .. } => 2,
        StartupState::Client => 1,
        StartupState::Finished => 0,
    }
}

/// How the work that a start asks for goes.
#[verifier::reject_recursive_types(I)]
#[verifier::reject_recursive_types(R)]
pub struct World<I, R, C> {
    /// Setting up logging: whether logging goes to the file, or why the file cannot be used.
    pub logged: Result<bool, String>,
    /// Reading the identity file.
    pub read: Result<Option<I>, String>,
    /// Creating the runtime.
    pub created: Result<R, String>,
    /// Starting the client with an identity and a runtime.
    pub started: spec_fn(I, R) -> Result<C, String>,
}

/// How an action goes.
pub open spec fn answer<I, R, C>(world: World<I, R, C>, action: ActionView<I, R, C>) -> StartupEvent<I, R, C>
    recommends
        !(action is HandOut) && !(action is GiveUp),
{
    match action {
        ActionView::InitLogging(_) => match world.logged {
            Ok(installed) => StartupEvent::LoggingReady { installed },
            Err(e) => StartupEvent::LoggingFailed(e),
        },
        ActionView::LoadIdentity(_) => StartupEvent::IdentityRead(world.read),
        ActionView::CreateRuntime => StartupEvent::RuntimeCreated(world.created),
        ActionView::StartClient { identity, runtime } => StartupEvent::ClientStarted(
            (world.started)(identity, runtime),
        ),
        _ => arbitrary(),
    }
}

/// The action is one whose outcome the state waits for.
pub open spec fn in_step<'a, I, R, C>(turn: Turn<'a, I, R, C>) -> bool {
    match turn.state {
        StartupState::Logging { .. } => turn.action is InitLogging,
        StartupState::Identity => turn.action is LoadIdentity,
        StartupState::Runtime { .. } => turn.action is CreateRuntime,
        StartupState::Client => turn.action is StartClient,
        StartupState::Finished => turn.action is HandOut || turn.action is GiveUp,
    }
}

/// A client whose configuration names a log file has logging to that file set up before anything
/// else is asked for.
pub proof fn law_logging_comes_first<'a, I, R, C>(
    config: &StartupConfig<'a>,
    identity_file_path: Option<&'a [u8]>,
    codes: ErrorCodes,
)
    requires
        config.log_path is Some,
    ensures
        ({
            let turn = first_turn::<I, R, C>(Some(config), identity_file_path, codes);
            &&& turn.action == ActionView::<I, R, C>::InitLogging(config.log_path->0@)
            &&& turn.state matches StartupState::Logging { identity_file_path: kept } && kept == identity_file_path
            &&& turn.slot == 0
        }),
{
}

/// A start begins with state and action in step.
pub proof fn law_start_begins_in_step<'a, I, R, C>(
    config: Option<&StartupConfig<'a>>,
    identity_file_path: Option<&'a [u8]>,
    codes: ErrorCodes,
)
    ensures
        in_step(first_turn::<I, R, C>(config, identity_file_path, codes)),
{
}

/// State and action stay in step: the outcome of an action is always an event that the state waits
/// for, and with every event fewer are left to wait for. So a start comes to an end.
pub proof fn law_start_stays_in_step<'a, I, R, C>(turn: Turn<'a, I, R, C>, world: World<I, R, C>, codes: ErrorCodes)
    requires
        in_step(turn),
        !(turn.state is Finished),
    ensures
        awaits(turn.state, answer(world, turn.action)),
        in_step(next_turn(turn.state, answer(world, turn.action), codes)),
        events_left(next_turn(turn.state, answer(world, turn.action), codes).state) < events_left(turn.state),
{
}

/// What a start comes to from `turn` on: the client that is handed out, if one is, and what is left
/// in the error slot.
pub open spec fn settled<'a, I, R, C>(
    turn: Turn<'a, I, R, C>,
    world: World<I, R, C>,
    codes: ErrorCodes,
) -> (Option<C>, i32)
    recommends
        in_step(turn),
    decreases events_left(turn.state),
    when in_step(turn)
{
    if turn.state is Finished {
        (
            match turn.action {
                ActionView::HandOut(client) => Some(client),
                _ => None,
            },
            turn.slot,
        )
    } else {
        settled(next_turn(turn.state, answer(world, turn.action), codes), world, codes)
    }
}

/// A client is handed out exactly if there is a configuration, the log file can be used where the
/// configuration names one, the path of the identity file is there and is text, the file holds an
/// identity, the runtime can be created, and the client comes up on it with that identity. The
/// first of these that fails is what the error slot tells. Whether the process logged before, and
/// what the slot held before, has no bearing.
pub proof fn law_start_settles<'a, I, R, C>(
    config: Option<&StartupConfig<'a>>,
    identity_file_path: Option<&'a [u8]>,
    world: World<I, R, C>,
    codes: ErrorCodes,
)
    ensures
        settled(first_turn(config, identity_file_path, codes), world, codes) == (if config is None {
            (None::<C>, codes.null_error)
        } else if config->0.log_path is Some && world.logged is Err {
            (None, codes.invalid_argument)
        } else if identity_file_path is None {
            (None, codes.null_error)
        } else if text_of(identity_file_path->0@) is Err {
            (None, codes.invalid_argument)
        } else if !(world.read matches Ok(Some(_))) {
            (None, codes.invalid_argument)
        } else if world.created is Err {
            (None, codes.tokio_error)
        } else {
            match (world.started)(world.read->Ok_0->0, world.created->Ok_0) {
                Ok(client) => (Some(client), 0),
                Err(_) => (None, codes.null_error),
            }
        }),
{
    reveal_with_fuel(settled, 5);
}

/// A start that hands out no client says so in the error slot, and only such a start does.
pub proof fn law_no_client_means_error<'a, I, R, C>(
    config: Option<&StartupConfig<'a>>,
    identity_file_path: Option<&'a [u8]>,
    world: World<I, R, C>,
    codes: ErrorCodes,
)
    requires
        codes.well_formed(),
    ensures
        ({
            let end = settled(first_turn(config, identity_file_path, codes), world, codes);
            &&& end.0 is None <==> end.1 != 0
            &&& end.1 >= 0
        }),
{
    law_start_settles(config, identity_file_path, world, codes);
}

/// Two starts from one configuration take the same first turn, whatever the error slot held before.
/// A start only looks at the configuration, so the second finds it as the first did.
pub proof fn law_prior_slot_is_ignored<'a, I, R, C>(
    config: Option<&StartupConfig<'a>>,
    identity_file_path: Option<&'a [u8]>,
    codes: ErrorCodes,
    one: (StartupState<'a, I>, StartupAction<'a, I, R, C>),
    one_slot: i32,
    other: (StartupState<'a, I>, StartupAction<'a, I, R, C>),
    other_slot: i32,
)
    requires
        turn_of(one, one_slot) == first_turn::<I, R, C>(config, identity_file_path, codes),
        turn_of(other, other_slot) == first_turn::<I, R, C>(config, identity_file_path, codes),
    ensures
        one.0 == other.0,
        one.1@ == other.1@,
        one_slot == other_slot,
{
}

/// That the process logs already is no error: a start goes on as if its own log file had been taken.
pub proof fn law_earlier_logging_is_no_error<'a, I, R, C>(
    identity_file_path: Option<&'a [u8]>,
    installed: bool,
    codes: ErrorCodes,
)
    ensures
        next_turn::<I, R, C>(
            StartupState::Logging { identity_file_path },
            StartupEvent::LoggingReady { installed },
            codes,
        ) == identity_turn::<I, R, C>(identity_file_path, codes),
{
}

/// Setting up logging to one path twice prepares the same file both times, and leaves no error.
pub proof fn law_set_up_is_repeatable(
    log_path: Seq<u8>,
    codes: ErrorCodes,
    one: Result<LogFile, String>,
    one_slot: i32,
    other: Result<LogFile, String>,
    other_slot: i32,
)
    requires
        logging_prepared(log_path, codes, one, one_slot),
        logging_prepared(log_path, codes, other, other_slot),
        one is Ok,
        other is Ok,
    ensures
        one->Ok_0.path@ == other->Ok_0.path@,
        one->Ok_0.policy == other->Ok_0.policy,
        one->Ok_0.builder == other->Ok_0.builder,
        one_slot == 0,
        other_slot == 0,
{
}

/// Logging that cannot be set up is reported, and only such logging is.
pub proof fn law_failed_logging_is_reported(
    log_path: Seq<u8>,
    codes: ErrorCodes,
    file: Result<LogFile, String>,
    slot: i32,
)
    requires
        codes.well_formed(),
        logging_prepared(log_path, codes, file, slot),
    ensures
        file is Err <==> slot != 0,
        text_of(log_path) is Err ==> slot != 0,
{
}

/// The rank of a level: the higher, the less important.
pub open spec fn rank(level: Level) -> nat {
    match level {
        Level::Off => 0,
        Level::Error => 1,
        Level::Warn => 2,
        Level::Info => 3,
        Level::Debug => 4,
        Level::Trace => 5,
    }
}

/// A record of this level passes where `threshold` is set.
pub open spec fn passes(threshold: Level, level: Level) -> bool {
    !(level is Off) && rank(level) <= rank(threshold)
}

/// The appenders that a record under `logger` goes to. `inherited` are those of its parents, which an
/// additive logger writes to as well.
pub open spec fn destinations(logger: LoggerView, inherited: Seq<Seq<char>>) -> Seq<Seq<char>> {
    if logger.additive {
        logger.appenders + inherited
    } else {
        logger.appenders
    }
}

/// The root of a configuration, as a logger. It has no parents.
pub open spec fn root_of(config: Config) -> LoggerView {
    LoggerView {
        name: Seq::empty(),
        level: config_root_level(config),
        appenders: config_root_appenders(config),
        additive: false,
    }
}

/// Under the client's logging configuration a record is written exactly if it is a warning or an
/// error, and then to the log file and once, whichever logger it falls under and whatever that
/// logger's parents write to.
pub proof fn law_record_is_written_once(
    config: Config,
    log_file: RollingFileAppender,
    logger: LoggerView,
    inherited: Seq<Seq<char>>,
    level: Level,
)
    requires
        client_logging(config, log_file),
        logger == root_of(config) || config_loggers(config).contains(logger),
    ensures
        passes(logger.level, level) <==> level is Warn || level is Error,
        destinations(logger, inherited) == seq!["logfile"@],
        config_appenders(config) == seq![("logfile"@, log_file)],
{
}

/// Every archive pattern has the marker that stands for the index of an archived file.
pub proof fn law_archives_are_numbered(path: Seq<char>)
    ensures
        has_marker(archive_pattern(path)),
{
    reveal_strlit("{}");
    reveal_strlit(".{}.");
    let pattern = archive_pattern(path);
    if path.contains('.') {
        lemma_has_last_dot(path);
        let dot = choose|dot: int| last_dot(path, dot);
        assert(pattern[dot + 1] == '{');
        assert(pattern[(dot + 1) + 1] == '}');
    } else {
        assert(pattern[path.len() as int] == '{');
        assert(pattern[path.len() as int + 1] == '}');
    }
}

/// Parts of a text, put together again with a dot between any two.
pub open spec fn dotted(parts: Seq<Seq<char>>) -> Seq<char>
    decreases parts.len(),
{
    if parts.len() == 0 {
        Seq::empty()
    } else if parts.len() == 1 {
        parts[0]
    } else {
        dotted(parts.drop_last()) + "."@ + parts.last()
    }
}

/// The archive pattern of a path has the parts of the path, between its dots, with the marker as a
/// part of its own before the last. The marker joins the only part of a path without dots.
pub proof fn law_archive_pattern_by_parts(parts: Seq<Seq<char>>)
    requires
        parts.len() > 0,
        forall|i: int| 0 <= i < parts.len() ==> !(#[trigger] parts[i]).contains('.'),
    ensures
        parts.len() == 1 ==> archive_pattern(dotted(parts)) == parts[0] + "{}"@,
        parts.len() > 1 ==> archive_pattern(dotted(parts)) == dotted(
            parts.drop_last().push("{}"@).push(parts.last()),
        ),
{
    reveal_strlit(".");
    reveal_strlit("{}");
    reveal_strlit(".{}.");
    let path = dotted(parts);
    if parts.len() == 1 {
        assert(!parts[0].contains('.'));
    } else {
        let head = dotted(parts.drop_last());
        let last = parts.last();
        let dot = head.len() as int;
        assert(!parts[parts.len() - 1].contains('.'));
        assert(path[dot] == '.');
        assert forall|i: int| dot < i < path.len() implies path[i] != '.' by {
            assert(path[i] == last[i - dot - 1]);
            assert(last.contains(last[i - dot - 1]));
        }
        assert(last_dot(path, dot));
        lemma_last_dot_unique(path, dot, choose|d: int| last_dot(path, d));
        assert(path.contains('.'));
        assert(path.take(dot) =~= head);
        assert(path.skip(dot + 1) =~= last);
        let marked = parts.drop_last().push("{}"@).push(last);
        assert(marked.drop_last() =~= parts.drop_last().push("{}"@));
        assert(marked.drop_last().drop_last() =~= parts.drop_last());
        assert(dotted(marked.drop_last()) == head + "."@ + "{}"@);
        assert(dotted(marked) == dotted(marked.drop_last()) + "."@ + last);
        assert(dotted(marked) =~= head + ".{}."@ + last);
    }
}

/// Two log files share no archive pattern.
pub proof fn law_archive_patterns_differ(a: Seq<char>, b: Seq<char>)
    requires
        archive_pattern(a) == archive_pattern(b),
    ensures
        a == b,
{
    reveal_strlit("{}");
    reveal_strlit(".{}.");
    let pattern = archive_pattern(a);
    if a.contains('.') && b.contains('.') {
        lemma_has_last_dot(a);
        lemma_has_last_dot(b);
        let i = choose|dot: int| last_dot(a, dot);
        let j = choose|dot: int| last_dot(b, dot);
        lemma_pattern_last_dot(a, i);
        lemma_pattern_last_dot(b, j);
        lemma_last_dot_unique(pattern, i + 3, j + 3);
        assert(a.take(i) =~= pattern.take(i));
        assert(b.take(i) =~= pattern.take(i));
        assert(a.skip(i + 1) =~= pattern.skip(i + 4));
        assert(b.skip(i + 1) =~= pattern.skip(i + 4));
        assert(a =~= a.take(i) + seq!['.'] + a.skip(i + 1));
        assert(b =~= b.take(i) + seq!['.'] + b.skip(i + 1));
    } else if a.contains('.') {
        lemma_has_last_dot(a);
        lemma_pattern_last_dot(a, choose|dot: int| last_dot(a, dot));
        lemma_dotless_pattern(b);
    } else if b.contains('.') {
        lemma_has_last_dot(b);
        lemma_pattern_last_dot(b, choose|dot: int| last_dot(b, dot));
        lemma_dotless_pattern(a);
    } else {
        assert(a =~= pattern.take(pattern.len() - 2));
        assert(b =~= pattern.take(pattern.len() - 2));
    }
}

/// The name of an archived file: every marker of the pattern is replaced by the index.
pub open spec fn archive_name(pattern: Seq<char>, index: Seq<char>) -> Seq<char>
    decreases pattern.len(),
{
    if pattern.len() < 2 {
        pattern
    } else if pattern[0] == '{' && pattern[1] == '}' {
        index + archive_name(pattern.skip(2), index)
    } else {
        pattern.take(1) + archive_name(pattern.skip(1), index)
    }
}

/// A log file is never put away under its own name.
pub proof fn law_archive_is_not_the_log(path: Seq<char>, index: Seq<char>)
    requires
        index.len() > 0,
        forall|i: int| 0 <= i < index.len() ==> '0' <= #[trigger] index[i] <= '9',
    ensures
        archive_name(archive_pattern(path), index) != path,
{
    reveal_strlit("{}");
    reveal_strlit(".{}.");
    let pattern = archive_pattern(path);
    if has_marker(path) {
        lemma_archive_name_unmarked(pattern, index);
    } else if path.contains('.') {
        lemma_has_last_dot(path);
        let dot = choose|dot: int| last_dot(path, dot);
        assert forall|i: int| 0 <= i < pattern.len() - 1 && i != dot + 1 implies !(pattern[i] == '{'
            && #[trigger] pattern[i + 1] == '}') by {
            if i + 1 < dot {
                assert(path[i] == pattern[i] && path[i + 1] == pattern[i + 1]);
            } else if i >= dot + 4 {
                assert(path[i - 3] == pattern[i] && path[(i - 3) + 1] == pattern[i + 1]);
            }
        }
        lemma_one_marker(pattern, dot + 1, index);
    } else {
        let n = path.len() as int;
        assert forall|i: int| 0 <= i < pattern.len() - 1 && i != n implies !(pattern[i] == '{'
            && #[trigger] pattern[i + 1] == '}') by {
            if i + 1 < n {
                assert(path[i] == pattern[i] && path[i + 1] == pattern[i + 1]);
            }
        }
        lemma_one_marker(pattern, n, index);
    }
}

/// No marker is left in the name of an archived file.
proof fn lemma_archive_name_unmarked(pattern: Seq<char>, index: Seq<char>)
    requires
        index.len() > 0,
        forall|i: int| 0 <= i < index.len() ==> '0' <= #[trigger] index[i] <= '9',
    ensures
        !has_marker(archive_name(pattern, index)),
        archive_name(pattern, index).len() > 0 && archive_name(pattern, index)[0] == '}' ==> pattern.len() > 0
            && pattern[0] == '}',
    decreases pattern.len(),
{
    let name = archive_name(pattern, index);
    if pattern.len() < 2 {
    } else if pattern[0] == '{' && pattern[1] == '}' {
        let rest = archive_name(pattern.skip(2), index);
        lemma_archive_name_unmarked(pattern.skip(2), index);
        assert(name[0] == index[0]);
        assert forall|i: int| 0 <= i < name.len() - 1 implies !(name[i] == '{' && #[trigger] name[i + 1] == '}') by {
            if i < index.len() {
                assert(name[i] == index[i]);
            } else {
                let j = i - index.len();
                assert(name[i] == rest[j] && name[i + 1] == rest[j + 1]);
            }
        }
    } else {
        let rest = archive_name(pattern.skip(1), index);
        lemma_archive_name_unmarked(pattern.skip(1), index);
        assert(name[0] == pattern[0]);
        assert forall|i: int| 0 <= i < name.len() - 1 implies !(name[i] == '{' && #[trigger] name[i + 1] == '}') by {
            if i == 0 {
                assert(name[1] == rest[0]);
                assert(pattern.skip(1)[0] == pattern[1]);
            } else {
                let j = i - 1;
                assert(name[i] == rest[j] && name[i + 1] == rest[j + 1]);
            }
        }
    }
}

/// A pattern with one marker, or none, gives a name in which the marker, if there is one, has made
/// way for the index.
proof fn lemma_one_marker(pattern: Seq<char>, at: int, index: Seq<char>)
    requires
        at + 1 < pattern.len(),
        at >= 0 ==> pattern[at] == '{' && pattern[at + 1] == '}',
        forall|i: int| 0 <= i < pattern.len() - 1 && i != at ==> !(pattern[i] == '{' && #[trigger] pattern[i + 1] == '}'),
    ensures
        archive_name(pattern, index).len() == if at >= 0 { pattern.len() - 2 + index.len() } else { pattern.len() as int },
    decreases pattern.len(),
{
    if pattern.len() >= 2 {
        let step: int = if at == 0 { 2 } else { 1 };
        let rest = pattern.skip(step);
        assert(pattern[0int + 1] == pattern[1]);
        assert forall|i: int| 0 <= i < rest.len() - 1 && i != at - step implies !(rest[i] == '{' && #[trigger] rest[i
            + 1] == '}') by {
            assert(rest[i] == pattern[i + step] && rest[i + 1] == pattern[(i + step) + 1]);
        }
        if at < 0 {
            lemma_one_marker(rest, -1, index);
        } else if at == 0 {
            lemma_one_marker(rest, -2, index);
        } else {
            lemma_one_marker(rest, at - 1, index);
        }
    }
}

proof fn lemma_pattern_last_dot(path: Seq<char>, dot: int)
    requires
        last_dot(path, dot),
    ensures
        last_dot(archive_pattern(path), dot + 3),
{
    reveal_strlit(".{}.");
    assert(path.contains('.')) by {
        assert(path[dot] == '.');
    }
    lemma_last_dot_unique(path, dot, choose|d: int| last_dot(path, d));
    let pattern = archive_pattern(path);
    assert forall|i: int| dot + 3 < i < pattern.len() implies pattern[i] != '.' by {
        assert(pattern[i] == path[i - 3]);
    }
}

proof fn lemma_dotless_pattern(path: Seq<char>)
    requires
        !path.contains('.'),
    ensures
        forall|dot: int| !last_dot(archive_pattern(path), dot),
{
    reveal_strlit("{}");
    let pattern = archive_pattern(path);
    assert forall|dot: int| !last_dot(pattern, dot) by {
        if last_dot(pattern, dot) {
            if dot < path.len() {
                assert(path[dot] == '.');
            }
        }
    }
}

} // verus!

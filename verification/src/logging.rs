//! How the client logs: one rolling file, and one level for every part of the program.

use crate::archive::{archive_pattern, last_dot, lemma_has_last_dot, pattern_for};
use crate::error::ErrorCodes;
use crate::laws::law_archives_are_numbered;
use crate::log_backend::{
    behind_slashes, build_config, builder_appenders, builder_loggers, config_appenders,
    config_loggers, config_root_appenders, config_root_level, consistent, ends_at,
    line_appender, may_be_gzip, may_have_prefix, new_line_appender, new_policy, size_rolling_policy,
    valid_logger_name, with_appender, with_logger, Level, LoggerView,
};
use crate::text::{read_text, text_of};
use log4rs::append::rolling_file::policy::compound::CompoundPolicy;
use log4rs::append::rolling_file::{RollingFileAppender, RollingFileAppenderBuilder};
use log4rs::config::Config;
use vstd::prelude::*;

verus! {

/// How many full log files are kept.
pub const NUM_ROLLING_LOG_FILES: u32 = 2;

/// The size above which a log file is full.
pub const SIZE_PER_LOG_FILE_BYTES: u64 = 10 * 1024 * 1024;

/// What it takes to open the log file.
pub struct LogFile {
    /// Where the file is.
    pub path: String,
    /// Writes lines in the client's format, after those that are there already.
    pub builder: RollingFileAppenderBuilder,
    /// Puts the file away when it is full.
    pub policy: CompoundPolicy,
}

/// Time, target, level and message of a line.
pub open spec fn line_format() -> Seq<char> {
    "{d(%Y-%m-%d %H:%M:%S.%f)} [{t}] {l:5} {m}{n}"@
}

/// The path is one of a compressed file: it ends in `.gz`, or has nothing but separators behind that.
pub open spec fn may_be_compressed(path: Seq<char>) -> bool {
    exists|end: int| #[trigger]
        ends_at(path, end, ".gz"@) && forall|i: int|
            end <= i < path.len() ==> path[i] == '/' || path[i] == '\\'
}

/// `file` and `slot` are what may come of preparing the log file at `log_path`.
pub open spec fn logging_prepared(
    log_path: Seq<u8>,
    codes: ErrorCodes,
    file: Result<LogFile, String>,
    slot: i32,
) -> bool {
    &&& slot == if file is Ok {
        0
    } else {
        codes.invalid_argument
    }
    &&& match text_of(log_path) {
        Err(e) => file is Err && file->Err_0@ == e,
        Ok(path) => {
            &&& !may_be_compressed(path) ==> file is Ok
            &&& behind_slashes(path, ".gz"@) && !may_have_prefix(path) ==> file is Err
            &&& file matches Ok(f) ==> {
                &&& f.path@ == path
                &&& f.policy == size_rolling_policy(
                    SIZE_PER_LOG_FILE_BYTES,
                    archive_pattern(path),
                    NUM_ROLLING_LOG_FILES,
                )
                &&& f.builder == line_appender(line_format(), true)
            }
            &&& file matches Err(e) ==> e@ == "gzip compression requires the `gzip` feature"@
        },
    }
}

/// Prepares the log file at `log_path`, and tells in the error slot whether it can be used.
///
/// A path that is no text is refused. So is one that ends in `.gz`, with or without slashes behind
/// it, because archives are not compressed. Every other path is accepted, save perhaps one that
/// ends in `.gz` and has backslashes behind it or two separators in front.
pub fn init_logging(log_path: &[u8], error_out: &mut i32, codes: &ErrorCodes) -> (file: Result<
    LogFile,
    String,
>)
    ensures
        logging_prepared(log_path@, *codes, file, *final(error_out)),
{
    let path = match read_text(log_path) {
        Ok(path) => path,
        Err(e) => {
            *error_out = codes.invalid_argument;
            return Err(e);
        },
    };
    let format = "{d(%Y-%m-%d %H:%M:%S.%f)} [{t}] {l:5} {m}{n}";
    proof {
        reveal_strlit("{d(%Y-%m-%d %H:%M:%S.%f)} [{t}] {l:5} {m}{n}");
    }
    let builder = new_line_appender(format, true);
    let pattern = pattern_for(path);
    proof {
        law_archives_are_numbered(path@);
        if !may_be_compressed(path@) {
            lemma_pattern_not_gzip(path@);
        }
        if behind_slashes(path@, ".gz"@) && !may_have_prefix(path@) {
            lemma_pattern_gzip(path@);
        }
    }
    match new_policy(SIZE_PER_LOG_FILE_BYTES, pattern.as_str(), NUM_ROLLING_LOG_FILES) {
        Ok(policy) => {
            *error_out = 0;
            Ok(LogFile { path: path.to_owned(), builder, policy })
        },
        Err(e) => {
            *error_out = codes.invalid_argument;
            Err(e)
        },
    }
}

/// The pattern of a path takes on the extension `gz` from the path alone.
proof fn lemma_pattern_not_gzip(path: Seq<char>)
    requires
        !may_be_compressed(path),
    ensures
        !may_be_gzip(archive_pattern(path)),
{
    reveal_strlit("{}");
    reveal_strlit(".{}.");
    reveal_strlit(".gz");
    let pattern = archive_pattern(path);
    if may_be_gzip(pattern) {
        let end = choose|end: int| #[trigger]
            ends_at(pattern, end, ".gz"@) && forall|i: int|
                end <= i < pattern.len() ==> pattern[i] == '/' || pattern[i] == '\\' || pattern[i] == '.';
        let part = pattern.subrange(end - 3, end);
        assert(part[0] == pattern[end - 3] && part[1] == pattern[end - 2] && part[2] == pattern[end - 1]);
        assert(pattern[end - 3] == '.' && pattern[end - 2] == 'g' && pattern[end - 1] == 'z');
        if path.contains('.') {
            lemma_has_last_dot(path);
            let dot = choose|dot: int| last_dot(path, dot);
            assert(pattern[dot + 2] == '}');
            assert(pattern[dot + 3] == '.');
            assert(end > dot + 4);
            assert forall|i: int| dot + 4 <= i < pattern.len() implies pattern[i] == path[i - 3] by {}
            assert(end == dot + 6);
            assert(path.subrange(dot, dot + 3) =~= ".gz"@);
            assert(ends_at(path, dot + 3, ".gz"@));
            assert forall|i: int| dot + 3 <= i < path.len() implies path[i] == '/' || path[i] == '\\' by {
                assert(pattern[i + 3] == path[i]);
            }
            assert(may_be_compressed(path));
        } else {
            assert(pattern[path.len() as int + 1] == '}');
        }
    }
}

/// The pattern of a path that ends in `.gz` ends so too, right behind the marker. The marker does not
/// put separators at the front.
proof fn lemma_pattern_gzip(path: Seq<char>)
    requires
        behind_slashes(path, ".gz"@),
        !may_have_prefix(path),
    ensures
        behind_slashes(archive_pattern(path), "{}.gz"@),
        !may_have_prefix(archive_pattern(path)),
{
    reveal_strlit(".{}.");
    reveal_strlit(".gz");
    reveal_strlit("{}.gz");
    let end = choose|end: int| #[trigger]
        ends_at(path, end, ".gz"@) && forall|i: int| end <= i < path.len() ==> path[i] == '/';
    let part = path.subrange(end - 3, end);
    assert(part[0] == path[end - 3] && part[1] == path[end - 2] && part[2] == path[end - 1]);
    assert(last_dot(path, end - 3));
    let dot = choose|dot: int| last_dot(path, dot);
    assert(dot == end - 3);
    let pattern = archive_pattern(path);
    assert(pattern.subrange(end - 2, end + 3) =~= "{}.gz"@);
    assert(ends_at(pattern, end + 3, "{}.gz"@));
    assert forall|i: int| end + 3 <= i < pattern.len() implies pattern[i] == '/' by {
        assert(pattern[i] == path[i - 3]);
    }
}

/// The parts of the program that log, in the order in which they are set up.
pub open spec fn logger_names() -> Seq<Seq<char>> {
    seq![
        "comms"@,
        "comms::noise"@,
        "tokio_util"@,
        "tracing"@,
        "chat_ffi::callback_handler"@,
        "chat_ffi"@,
        "contacts"@,
        "p2p"@,
        "yamux"@,
        "dht"@,
        "mio"@,
    ]
}

/// A logger for each part of the program: it lets warnings pass, to the log file and nowhere else.
pub open spec fn client_loggers() -> Seq<LoggerView> {
    logger_names().map_values(
        |name: Seq<char>|
            LoggerView { name, level: Level::Warn, appenders: seq!["logfile"@], additive: false },
    )
}

/// All parts of the program, and the root, write their warnings to `log_file`.
pub open spec fn client_logging(config: Config, log_file: RollingFileAppender) -> bool {
    &&& config_appenders(config) == seq![("logfile"@, log_file)]
    &&& config_loggers(config) == client_loggers()
    &&& config_root_appenders(config) == seq!["logfile"@]
    &&& config_root_level(config) == Level::Warn
}

fn client_logger_names() -> (names: Vec<&'static str>)
    ensures
        names@.map_values(|name: &'static str| name@) == logger_names(),
{
    let names: Vec<&'static str> = vec![
        "comms",
        "comms::noise",
        "tokio_util",
        "tracing",
        "chat_ffi::callback_handler",
        "chat_ffi",
        "contacts",
        "p2p",
        "yamux",
        "dht",
        "mio",
    ];
    assert(names@.map_values(|name: &'static str| name@) =~= logger_names());
    names
}

/// The names of the loggers are valid and pairwise distinct.
proof fn lemma_logger_names()
    ensures
        forall|i: int| 0 <= i < logger_names().len() ==> valid_logger_name(#[trigger] logger_names()[i]),
        forall|i: int, j: int|
            0 <= i < j < logger_names().len() ==> #[trigger] logger_names()[i] != #[trigger] logger_names()[j],
{
    reveal_strlit("comms");
    reveal_strlit("comms::noise");
    reveal_strlit("tokio_util");
    reveal_strlit("tracing");
    reveal_strlit("chat_ffi::callback_handler");
    reveal_strlit("chat_ffi");
    reveal_strlit("contacts");
    reveal_strlit("p2p");
    reveal_strlit("yamux");
    reveal_strlit("dht");
    reveal_strlit("mio");
    assert("comms"@[0] != "yamux"@[0]);
    assert("chat_ffi"@[1] != "contacts"@[1]);
    assert("p2p"@[0] != "dht"@[0]);
    assert("p2p"@[0] != "mio"@[0]);
    assert("dht"@[0] != "mio"@[0]);
    let names = logger_names();
    assert forall|i: int, j: int| 0 <= i < j < names.len() implies #[trigger] names[i]
        != #[trigger] names[j] by {
        assert(names[i].len() != names[j].len() || names[i][0] != names[j][0] || names[i][1]
            != names[j][1]);
    }
}

/// The configuration under which all parts of the program write their warnings to the open log
/// file. It is always accepted.
pub fn logging_config(log_file: RollingFileAppender) -> (config: Config)
    ensures
        client_logging(config, log_file),
{
    let names = client_logger_names();
    let mut builder = with_appender(Config::builder(), "logfile", log_file);
    let mut i: usize = 0;
    while i < names.len()
        invariant
            i <= names.len(),
            names@.map_values(|name: &'static str| name@) == logger_names(),
            builder_appenders(builder) == seq![("logfile"@, log_file)],
            builder_loggers(builder) == client_loggers().take(i as int),
        decreases names.len() - i,
    {
        assert(names@.map_values(|name: &'static str| name@)[i as int] == names[i as int]@);
        builder = with_logger(builder, names[i], Level::Warn, "logfile", false);
        i = i + 1;
        assert(client_loggers().take(i as int) =~= client_loggers().take(i - 1).push(client_loggers()[i - 1]));
    }
    proof {
        lemma_logger_names();
        assert(client_loggers().take(i as int) =~= client_loggers());
        assert(builder_appenders(builder)[0].0 == "logfile"@);
        assert(consistent(builder_appenders(builder), client_loggers(), seq!["logfile"@]));
    }
    build_config(builder, "logfile", Level::Warn).unwrap()
}

} // verus!

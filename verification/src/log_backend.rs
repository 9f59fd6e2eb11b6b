//! The calls into `log4rs`, and what is claimed of them.

use log::LevelFilter;
use log4rs::append::rolling_file::policy::compound::roll::fixed_window::FixedWindowRoller;
use log4rs::append::rolling_file::policy::compound::trigger::size::SizeTrigger;
use log4rs::append::rolling_file::policy::compound::CompoundPolicy;
use log4rs::append::rolling_file::{RollingFileAppender, RollingFileAppenderBuilder};
use log4rs::config::runtime::{ConfigBuilder, ConfigErrors};
use log4rs::config::{Appender, Config, Logger, Root};
use log4rs::encode::pattern::PatternEncoder;
use vstd::prelude::*;

verus! {

/// Decides when a log file is full, and puts a full one away.
#[verifier::external_type_specification]
#[verifier::external_body]
pub struct ExCompoundPolicy(CompoundPolicy);

/// Knows the line format of a log file, and lacks its path and its policy.
#[verifier::external_type_specification]
#[verifier::external_body]
pub struct ExRollingFileAppenderBuilder(RollingFileAppenderBuilder);

/// An open log file.
#[verifier::external_type_specification]
#[verifier::external_body]
pub struct ExRollingFileAppender(RollingFileAppender);

/// The appenders and loggers gathered for a configuration.
#[verifier::external_type_specification]
#[verifier::external_body]
pub struct ExConfigBuilder(ConfigBuilder);

/// A configuration without inner contradictions.
#[verifier::external_type_specification]
#[verifier::external_body]
pub struct ExConfig(Config);

/// What is wrong with a refused configuration.
#[verifier::external_type_specification]
#[verifier::external_body]
pub struct ExConfigErrors(ConfigErrors);

/// How important a message must be to be written.
#[derive(Debug, Clone, Copy, PartialEq, Eq, Structural)]
pub enum Level {
    Off,
    Error,
    Warn,
    Info,
    Debug,
    Trace,
}

/// A logger: what it is called, what it lets pass, the appenders it writes to, and whether it
/// writes to those of its parents as well.
pub struct LoggerView {
    pub name: Seq<char>,
    pub level: Level,
    pub appenders: Seq<Seq<char>>,
    pub additive: bool,
}

/// The marker that stands for the index of an archived file occurs in `pattern`.
pub open spec fn has_marker(pattern: Seq<char>) -> bool {
    exists|i: int| 0 <= i < pattern.len() - 1 && pattern[i] == '{' && #[trigger] pattern[i + 1] == '}'
}

/// `text` ends in `.gz` once separators and dots at its end are passed over. Every path whose file
/// extension is `gz` has this form, whichever separator the platform uses.
pub open spec fn may_be_gzip(text: Seq<char>) -> bool {
    exists|end: int| #[trigger]
        ends_at(text, end, ".gz"@) && forall|i: int|
            end <= i < text.len() ==> text[i] == '/' || text[i] == '\\' || text[i] == '.'
}

/// `part` occurs in `text` and its last character stands just before `end`.
pub open spec fn ends_at(text: Seq<char>, end: int, part: Seq<char>) -> bool {
    &&& part.len() <= end <= text.len()
    &&& text.subrange(end - part.len(), end) == part
}

/// `text` ends in `part` once slashes at its end are passed over.
pub open spec fn behind_slashes(text: Seq<char>, part: Seq<char>) -> bool {
    exists|end: int| #[trigger]
        ends_at(text, end, part) && forall|i: int| end <= i < text.len() ==> text[i] == '/'
}

/// `text` begins with two separators. Some platforms read the name of a server or of a device out of
/// such a path, and then see no file name in it.
pub open spec fn may_have_prefix(text: Seq<char>) -> bool {
    &&& text.len() >= 2
    &&& text[0] == '/' || text[0] == '\\'
    &&& text[1] == '/' || text[1] == '\\'
}

/// The policy that `CompoundPolicy::new` makes of a size trigger with this limit and a fixed window
/// roller with this pattern and this number of archived files.
pub uninterp spec fn size_rolling_policy(limit: u64, pattern: Seq<char>, count: u32) -> CompoundPolicy;

/// Calls `FixedWindowRoller::builder().build`, then `CompoundPolicy::new` on the roller and on
/// `SizeTrigger::new(limit)`. The claim: the roller is refused where the pattern lacks the index
/// marker, and where its file extension is `gz`, since compression is not compiled in; otherwise
/// the policy depends on the arguments alone. Slashes at the end do not count towards the extension
/// on any platform. What backslashes and two leading separators mean depends on the platform, so
/// whether such a pattern with `.gz` in it has that extension is left unsaid.
#[verifier::external_body]
pub(crate) fn new_policy(limit: u64, pattern: &str, count: u32) -> (policy: Result<CompoundPolicy, String>)
    ensures
        !has_marker(pattern@) ==> policy is Err,
        has_marker(pattern@) && !may_be_gzip(pattern@) ==> policy is Ok,
        behind_slashes(pattern@, "{}.gz"@) && !may_have_prefix(pattern@) ==> policy is Err,
        policy matches Ok(p) ==> p == size_rolling_policy(limit, pattern@, count),
        policy matches Err(e) ==> e@ == (if has_marker(pattern@) {
            "gzip compression requires the `gzip` feature"@
        } else {
            "pattern does not contain `{}`"@
        }),
{
    match FixedWindowRoller::builder().build(pattern, count) {
        Ok(roller) => Ok(CompoundPolicy::new(Box::new(SizeTrigger::new(limit)), Box::new(roller))),
        Err(e) => Err(e.to_string()),
    }
}

/// The builder that `RollingFileAppender::builder` gives once it has an encoder with this line
/// format and this answer to whether an existing file is kept.
pub uninterp spec fn line_appender(format: Seq<char>, append: bool) -> RollingFileAppenderBuilder;

/// Calls `RollingFileAppender::builder`, and sets `append` and a `PatternEncoder::new(format)`. The
/// claim: the builder depends on the arguments alone. A format with a width too large for a
/// machine word, or one nested too deep for the stack, would stop the encoder's parser.
#[verifier::external_body]
pub(crate) fn new_line_appender(format: &str, append: bool) -> (builder: RollingFileAppenderBuilder)
    requires
        format@.len() <= 1000,
        forall|i: int|
            0 <= i < format@.len() - 1 && '0' <= format@[i] <= '9' ==> !('0' <= #[trigger] format@[i
                + 1] <= '9'),
    ensures
        builder == line_appender(format@, append),
{
    RollingFileAppender::builder().encoder(Box::new(PatternEncoder::new(format))).append(append)
}

/// The appenders that a builder has gathered, each under its name.
pub uninterp spec fn builder_appenders(builder: ConfigBuilder) -> Seq<(Seq<char>, RollingFileAppender)>;

/// The loggers that a builder has gathered.
pub uninterp spec fn builder_loggers(builder: ConfigBuilder) -> Seq<LoggerView>;

/// The appenders of a configuration, each under its name.
pub uninterp spec fn config_appenders(config: Config) -> Seq<(Seq<char>, RollingFileAppender)>;

/// The loggers of a configuration.
pub uninterp spec fn config_loggers(config: Config) -> Seq<LoggerView>;

/// The names of the appenders that the root logger of a configuration writes to.
pub uninterp spec fn config_root_appenders(config: Config) -> Seq<Seq<char>>;

/// What the root logger of a configuration lets pass.
pub uninterp spec fn config_root_level(config: Config) -> Level;

/// `Config::builder` starts without appenders and loggers.
pub assume_specification[ Config::builder ]() -> (builder: ConfigBuilder)
    ensures
        builder_appenders(builder) == Seq::<(Seq<char>, RollingFileAppender)>::empty(),
        builder_loggers(builder) == Seq::<LoggerView>::empty(),
;

/// Calls `ConfigBuilder::appender` with what `Appender::builder().build` makes of the name and the
/// open log file. The claim: that appender joins at the end.
#[verifier::external_body]
pub(crate) fn with_appender(builder: ConfigBuilder, name: &str, appender: RollingFileAppender) -> (next: ConfigBuilder)
    ensures
        builder_appenders(next) == builder_appenders(builder).push((name@, appender)),
        builder_loggers(next) == builder_loggers(builder),
{
    builder.appender(Appender::builder().build(name, Box::new(appender)))
}

/// Calls `ConfigBuilder::logger` with what `Logger::builder` makes of the arguments. The claim: that
/// logger, with the one appender given to it, joins at the end.
#[verifier::external_body]
pub(crate) fn with_logger(
    builder: ConfigBuilder,
    name: &str,
    level: Level,
    appender: &str,
    additive: bool,
) -> (next: ConfigBuilder)
    ensures
        builder_appenders(next) == builder_appenders(builder),
        builder_loggers(next) == builder_loggers(builder).push(
            LoggerView { name: name@, level, appenders: seq![appender@], additive },
        ),
{
    let filter = match level {
        Level::Off => LevelFilter::Off,
        Level::Error => LevelFilter::Error,
        Level::Warn => LevelFilter::Warn,
        Level::Info => LevelFilter::Info,
        Level::Debug => LevelFilter::Debug,
        Level::Trace => LevelFilter::Trace,
    };
    builder.logger(Logger::builder().appender(appender).additive(additive).build(name, filter))
}

/// `name` is fit for a logger: it is not empty, and colons come in pairs, never more and never at
/// the end.
pub open spec fn valid_logger_name(name: Seq<char>) -> bool {
    &&& name.len() > 0
    &&& forall|i: int|
        0 <= i < name.len() && #[trigger] name[i] == ':' && (i == 0 || name[i - 1] != ':') ==> i + 2
            < name.len() && name[i + 1] == ':' && name[i + 2] != ':'
}

/// An appender of that name is among `appenders`.
pub open spec fn is_appender(appenders: Seq<(Seq<char>, RollingFileAppender)>, name: Seq<char>) -> bool {
    exists|i: int| 0 <= i < appenders.len() && (#[trigger] appenders[i]).0 == name
}

/// A configuration is free of contradictions: no two appenders and no two loggers share a name,
/// the names of the loggers are valid, and every appender that a logger or the root refers to is
/// there.
pub open spec fn consistent(
    appenders: Seq<(Seq<char>, RollingFileAppender)>,
    loggers: Seq<LoggerView>,
    root_appenders: Seq<Seq<char>>,
) -> bool {
    &&& forall|i: int, j: int|
        0 <= i < j < appenders.len() ==> (#[trigger] appenders[i]).0 != (#[trigger] appenders[j]).0
    &&& forall|i: int, j: int|
        0 <= i < j < loggers.len() ==> (#[trigger] loggers[i]).name != (#[trigger] loggers[j]).name
    &&& forall|i: int| 0 <= i < loggers.len() ==> valid_logger_name((#[trigger] loggers[i]).name)
    &&& forall|i: int, k: int|
        0 <= i < loggers.len() && 0 <= k < loggers[i].appenders.len() ==> is_appender(
            appenders,
            #[trigger] loggers[i].appenders[k],
        )
    &&& forall|k: int|
        0 <= k < root_appenders.len() ==> is_appender(appenders, #[trigger] root_appenders[k])
}

/// Calls `ConfigBuilder::build` with what `Root::builder` makes of the appender and the level. The
/// claim: the configuration is accepted exactly if it is consistent, and then holds what was
/// gathered, with that root.
#[verifier::external_body]
pub(crate) fn build_config(builder: ConfigBuilder, root_appender: &str, root_level: Level) -> (config: Result<Config, ConfigErrors>)
    ensures
        config is Ok <==> consistent(
            builder_appenders(builder),
            builder_loggers(builder),
            seq![root_appender@],
        ),
        config matches Ok(c) ==> {
            &&& config_appenders(c) == builder_appenders(builder)
            &&& config_loggers(c) == builder_loggers(builder)
            &&& config_root_appenders(c) == seq![root_appender@]
            &&& config_root_level(c) == root_level
        },
{
    let filter = match root_level {
        Level::Off => LevelFilter::Off,
        Level::Error => LevelFilter::Error,
        Level::Warn => LevelFilter::Warn,
        Level::Info => LevelFilter::Info,
        Level::Debug => LevelFilter::Debug,
        Level::Trace => LevelFilter::Trace,
    };
    builder.build(Root::builder().appender(root_appender).build(filter))
}

} // verus!

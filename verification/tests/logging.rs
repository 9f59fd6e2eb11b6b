use chat_ffi::archive::pattern_for;
use chat_ffi::error::ErrorCodes;
use chat_ffi::logging::{init_logging, logging_config};
use log::Log;

const CODES: ErrorCodes = ErrorCodes { null_error: 11, invalid_argument: 22, tokio_error: 33 };

#[test]
fn marker_stands_before_the_last_part() {
    assert_eq!(pattern_for("chat.log"), "chat.{}.log");
    assert_eq!(pattern_for("/var/log/chat.log"), "/var/log/chat.{}.log");
    assert_eq!(pattern_for("a.b.c.log"), "a.b.c.{}.log");
}

#[test]
fn marker_ends_a_path_without_dots() {
    assert_eq!(pattern_for("chat"), "chat{}");
    assert_eq!(pattern_for(""), "{}");
}

#[test]
fn dots_at_the_edges_count_as_parts() {
    assert_eq!(pattern_for(".log"), ".{}.log");
    assert_eq!(pattern_for("chat."), "chat.{}.");
    assert_eq!(pattern_for("."), ".{}.");
    assert_eq!(pattern_for("./logs/chat"), ".{}./logs/chat");
    assert_eq!(pattern_for("l\u{f6}g.t\u{e4}g"), "l\u{f6}g.{}.t\u{e4}g");
}

#[test]
fn log_file_rolls_by_size_into_two_archives() {
    let mut error: i32 = 4;
    let file = init_logging(b"/tmp/chat.log", &mut error, &CODES).unwrap();
    assert_eq!(error, 0);
    let policy = format!("{:?}", file.policy);
    assert!(policy.contains("limit: 10485760"), "{}", policy);
    assert!(policy.contains("pattern: \"/tmp/chat.{}.log\""), "{}", policy);
    assert!(policy.contains("count: 2"), "{}", policy);
    assert!(policy.contains("base: 0"), "{}", policy);
}

#[test]
fn lines_have_the_client_format() {
    let mut error: i32 = 0;
    let file = init_logging(b"/tmp/chat.log", &mut error, &CODES).unwrap();
    let log_file = file.builder.build("/dev/null", Box::new(file.policy)).unwrap();
    let shown = format!("{:?}", log_file);
    assert!(shown.contains("append: true"), "{}", shown);
    assert!(shown.contains("{d(%Y-%m-%d %H:%M:%S.%f)} [{t}] {l:5} {m}{n}"), "{}", shown);
}

#[test]
fn compressed_archives_are_refused() {
    let mut error: i32 = 4;
    for path in ["/tmp/chat.gz", ".gz", "chat.gz/", "chat.gz//"] {
        error = 4;
        let refused = init_logging(path.as_bytes(), &mut error, &CODES);
        assert_eq!(refused.err(), Some("gzip compression requires the `gzip` feature".to_string()));
        assert_eq!(error, 22);
    }
    for path in ["/tmp/gz", "/tmp/chat.gz.log", "/tmp/chat.gzip", "gz/", "chat.gz/."] {
        error = 4;
        let file = init_logging(path.as_bytes(), &mut error, &CODES).unwrap();
        assert_eq!(file.path, path);
        assert_eq!(error, 0);
    }
    assert_eq!(error, 0);
}

#[test]
fn log_path_that_is_no_text_is_refused() {
    let mut error: i32 = 0;
    let refused = init_logging(&[0x61, 0xff], &mut error, &CODES);
    assert_eq!(refused.err(), Some("invalid utf-8 sequence of 1 bytes from index 1".to_string()));
    assert_eq!(error, 22);
}

#[test]
fn setting_up_twice_prepares_the_same_file() {
    let mut error: i32 = 3;
    let one = init_logging(b"/tmp/chat.log", &mut error, &CODES).unwrap();
    assert_eq!(error, 0);
    error = -3;
    let other = init_logging(b"/tmp/chat.log", &mut error, &CODES).unwrap();
    assert_eq!(error, 0);
    assert_eq!(one.path, other.path);
    assert_eq!(format!("{:?}", one.policy), format!("{:?}", other.policy));
}

#[test]
fn archives_have_names_of_their_own() {
    for path in ["chat.log", "chat", "{}", "{}.log", "chat.{}", "{", "a.{}.b", ""] {
        for index in ["0", "1"] {
            assert_ne!(pattern_for(path).replace("{}", index), path);
        }
    }
    assert_eq!(pattern_for("chat.log").replace("{}", "1"), "chat.1.log");
}

#[test]
fn warnings_and_errors_pass_whatever_the_target() {
    let mut error: i32 = 0;
    let file = init_logging(b"/tmp/chat.log", &mut error, &CODES).unwrap();
    let log_file = file.builder.build("/dev/null", Box::new(file.policy)).unwrap();
    let logger = log4rs::Logger::new(logging_config(log_file));
    for target in ["comms", "comms::noise::x", "chat_ffi::callback_handler", "elsewhere", ""] {
        for (level, passes) in [
            (log::Level::Error, true),
            (log::Level::Warn, true),
            (log::Level::Info, false),
            (log::Level::Debug, false),
            (log::Level::Trace, false),
        ] {
            let record = log::Metadata::builder().target(target).level(level).build();
            assert_eq!(logger.enabled(&record), passes, "{} {}", target, level);
        }
    }
}

#[test]
fn every_part_warns_to_the_log_file_alone() {
    let mut error: i32 = 0;
    let file = init_logging(b"/tmp/chat.log", &mut error, &CODES).unwrap();
    let log_file = file.builder.build("/dev/null", Box::new(file.policy)).unwrap();
    let config = logging_config(log_file);
    let names: Vec<&str> = config.loggers().iter().map(|l| l.name()).collect();
    assert_eq!(
        names,
        vec![
            "comms",
            "comms::noise",
            "tokio_util",
            "tracing",
            "chat_ffi::callback_handler",
            "chat_ffi",
            "contacts",
            "p2p",
            "yamux",
            "dht",
            "mio",
        ]
    );
    for logger in config.loggers() {
        assert_eq!(logger.level(), log::LevelFilter::Warn);
        assert_eq!(logger.appenders().to_vec(), vec!["logfile".to_string()]);
        assert!(!logger.additive());
    }
    let appenders: Vec<&str> = config.appenders().iter().map(|a| a.name()).collect();
    assert_eq!(appenders, vec!["logfile"]);
    assert_eq!(config.root().level(), log::LevelFilter::Warn);
    assert_eq!(config.root().appenders().to_vec(), vec!["logfile".to_string()]);
}

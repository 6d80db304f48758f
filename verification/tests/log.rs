use hypatia::log::{
    level_from_name, parse_level, trim_ascii, DefaultLogFormatter, Level, PrefixLayout,
    ELAPSED_FLAG, MODULE_FLAG, SPAN_FLAG,
};

#[test]
fn level_names() {
    assert_eq!(parse_level("trace"), Some(Level::Trace));
    assert_eq!(parse_level("  Debug \n"), Some(Level::Debug));
    assert_eq!(parse_level("INFO"), Some(Level::Info));
    assert_eq!(parse_level("\twarn"), Some(Level::Warn));
    assert_eq!(parse_level("Error\r\n"), Some(Level::Error));
    assert_eq!(parse_level("OFF"), Some(Level::Off));
    assert_eq!(parse_level("none"), Some(Level::Off));
    assert_eq!(parse_level("verbose"), None);
    assert_eq!(parse_level(""), None);
    // only exact lower-case names are recognised without parsing
    assert_eq!(level_from_name("Debug"), None);
    assert_eq!(level_from_name("debug"), Some(Level::Debug));
}

#[test]
fn level_texts_and_filtering() {
    assert_eq!(Level::Info.text(), "INFO ");
    assert_eq!(Level::Error.text(), "ERROR");
    assert_eq!(Level::Off.text(), "");
    assert!(Level::Warn.enabled_at(Level::Info));
    assert!(Level::Info.enabled_at(Level::Info));
    assert!(!Level::Debug.enabled_at(Level::Info));
    assert!(!Level::Error.enabled_at(Level::Off));
    assert_eq!(Level::Trace.rank(), 0);
    assert_eq!(Level::Off.rank(), 5);
}

#[test]
fn formatter_layout() {
    let f = DefaultLogFormatter::new();
    assert_eq!(f.time_format(), "%F %T.%6f");
    assert_eq!(
        f.prefix_layout(10, 2),
        PrefixLayout {
            time: true,
            module: true,
            elapsed: true,
            spans: true,
        }
    );
    assert_eq!(
        f.prefix_layout(0, 0),
        PrefixLayout {
            time: true,
            module: true,
            elapsed: false,
            spans: false,
        }
    );
    let g = DefaultLogFormatter::default()
        .without_module_path()
        .without_elapsed_time()
        .with_time_format(String::new());
    assert_eq!(
        g.prefix_layout(10, 1),
        PrefixLayout {
            time: false,
            module: false,
            elapsed: false,
            spans: true,
        }
    );
    assert_eq!(MODULE_FLAG | SPAN_FLAG | ELAPSED_FLAG, 7);
}

#[test]
fn level_texts_parse_back() {
    for level in [Level::Trace, Level::Debug, Level::Info, Level::Warn, Level::Error] {
        assert_eq!(parse_level(level.text()), Some(level));
    }
}

#[test]
fn ascii_trimming() {
    assert_eq!(trim_ascii("  a b \t\r\n"), "a b");
    assert_eq!(trim_ascii(" \x0C "), "");
    assert_eq!(trim_ascii("\u{a0}x\u{a0}"), "\u{a0}x\u{a0}");
    assert_eq!(trim_ascii(""), "");
}

#[test]
fn prefix_text() {
    let spans = vec!["window-init".to_owned(), "egl".to_owned()];
    let f = DefaultLogFormatter::new();
    assert_eq!(
        f.format_prefix("2024-01-01 10:00:00.000000", Level::Warn, "hypatia::window", 1_500_000, &spans),
        "\x1b[2m2024-01-01 10:00:00.000000\x1b[0m \x1b[1m\x1b[33mWARN \x1b[39m\x1b[0m \x1b[2mhypatia::window\x1b[0m \x1b[90m(1.500ms elapsed)\x1b[0m \x1b[3mwindow-init\x1b[0m:\x1b[3megl\x1b[0m: "
    );
    assert_eq!(
        f.format_prefix("t", Level::Info, "m", 0, &vec![]),
        "\x1b[2mt\x1b[0m \x1b[1m\x1b[32mINFO \x1b[39m\x1b[0m \x1b[2mm\x1b[0m "
    );
    let g = DefaultLogFormatter::new()
        .without_module_path()
        .with_time_format(String::new());
    assert_eq!(
        g.format_prefix("ignored", Level::Error, "m", 2_000_000_000, &spans),
        "\x1b[1m\x1b[31mERROR\x1b[39m\x1b[0m \x1b[90m(2.000s elapsed)\x1b[0m \x1b[3mwindow-init\x1b[0m:\x1b[3megl\x1b[0m: "
    );
    assert_eq!(g.format_prefix("", Level::Off, "m", 0, &vec![]), " ");
}

#[test]
fn level_display_texts() {
    assert_eq!(Level::Trace.display_text(), "\x1b[1m\x1b[35mTRACE\x1b[39m\x1b[0m");
    assert_eq!(Level::Debug.display_text(), "\x1b[1m\x1b[34mDEBUG\x1b[39m\x1b[0m");
    assert_eq!(Level::Off.display_text(), "");
}

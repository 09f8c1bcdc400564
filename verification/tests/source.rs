use rogcat::record::Level;
use rogcat::source::{parse_serial_arg, resolve_source, Parity, SourceSpec};
use rogcat::terminal::{highlights, shorten_tag};
use rogcat::filter::Pattern;

#[test]
fn serial_url_parses() {
    let st = parse_serial_arg("serial://COM3@115200,8N1").expect("valid endpoint");
    assert_eq!(st.path, "COM3");
    assert_eq!(st.baud, 115200);
    assert_eq!(st.data_bits, 8);
    assert_eq!(st.parity, Parity::ParityNone);
    assert_eq!(st.stop_bits, 1);

    let st = parse_serial_arg("serial:///dev/ttyUSB0@9600,7E2").expect("valid endpoint");
    assert_eq!(st.path, "/dev/ttyUSB0");
    assert_eq!(st.baud, 9600);
    assert_eq!(st.data_bits, 7);
    assert_eq!(st.parity, Parity::ParityEven);
    assert_eq!(st.stop_bits, 2);
}

#[test]
fn bad_serial_urls_are_rejected() {
    for arg in [
        "",
        "serial://",
        "serial://@9600,8N1",         // empty path
        "serial://COM3@,8N1",         // empty baud
        "serial://COM3@96a0,8N1",     // baud not decimal
        "serial://COM3@9600,9N1",     // data bits out of range
        "serial://COM3@9600,8X1",     // unknown parity
        "serial://COM3@9600,8N3",     // stop bits out of range
        "serial://COM3@9600,8N1x",    // trailing garbage
        "serial://COM3@42949672960,8N1", // baud beyond u32
        "file:///dev/ttyUSB0",
        "COM3@115200,8N1",
    ] {
        assert!(parse_serial_arg(arg).is_none(), "accepted: {}", arg);
    }
}

#[test]
fn explicit_input_prefers_serial_then_file() {
    let input = "serial://COM3@115200,8N1".to_string();
    match resolve_source(Some(&input), None) {
        SourceSpec::Serial(st) => assert_eq!(st.path, "COM3"),
        _ => panic!("serial input resolves to a serial source"),
    }
    let input = "trace.log".to_string();
    match resolve_source(Some(&input), Some(&"ignored".to_string())) {
        SourceSpec::File(f) => assert_eq!(f, "trace.log"),
        _ => panic!("non-serial input resolves to a file source"),
    }
}

#[test]
fn command_resolution() {
    let dash = "-".to_string();
    assert!(matches!(resolve_source(None, Some(&dash)), SourceSpec::Stdin));

    let cmd = "journalctl -f".to_string();
    match resolve_source(None, Some(&cmd)) {
        SourceSpec::Process(c) => assert_eq!(c, "journalctl -f"),
        _ => panic!("a command resolves to a process source"),
    }

    match resolve_source(None, None) {
        SourceSpec::Process(c) => assert_eq!(c, "adb logcat -b all"),
        _ => panic!("the default source is the capture command"),
    }
}

#[test]
fn level_names_parse() {
    assert_eq!(Level::from_name("trace"), Some(Level::Trace));
    assert_eq!(Level::from_name("debug"), Some(Level::Debug));
    assert_eq!(Level::from_name("info"), Some(Level::Info));
    assert_eq!(Level::from_name("warn"), Some(Level::Warn));
    assert_eq!(Level::from_name("error"), Some(Level::Error));
    assert_eq!(Level::from_name("fatal"), Some(Level::Fatal));
    assert_eq!(Level::from_name("assert"), Some(Level::Assert));
    assert_eq!(Level::from_name("I"), Some(Level::Info));
    assert_eq!(Level::from_name("V"), Some(Level::Trace));
    assert_eq!(Level::from_name("A"), Some(Level::Assert));
    assert_eq!(Level::from_name("loud"), None);
    assert_eq!(Level::from_name(""), None);
}

#[test]
fn tags_shorten_by_dropping_vowels_then_cutting() {
    assert_eq!(shorten_tag("Short", 10), "Short");
    assert_eq!(shorten_tag("ConnectivityService", 16), "CnnctvtySrvc");
    assert_eq!(shorten_tag("ConnectivityService", 8), "Cnnctvty");
    assert_eq!(shorten_tag("aeiou", 3), "");
    assert_eq!(shorten_tag("", 0), "");
}

#[test]
fn highlight_picks_matches_and_negated_non_matches() {
    let pats = vec![Pattern::compile("err.r").unwrap()];
    assert!(highlights(&pats, "an error came up"));
    assert!(!highlights(&pats, "all is well"));

    let pats = vec![Pattern::compile("!good").unwrap()];
    assert!(highlights(&pats, "broken"));
    assert!(!highlights(&pats, "all good"));

    let none: Vec<Pattern> = Vec::new();
    assert!(!highlights(&none, "anything"));
}

#[test]
fn string_equality_is_by_characters() {
    assert!(rogcat::str_eq("abc", "abc"));
    assert!(!rogcat::str_eq("abc", "abd"));
    assert!(!rogcat::str_eq("abc", "ab"));
    assert!(rogcat::str_eq("", ""));
}

#[test]
fn decimal_rendering_matches_std() {
    for n in [0u64, 7, 10, 99, 100, 12345, u64::MAX] {
        assert_eq!(rogcat::u64_to_dec(n), n.to_string());
    }
}

use rogcat::parser::parse;
use rogcat::record::Level;

#[test]
fn raw_is_preserved_for_threadtime_lines() {
    let line = "11-12 10:00:00.000  1234  1234 I MyTag: hello world";
    assert_eq!(parse(line).raw, line);
}

#[test]
fn raw_is_preserved_for_malformed_lines() {
    for line in [
        "",
        "garbage",
        "11-12 10:00:00.000",
        "I/",
        "completely : unrelated { text",
        "11-12 99:99:99.999  x  y Z Tag: msg",
    ] {
        assert_eq!(parse(line).raw, line);
    }
}

#[test]
fn threadtime_line_is_fully_extracted() {
    let rec = parse("11-12 10:00:00.000  1234  4321 I MyTag: hello world");
    let ts = rec.timestamp.expect("timestamp");
    assert_eq!(ts.month, 11);
    assert_eq!(ts.day, 12);
    assert_eq!(ts.hour, 10);
    assert_eq!(ts.minute, 0);
    assert_eq!(ts.second, 0);
    assert_eq!(ts.millisecond, 0);
    assert_eq!(rec.level, Level::Info);
    assert_eq!(rec.tag, "MyTag");
    assert_eq!(rec.process, "1234");
    assert_eq!(rec.thread, "4321");
    assert_eq!(rec.message, "hello world");
}

#[test]
fn threadtime_milliseconds_and_warn_level() {
    let rec = parse("01-02 03:04:05.678    7  42 W Radio Interface : down");
    let ts = rec.timestamp.expect("timestamp");
    assert_eq!(ts.month, 1);
    assert_eq!(ts.day, 2);
    assert_eq!(ts.hour, 3);
    assert_eq!(ts.minute, 4);
    assert_eq!(ts.second, 5);
    assert_eq!(ts.millisecond, 678);
    assert_eq!(rec.level, Level::Warn);
    // the tag keeps inner spaces and loses trailing ones
    assert_eq!(rec.tag, "Radio Interface");
    assert_eq!(rec.process, "7");
    assert_eq!(rec.thread, "42");
    assert_eq!(rec.message, "down");
}

#[test]
fn verbose_code_maps_to_trace() {
    let rec = parse("11-12 10:00:00.000  1 1 V Chatty: noisy");
    assert_eq!(rec.level, Level::Trace);
}

#[test]
fn brief_line_is_extracted() {
    let rec = parse("E/AndroidRuntime( 4242): FATAL EXCEPTION: main");
    assert!(rec.timestamp.is_none());
    assert_eq!(rec.level, Level::Error);
    assert_eq!(rec.tag, "AndroidRuntime");
    assert_eq!(rec.process, "4242");
    assert_eq!(rec.thread, "");
    assert_eq!(rec.message, "FATAL EXCEPTION: main");
}

#[test]
fn unmatched_line_degrades_to_fallback() {
    let rec = parse("no grammar fits this");
    assert!(rec.timestamp.is_none());
    assert_eq!(rec.level, Level::Debug);
    assert_eq!(rec.tag, "");
    assert_eq!(rec.process, "");
    assert_eq!(rec.thread, "");
    assert_eq!(rec.message, "");
    assert_eq!(rec.raw, "no grammar fits this");
}

#[test]
fn message_keeps_everything_after_separator() {
    let rec = parse("11-12 10:00:00.000  1 1 D Tag:no space after colon");
    assert_eq!(rec.message, "no space after colon");
    let rec = parse("11-12 10:00:00.000  1 1 D Tag: ");
    assert_eq!(rec.message, "");
    let rec = parse("11-12 10:00:00.000  1 1 D Tag:");
    assert_eq!(rec.message, "");
}

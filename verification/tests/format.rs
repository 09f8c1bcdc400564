use rogcat::format::{format_record, Format};
use rogcat::parser::parse;
use rogcat::record::{Level, Record, Timestamp};

fn sample() -> Record {
    parse("11-12 10:00:00.000  1234  4321 I MyTag: hello world")
}

#[test]
fn raw_format_is_the_verbatim_line() {
    let rec = sample();
    assert_eq!(
        format_record(Format::Raw, &rec),
        "11-12 10:00:00.000  1234  4321 I MyTag: hello world\n"
    );
}

#[test]
fn csv_format_quotes_every_field() {
    let rec = sample();
    assert_eq!(
        format_record(Format::Csv, &rec),
        "\"11-12 10:00:00.000\",\"MyTag\",\"1234\",\"4321\",\"Info\",\"hello world\"\n"
    );
}

#[test]
fn csv_doubles_inner_quotes() {
    let rec = parse("11-12 10:00:00.000  1 1 W T: say \"hi\" now");
    let line = format_record(Format::Csv, &rec);
    assert_eq!(
        line,
        "\"11-12 10:00:00.000\",\"T\",\"1\",\"1\",\"Warn\",\"say \"\"hi\"\" now\"\n"
    );
}

#[test]
fn html_format_escapes_entities() {
    let rec = Record {
        timestamp: None,
        level: Level::Error,
        tag: "a<b".to_string(),
        process: "1".to_string(),
        thread: "2".to_string(),
        message: "x & y > \"z\"".to_string(),
        raw: "irrelevant".to_string(),
    };
    assert_eq!(
        format_record(Format::Html, &rec),
        "<tr><td></td><td>a&lt;b</td><td>1</td><td>2</td><td>Error</td>\
         <td>x &amp; y &gt; &quot;z&quot;</td></tr>\n"
    );
}

#[test]
fn json_format_escapes_strings() {
    let rec = Record {
        timestamp: Some(Timestamp {
            month: 1,
            day: 2,
            hour: 3,
            minute: 4,
            second: 5,
            millisecond: 6,
        }),
        level: Level::Debug,
        tag: "t\"q".to_string(),
        process: "9".to_string(),
        thread: "8".to_string(),
        message: "a\\b\nc".to_string(),
        raw: "r".to_string(),
    };
    assert_eq!(
        format_record(Format::Json, &rec),
        "{\"timestamp\":\"01-02 03:04:05.006\",\"level\":\"Debug\",\"tag\":\"t\\\"q\",\
         \"process\":\"9\",\"thread\":\"8\",\"message\":\"a\\\\b\\nc\",\"raw\":\"r\"}\n"
    );
}

#[test]
fn human_format_lays_out_the_fields() {
    let rec = sample();
    assert_eq!(
        format_record(Format::Human, &rec),
        "11-12 10:00:00.000 I/MyTag(1234): hello world\n"
    );
}

#[test]
fn human_format_without_timestamp() {
    let rec = parse("E/AndroidRuntime( 4242): FATAL EXCEPTION: main");
    assert_eq!(
        format_record(Format::Human, &rec),
        "E/AndroidRuntime(4242): FATAL EXCEPTION: main\n"
    );
}

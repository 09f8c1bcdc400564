use rogcat::filter::FilterConfig;
use rogcat::parser::parse;
use rogcat::record::Level;

fn strings(v: &[&str]) -> Vec<String> {
    v.iter().map(|s| s.to_string()).collect()
}

#[test]
fn level_and_tag_accept_and_reject() {
    // End-to-end admission: one line, `--level info --tag MyTag`.
    let line = "11-12 10:00:00.000  1234  1234 I MyTag: hello world";
    let rec = parse(line);
    assert_eq!(rec.level, Level::Info);
    assert_eq!(rec.tag, "MyTag");
    assert_eq!(rec.message, "hello world");

    let f = FilterConfig::new(&strings(&["MyTag"]), &strings(&[]), Level::Info).unwrap();
    assert!(f.accept(&rec));

    let f = FilterConfig::new(&strings(&["MyTag"]), &strings(&[]), Level::Error).unwrap();
    assert!(!f.accept(&rec));
}

#[test]
fn negation_vetoes_despite_positive_pattern() {
    // Tag filter ["!Foo", "Bar"]: a record with tag "Foo" is rejected even
    // though "Bar" is also configured as a positive pattern.
    let f = FilterConfig::new(&strings(&["!Foo", "Bar"]), &strings(&[]), Level::Trace).unwrap();
    let rec = parse("11-12 10:00:00.000  1 1 I Foo: something");
    assert_eq!(rec.tag, "Foo");
    assert!(!f.accept(&rec));

    let bar = parse("11-12 10:00:00.000  1 1 I Bar: something");
    assert!(f.accept(&bar));
}

#[test]
fn positive_dimension_requires_a_match() {
    let f = FilterConfig::new(&strings(&["Net.*"]), &strings(&[]), Level::Trace).unwrap();
    let hit = parse("11-12 10:00:00.000  1 1 I NetworkWatch: up");
    let miss = parse("11-12 10:00:00.000  1 1 I Audio: up");
    assert!(f.accept(&hit));
    assert!(!f.accept(&miss));
}

#[test]
fn message_dimension_is_independent() {
    let f = FilterConfig::new(&strings(&[]), &strings(&["!secret", "hello"]), Level::Trace)
        .unwrap();
    let ok = parse("11-12 10:00:00.000  1 1 I T: hello world");
    let vetoed = parse("11-12 10:00:00.000  1 1 I T: hello secret world");
    let nomatch = parse("11-12 10:00:00.000  1 1 I T: goodbye");
    assert!(f.accept(&ok));
    assert!(!f.accept(&vetoed));
    assert!(!f.accept(&nomatch));
}

#[test]
fn empty_dimensions_gate_only_on_level() {
    let f = FilterConfig::new(&strings(&[]), &strings(&[]), Level::Warn).unwrap();
    let warn = parse("11-12 10:00:00.000  1 1 W T: w");
    let info = parse("11-12 10:00:00.000  1 1 I T: i");
    assert!(f.accept(&warn));
    assert!(!f.accept(&info));
}

#[test]
fn acceptance_is_monotonic_in_level() {
    // With identical tag/message configuration, what Warn admits, Debug
    // admits too.
    let tags = strings(&["MyTag"]);
    let msgs = strings(&["hel+o"]);
    let warn = FilterConfig::new(&tags, &msgs, Level::Warn).unwrap();
    let debug = FilterConfig::new(&tags, &msgs, Level::Debug).unwrap();
    for line in [
        "11-12 10:00:00.000  1 1 W MyTag: hello",
        "11-12 10:00:00.000  1 1 E MyTag: helllllo",
        "11-12 10:00:00.000  1 1 A MyTag: helo there",
    ] {
        let rec = parse(line);
        if warn.accept(&rec) {
            assert!(debug.accept(&rec));
        }
    }
}

#[test]
fn invalid_pattern_fails_construction() {
    assert!(FilterConfig::new(&strings(&["("]), &strings(&[]), Level::Trace).is_none());
    assert!(FilterConfig::new(&strings(&[]), &strings(&["!["]), Level::Trace).is_none());
    assert!(FilterConfig::new(&strings(&["fine"]), &strings(&["also.fine"]), Level::Trace)
        .is_some());
}

use rogcat::filter::FilterConfig;
use rogcat::pipeline::{Pipeline, Step, TailBuffer};
use rogcat::record::Level;

fn open_filter() -> FilterConfig {
    FilterConfig::new(&Vec::new(), &Vec::new(), Level::Trace).unwrap()
}

#[test]
fn tail_flushes_only_the_last_two_in_order() {
    // --tail 2 over a finite dump of 5 accepted records flushes only the
    // last 2, in original order, after end-of-stream.
    let mut p = Pipeline::new(open_filter(), None, Some(2));
    for i in 1..=5 {
        let line = format!("11-12 10:00:00.000  1 1 I T: message {}", i);
        match p.process_line(&line) {
            Step::Buffered => {},
            _ => panic!("tail mode must buffer accepted records"),
        }
    }
    let out = p.finish();
    assert_eq!(out.len(), 2);
    assert_eq!(out[0].message, "message 4");
    assert_eq!(out[1].message, "message 5");
}

#[test]
fn tail_shorter_history_is_flushed_whole() {
    let mut p = Pipeline::new(open_filter(), None, Some(10));
    for i in 1..=3 {
        let line = format!("11-12 10:00:00.000  1 1 I T: m{}", i);
        assert!(matches!(p.process_line(&line), Step::Buffered));
    }
    let out = p.finish();
    let msgs: Vec<&str> = out.iter().map(|r| r.message.as_str()).collect();
    assert_eq!(msgs, ["m1", "m2", "m3"]);
}

#[test]
fn tail_ignores_rejected_records() {
    let f = FilterConfig::new(&Vec::new(), &Vec::new(), Level::Warn).unwrap();
    let mut p = Pipeline::new(f, None, Some(2));
    assert!(matches!(
        p.process_line("11-12 10:00:00.000  1 1 I T: quiet"),
        Step::Rejected(_)
    ));
    assert!(matches!(
        p.process_line("11-12 10:00:00.000  1 1 E T: loud"),
        Step::Buffered
    ));
    let out = p.finish();
    assert_eq!(out.len(), 1);
    assert_eq!(out[0].message, "loud");
}

#[test]
fn head_stops_after_the_nth_accepted_record() {
    let mut p = Pipeline::new(open_filter(), Some(2), None);
    match p.process_line("11-12 10:00:00.000  1 1 I T: one") {
        Step::Deliver(rec) => assert_eq!(rec.message, "one"),
        _ => panic!("first accepted record is delivered"),
    }
    match p.process_line("11-12 10:00:00.000  1 1 I T: two") {
        Step::DeliverAndStop(rec) => assert_eq!(rec.message, "two"),
        _ => panic!("second accepted record is the last"),
    }
}

#[test]
fn head_does_not_count_rejected_records() {
    let f = FilterConfig::new(&Vec::new(), &Vec::new(), Level::Warn).unwrap();
    let mut p = Pipeline::new(f, Some(1), None);
    assert!(matches!(
        p.process_line("11-12 10:00:00.000  1 1 D T: below"),
        Step::Rejected(_)
    ));
    assert!(matches!(
        p.process_line("11-12 10:00:00.000  1 1 E T: boom"),
        Step::DeliverAndStop(_)
    ));
}

#[test]
fn unbounded_pipeline_delivers_in_order() {
    let mut p = Pipeline::new(open_filter(), None, None);
    for i in 1..=4 {
        let line = format!("11-12 10:00:00.000  1 1 I T: n{}", i);
        match p.process_line(&line) {
            Step::Deliver(rec) => assert_eq!(rec.message, format!("n{}", i)),
            _ => panic!("open pipeline delivers every accepted record"),
        }
    }
    assert!(p.finish().is_empty());
}

#[test]
fn tail_buffer_keeps_the_most_recent_pushes() {
    let mut t = TailBuffer::new(3);
    for i in 0..7 {
        let line = format!("11-12 10:00:00.000  1 1 I T: r{}", i);
        t.push(rogcat::parser::parse(&line));
    }
    let out = t.into_records();
    let msgs: Vec<&str> = out.iter().map(|r| r.message.as_str()).collect();
    assert_eq!(msgs, ["r4", "r5", "r6"]);
}

#[test]
fn zero_capacity_tail_holds_nothing() {
    let mut t = TailBuffer::new(0);
    t.push(rogcat::parser::parse("x"));
    assert!(t.into_records().is_empty());
}

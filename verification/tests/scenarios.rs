use std::cell::RefCell;

use rlog::dispatch::Log;
use rlog::facade;
use rlog::filter::Filter;
use rlog::gate;
use rlog::level::Level;
use rlog::logger::Logger;
use rlog::record::{Metadata, Record};

/// A renderer that keeps what it was handed, in order.
struct Collector {
    seen: RefCell<Vec<(Level, String)>>,
}

impl Collector {
    fn new() -> Collector {
        Collector { seen: RefCell::new(Vec::new()) }
    }
}

impl Logger for Collector {
    fn log(&self, record: &Record) {
        self.seen.borrow_mut().push((record.metadata.level, record.message.clone()));
    }
}

/// A renderer whose sink fails on one record: it gives up on that record
/// and keeps going, so one bad line never stops the stream.
struct FlakySink {
    poison: String,
    rendered: RefCell<Vec<String>>,
    failures: RefCell<u32>,
}

impl Logger for FlakySink {
    fn log(&self, record: &Record) {
        if record.message == self.poison {
            // The sink rejects this record; drop the one render and return.
            *self.failures.borrow_mut() += 1;
            return;
        }
        self.rendered.borrow_mut().push(record.message.clone());
    }
}

fn drain(log: &mut Log, renderer: &impl Logger) -> usize {
    let mut delivered = 0;
    while log.step(renderer) {
        delivered += 1;
    }
    delivered
}

#[test]
fn scenario_info_under_warn_renders_nothing() {
    let mut log = Log::init();
    let sent = gate::info(
        &mut log,
        Level::Warn,
        "test".to_owned(),
        "hello".to_owned(),
        None,
        None,
        None,
    );
    assert!(!sent);
    assert_eq!(log.len(), 0);

    let collector = Collector::new();
    assert_eq!(drain(&mut log, &collector), 0);
    assert!(collector.seen.borrow().is_empty());
}

#[test]
fn scenario_three_records_render_in_order() {
    let mut log = Log::init();
    let t = Level::Info;
    assert!(gate::error(&mut log, t, "test".to_owned(), "a".to_owned(), None, None, None));
    assert!(gate::warn(&mut log, t, "test".to_owned(), "b".to_owned(), None, None, None));
    assert!(gate::info(&mut log, t, "test".to_owned(), "c".to_owned(), None, None, None));

    let collector = Collector::new();
    assert_eq!(drain(&mut log, &collector), 3);
    let seen = collector.seen.borrow();
    assert_eq!(
        seen.as_slice(),
        &[
            (Level::Error, "a".to_owned()),
            (Level::Warn, "b".to_owned()),
            (Level::Info, "c".to_owned()),
        ]
    );
}

#[test]
fn scenario_interleaved_producers_keep_per_producer_order() {
    // Three producers, interleaved round-robin, each tagging its records
    // with its own name and a growing sequence number.
    let mut log = Log::init();
    let producers = ["alpha", "beta", "gamma"];
    let per_producer = 40u32;
    for n in 0..per_producer {
        for name in producers {
            let r = Record::new(
                Metadata::new(Level::Info, name.to_owned()),
                format!("{name} {n}"),
                None,
                None,
                Some(n),
            );
            assert!(log.push(r));
        }
    }

    let mut last: Vec<Option<u32>> = vec![None; producers.len()];
    let mut total = 0;
    while let Some(r) = log.pop() {
        total += 1;
        let who = producers
            .iter()
            .position(|p| *p == r.metadata.target)
            .expect("record from a known producer");
        let n = r.line.expect("records carry sequence numbers");
        if let Some(prev) = last[who] {
            assert!(n > prev, "sequence numbers of one producer out of order");
        }
        last[who] = Some(n);
    }
    assert_eq!(total, producers.len() * per_producer as usize);
    for prev in last {
        assert_eq!(prev, Some(per_producer - 1));
    }
}

#[test]
fn scenario_failed_render_does_not_stop_later_records() {
    let mut log = Log::init();
    let t = Level::Trace;
    for msg in ["first", "bad", "second", "third"] {
        assert!(gate::info(&mut log, t, "test".to_owned(), msg.to_owned(), None, None, None));
    }

    let sink = FlakySink {
        poison: "bad".to_owned(),
        rendered: RefCell::new(Vec::new()),
        failures: RefCell::new(0),
    };
    // Every record is still taken through a full consumer turn...
    assert_eq!(drain(&mut log, &sink), 4);
    assert_eq!(log.len(), 0);
    // ...one render failed, and the ones after it still came out.
    assert_eq!(*sink.failures.borrow(), 1);
    assert_eq!(
        sink.rendered.borrow().as_slice(),
        &["first".to_owned(), "second".to_owned(), "third".to_owned()]
    );
}

#[test]
fn gate_skips_before_any_queue_work() {
    let mut log = Log::init();
    // Every severity below the threshold's importance is refused...
    assert!(!gate::debug(&mut log, Level::Info, "t".to_owned(), "x".to_owned(), None, None, None));
    assert!(!gate::trace(&mut log, Level::Info, "t".to_owned(), "x".to_owned(), None, None, None));
    // ...and every one at or above it goes through.
    assert!(gate::error(&mut log, Level::Info, "t".to_owned(), "x".to_owned(), None, None, None));
    assert!(gate::warn(&mut log, Level::Info, "t".to_owned(), "x".to_owned(), None, None, None));
    assert!(gate::info(&mut log, Level::Info, "t".to_owned(), "x".to_owned(), None, None, None));
    assert_eq!(log.len(), 3);
}

/// A writer that records what reaches it.
struct Notebook {
    lines: RefCell<Vec<String>>,
}

impl facade::Writer for Notebook {
    fn writer(&self, record: &Record) {
        self.lines.borrow_mut().push(record.message.clone());
    }
}

#[test]
fn facade_writes_only_admitted_records() {
    let notebook = Notebook { lines: RefCell::new(Vec::new()) };
    let front = facade::Logger::new(Filter::new(Level::Warn), notebook);

    let quiet = Record::new(
        Metadata::new(Level::Info, "t".to_owned()),
        "hello".to_owned(),
        None,
        None,
        None,
    );
    front.log(&quiet);
    assert!(front.writer.lines.borrow().is_empty());

    let loud = Record::new(
        Metadata::new(Level::Error, "t".to_owned()),
        "boom".to_owned(),
        None,
        None,
        None,
    );
    assert!(front.enabled(&loud.metadata));
    front.log(&loud);
    front.flush();
    assert_eq!(front.writer.lines.borrow().as_slice(), &["boom".to_owned()]);
}

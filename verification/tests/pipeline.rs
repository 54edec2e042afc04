use logpipe::config::Config;
use logpipe::event::{Event, Level};
use logpipe::filter::Filters;
use logpipe::logger::{EventType, Logger, SendEvent, Sender, ThreadLocalLogger};
use logpipe::text::u64_to_dec;
use logpipe::writer::{Appender, AppenderKind, Writer};

fn console_config() -> Config {
    Config::new(true, false, 0, String::new(), true, Level::Debug)
}

fn event(level: Level, msg: &str, tag: &str, ts: u64) -> Event {
    Event::new(level, msg.to_string(), tag.to_string(), ts)
}

#[test]
fn decimal_rendering_exact() {
    assert_eq!(u64_to_dec(0), "0");
    assert_eq!(u64_to_dec(7), "7");
    assert_eq!(u64_to_dec(10), "10");
    assert_eq!(u64_to_dec(12345), "12345");
    assert_eq!(u64_to_dec(u64::MAX), "18446744073709551615");
}

#[test]
fn thread_tag_with_and_without_name() {
    let c = console_config();
    let named = ThreadLocalLogger::new(Some("main"), 7, &c);
    assert_eq!(named.get_thread_tag(), "main:[7]");
    let nameless = ThreadLocalLogger::new(None, 42, &c);
    assert_eq!(nameless.get_thread_tag(), "thread:[42]");
}

#[test]
fn default_format_exact() {
    let e = event(Level::Info, "hello", "main:[7]", 5);
    assert_eq!(e.format_by_default(), "[INFO] main:[7] 5 hello");
    let e = event(Level::Error, "boom", "thread:[9]", 120);
    assert_eq!(e.format_by_default(), "[ERROR] thread:[9] 120 boom");
}

#[test]
fn filter_by_severity() {
    let c = Config::new(true, false, 0, String::new(), true, Level::Warn);
    let f = Filters::generate_by_config(&c);
    assert!(!f.accepts(&event(Level::Debug, "m", "t", 0)));
    assert!(!f.accepts(&event(Level::Info, "m", "t", 0)));
    assert!(f.accepts(&event(Level::Warn, "m", "t", 0)));
    assert!(f.accepts(&event(Level::Error, "m", "t", 0)));
}

#[test]
fn filter_disabled_rejects_everything() {
    let f = Filters::reject_all();
    assert!(!f.accepts(&event(Level::Error, "m", "t", 0)));
    assert!(!f.accepts(&event(Level::Debug, "m", "t", 0)));
}

#[test]
fn init_registers_appenders_in_order() {
    let c = Config::new(true, true, 64, "/var/log".to_string(), true, Level::Debug);
    let l = Logger::init(&c);
    assert_eq!(l.writer.appenders.len(), 2);
    assert!(matches!(l.writer.appenders[0].kind, AppenderKind::Console));
    match &l.writer.appenders[1].kind {
        AppenderKind::File { temp_buf, log_dir } => {
            assert_eq!(*temp_buf, 64);
            assert_eq!(log_dir, "/var/log");
        }
        _ => panic!("expected the file appender second"),
    }
    assert!(!l.writer.terminate);
    assert!(!l.stopped);
}

#[test]
fn init_without_sinks_registers_none() {
    let c = Config::new(false, false, 0, String::new(), true, Level::Debug);
    let l = Logger::init(&c);
    assert_eq!(l.writer.appenders.len(), 0);
}

#[test]
fn writer_drain_fans_out_to_every_appender() {
    let mut w = Writer::new();
    w.add_appender(Appender::console());
    w.add_appender(Appender::file(8, "logs".to_string()));
    w.insert_log("one".to_string());
    w.insert_log("two".to_string());
    assert!(!w.is_terminate());
    let batch = w.fetch_logs();
    assert_eq!(batch, vec!["one".to_string(), "two".to_string()]);
    assert_eq!(w.pending.len(), 0);
    assert_eq!(w.appenders[0].written, vec!["one".to_string(), "two".to_string()]);
    assert_eq!(w.appenders[1].written, vec!["one".to_string(), "two".to_string()]);
}

#[test]
fn writer_terminate_flag_round_trip() {
    let mut w = Writer::new();
    assert!(!w.is_terminate());
    w.set_terminate(true);
    assert!(w.is_terminate());
    w.set_terminate(false);
    assert!(!w.is_terminate());
}

#[test]
fn send_event_trait_wraps_as_log_message() {
    let c = console_config();
    let t = ThreadLocalLogger::new(Some("w"), 1, &c);
    assert_eq!(t.get_sender().sent.len(), 0);
    let mut s = Sender::new();
    s.send_event(event(Level::Info, "m", "w:[1]", 0));
    assert_eq!(s.sent.len(), 1);
    assert!(matches!(s.sent[0], EventType::Log(_)));
}

#[test]
fn console_only_three_events_arrive_in_order() {
    let c = console_config();
    let mut l = Logger::init(&c);
    let mut t = ThreadLocalLogger::new(Some("main"), 1, &c);
    let tag = t.get_thread_tag();
    for (i, msg) in ["A", "B", "C"].iter().enumerate() {
        t.send_event(event(Level::Info, msg, &tag, i as u64));
    }
    let msgs: Vec<EventType> = t.sender.sent;
    assert_eq!(msgs.len(), 3);
    l.process(msgs);
    l.close();
    assert!(l.stopped);
    assert_eq!(l.writer.appenders.len(), 1);
    assert_eq!(
        l.writer.appenders[0].written,
        vec![
            "[INFO] main:[1] 0 A".to_string(),
            "[INFO] main:[1] 1 B".to_string(),
            "[INFO] main:[1] 2 C".to_string(),
        ]
    );
    assert_eq!(l.writer.pending.len(), 0);
}

#[test]
fn two_producers_interleaved_keep_their_own_order() {
    let c = console_config();
    let mut l = Logger::init(&c);
    let mut ta = ThreadLocalLogger::new(Some("alpha"), 1, &c);
    let mut tb = ThreadLocalLogger::new(Some("beta"), 2, &c);
    let tag_a = ta.get_thread_tag();
    let tag_b = tb.get_thread_tag();
    for i in 0..50u64 {
        ta.send_event(event(Level::Info, &format!("a{}", i), &tag_a, i));
        tb.send_event(event(Level::Info, &format!("b{}", i), &tag_b, i));
    }
    // One arrival order the shared channel may deliver: strict alternation.
    let mut msgs: Vec<EventType> = Vec::new();
    let mut a_iter = ta.sender.sent.into_iter();
    let mut b_iter = tb.sender.sent.into_iter();
    for _ in 0..50 {
        msgs.push(a_iter.next().unwrap());
        msgs.push(b_iter.next().unwrap());
    }
    l.process(msgs);
    l.close();
    let written = &l.writer.appenders[0].written;
    assert_eq!(written.len(), 100);
    let from_a: Vec<&String> = written.iter().filter(|r| r.contains("alpha:[1]")).collect();
    let from_b: Vec<&String> = written.iter().filter(|r| r.contains("beta:[2]")).collect();
    assert_eq!(from_a.len(), 50);
    assert_eq!(from_b.len(), 50);
    for i in 0..50usize {
        assert_eq!(*from_a[i], format!("[INFO] alpha:[1] {} a{}", i, i));
        assert_eq!(*from_b[i], format!("[INFO] beta:[2] {} b{}", i, i));
    }
    // No duplicates: 100 records, and every record is distinct by message.
    for i in 0..written.len() {
        for j in (i + 1)..written.len() {
            assert_ne!(written[i], written[j]);
        }
    }
}

#[test]
fn rejecting_filter_means_zero_appender_calls() {
    let c = Config::new(true, false, 0, String::new(), false, Level::Debug);
    let mut l = Logger::init(&c);
    let mut t = ThreadLocalLogger::new(Some("quiet"), 3, &c);
    let tag = t.get_thread_tag();
    for i in 0..200u64 {
        t.send_event(event(Level::Error, &format!("m{}", i), &tag, i));
    }
    assert_eq!(t.sender.sent.len(), 0);
    l.process(t.sender.sent);
    l.close();
    assert_eq!(l.writer.appenders[0].written.len(), 0);
}

#[test]
fn close_flushes_buffered_records() {
    let c = console_config();
    let mut l = Logger::init(&c);
    l.deliver(EventType::Log(event(Level::Warn, "late", "t:[1]", 9)));
    assert_eq!(l.writer.pending.len(), 1);
    l.close();
    assert!(l.stopped);
    assert!(l.writer.terminate);
    assert_eq!(l.writer.pending.len(), 0);
    assert_eq!(l.writer.appenders[0].written, vec!["[WARN] t:[1] 9 late".to_string()]);
}

#[test]
fn closed_pipeline_is_inert() {
    let c = console_config();
    let mut l = Logger::init(&c);
    l.deliver(EventType::Log(event(Level::Info, "x", "t:[1]", 0)));
    l.close();
    let written_before = l.writer.appenders[0].written.clone();
    // A stray send after close must not produce further writes.
    l.deliver(EventType::Log(event(Level::Info, "stray", "t:[1]", 1)));
    let batch = l.drain();
    assert!(batch.is_empty());
    // Closing twice is safe and changes nothing.
    l.close();
    assert_eq!(l.writer.appenders[0].written, written_before);
    assert!(l.stopped);
}

#[test]
fn run_session_delivers_everything_before_stopping() {
    let c = console_config();
    let mut l = Logger::init(&c);
    let mut t = ThreadLocalLogger::new(None, 8, &c);
    let tag = t.get_thread_tag();
    assert_eq!(tag, "thread:[8]");
    t.send_event(event(Level::Debug, "first", &tag, 1));
    t.send_event(event(Level::Error, "second", &tag, 2));
    l.run_session(t.sender.sent);
    assert!(l.stopped);
    assert_eq!(
        l.writer.appenders[0].written,
        vec![
            "[DEBUG] thread:[8] 1 first".to_string(),
            "[ERROR] thread:[8] 2 second".to_string(),
        ]
    );
}

#[test]
fn terminate_in_mid_batch_still_forwards_later_events() {
    let c = console_config();
    let mut l = Logger::init(&c);
    let msgs = vec![
        EventType::Log(event(Level::Info, "before", "t:[1]", 1)),
        EventType::Terminate,
        EventType::Log(event(Level::Info, "straggler", "t:[1]", 2)),
    ];
    l.process(msgs);
    assert!(l.writer.terminate);
    l.close();
    assert_eq!(
        l.writer.appenders[0].written,
        vec![
            "[INFO] t:[1] 1 before".to_string(),
            "[INFO] t:[1] 2 straggler".to_string(),
        ]
    );
}

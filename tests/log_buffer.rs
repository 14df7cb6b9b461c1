use silverlink::logger::{log, log_from_isr, pop_log, LogEntry, LogQueue, LOG_CAPACITY};

#[test]
fn log_entry_new_keeps_fields() {
    let e = LogEntry::new(12500, "INFO", "BOOT");
    assert_eq!(e.timestamp, 12500);
    assert_eq!(e.level, "INFO");
    assert_eq!(e.message, "BOOT");
}

#[test]
fn log_records_come_out_oldest_first() {
    let mut q = LogQueue::new();
    assert_eq!(q.len(), 0);
    log(&mut q, 1000, "INFO", "KNIT START");
    log_from_isr(&mut q, LogEntry::new(1100, "DEBUG", "DOB FIRE"));
    assert_eq!(q.len(), 2);
    let a = pop_log(&mut q).unwrap();
    assert_eq!((a.timestamp, a.level, a.message), (1000, "INFO", "KNIT START"));
    let b = q.pop().unwrap();
    assert_eq!((b.timestamp, b.level, b.message), (1100, "DEBUG", "DOB FIRE"));
    assert!(pop_log(&mut q).is_none());
}

#[test]
fn full_log_drops_oldest() {
    let mut q = LogQueue::new();
    assert_eq!(LOG_CAPACITY, 255);
    for t in 0..(LOG_CAPACITY as u64 + 2) {
        q.push(LogEntry::new(t, "INFO", "x"));
    }
    assert_eq!(q.len(), LOG_CAPACITY);
    let first = pop_log(&mut q).unwrap();
    assert_eq!(first.timestamp, 2);
    let mut last = first;
    while let Some(e) = pop_log(&mut q) {
        last = e;
    }
    assert_eq!(last.timestamp, LOG_CAPACITY as u64 + 1);
    assert_eq!(q.len(), 0);
}

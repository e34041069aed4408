use akispace::logging::{
    format_date, format_log_line, format_time, is_prunable_log_name, level_name, log_exception,
    log_file_name, log_prefix, log_to, prefix_index, prune_due, route_category, LogBuffers,
    LogLayer, LogLevel, MAX_BUFFER_LINES,
};

#[test]
fn names_and_prefixes() {
    assert_eq!(level_name(LogLevel::Warn), "WARN");
    assert_eq!(log_prefix(1), "akispace-fixenv");
    assert_eq!(prefix_index("akispace-agent"), 2);
    assert_eq!(prefix_index("akispace"), 0);
    assert_eq!(prefix_index("unknown"), 0);
    assert_eq!(route_category("akispace::fixenv::run"), "akispace-fixenv");
    assert_eq!(route_category("agent"), "akispace-agent");
    assert_eq!(route_category("akispace::app"), "akispace");
    assert_eq!(LogLayer.prefix_for("x::agent"), "akispace-agent");
}

#[test]
fn time_date_and_lines() {
    // 1970-01-02 03:04:05.006
    assert_eq!(format_time(86400 + 3 * 3600 + 4 * 60 + 5, 6), "03:04:05.006");
    assert_eq!(format_date(0), "19700101");
    assert_eq!(format_date(40 * 86400), "19700211");
    assert_eq!(log_file_name("akispace", "19700101"), "akispace-19700101.log");
    assert_eq!(
        format_log_line("00:00:00.000", LogLevel::Info, "app", "hello"),
        "00:00:00.000 [INFO] app: hello"
    );
}

#[test]
fn pruning() {
    assert!(is_prunable_log_name("akispace-19700101.log", "akispace"));
    assert!(!is_prunable_log_name("akispace-19700101.txt", "akispace"));
    let now = 30 * 86400;
    assert!(prune_due(now - 15 * 86400, now));
    assert!(!prune_due(now - 14 * 86400, now));
}

#[test]
fn buffers_keep_the_newest_lines() {
    let mut b = LogBuffers::new();
    for i in 0..(MAX_BUFFER_LINES + 5) {
        b.write_line(1, format!("{i}"));
    }
    let lines = b.take_lines(1);
    assert_eq!(lines.len(), MAX_BUFFER_LINES);
    assert_eq!(lines[0], "5");
    assert!(b.take_lines(1).is_empty());
    assert!(b.take_lines(0).is_empty());
}

#[test]
fn log_to_routes_by_prefix() {
    let mut b = LogBuffers::new();
    log_to(&mut b, "t", "akispace-agent", LogLevel::Error, "c", "m");
    log_exception(&mut b, "t", "nope", LogLevel::Warn, "c", "m", "boom");
    assert_eq!(b.take_lines(2), vec!["t [ERROR] c: m".to_string()]);
    assert_eq!(b.take_lines(0), vec!["t [WARN] c: m\nboom".to_string()]);
}

use cepheus::history::{HistoryBuffer, HistoryState};
use cepheus::output::{NotificationLevel, OutputLine};

#[test]
fn test_buffer_basic_push_and_get() {
    let buffer = HistoryBuffer::new(100);

    buffer.push(OutputLine::Stdout {
        text: "line1".to_string(),
        timestamp: 1000,
    });
    buffer.push(OutputLine::Stdout {
        text: "line2".to_string(),
        timestamp: 2000,
    });

    assert_eq!(buffer.len(), 2);
    let lines = buffer.get_all();
    assert_eq!(lines[0].text(), "line1");
    assert_eq!(lines[1].text(), "line2");
}

#[test]
fn test_buffer_capacity_enforcement() {
    let buffer = HistoryBuffer::new(3);

    // Add 3 lines
    for i in 0..3 {
        buffer.push(OutputLine::Stdout {
            text: format!("line{}", i),
            timestamp: i as u64 * 1000,
        });
    }

    assert_eq!(buffer.len(), 3);

    // Add 4th line - should evict oldest, add warning, and stay within capacity
    buffer.push(OutputLine::Stdout {
        text: "line3".to_string(),
        timestamp: 3000,
    });

    // Buffer should be at capacity with warning included
    let lines = buffer.get_all();
    assert!(buffer.len() <= 3);
    assert!(buffer.has_truncation_warning());

    // Verify warning is in the buffer
    assert!(lines
        .iter()
        .any(|l| matches!(l, OutputLine::Notification { .. })));
}

#[test]
fn test_buffer_truncation_at_exact_capacity() {
    let buffer = HistoryBuffer::new(5);

    // Fill to exactly capacity
    for i in 0..5 {
        buffer.push(OutputLine::Stdout {
            text: format!("line{}", i),
            timestamp: i as u64 * 1000,
        });
    }

    assert_eq!(buffer.len(), 5);
    assert!(!buffer.has_truncation_warning());

    // One more line triggers truncation
    buffer.push(OutputLine::Stdout {
        text: "line5".to_string(),
        timestamp: 5000,
    });

    assert!(buffer.has_truncation_warning());
    assert!(buffer.contains_warning("truncated"));
}

#[test]
fn test_buffer_truncation_warning_shown_once() {
    // Use a larger buffer so the warning doesn't get evicted immediately
    let buffer = HistoryBuffer::new(20);

    // Fill and trigger truncation multiple times
    for i in 0..30 {
        buffer.push(OutputLine::Stdout {
            text: format!("line{}", i),
            timestamp: i as u64 * 1000,
        });
    }

    // Warning flag should be set
    assert!(buffer.has_truncation_warning());

    // Warning should appear exactly once in buffer
    let lines = buffer.get_all();
    let warning_count = lines
        .iter()
        .filter(|l| matches!(l, OutputLine::Notification { .. }))
        .count();

    assert_eq!(warning_count, 1);
}

#[test]
fn test_buffer_truncation_warning_flag_persists() {
    // Test with tiny buffer where warning gets evicted
    let buffer = HistoryBuffer::new(3);

    // Fill and trigger truncation many times - warning will be evicted
    for i in 0..10 {
        buffer.push(OutputLine::Stdout {
            text: format!("line{}", i),
            timestamp: i as u64 * 1000,
        });
    }

    // Warning flag should still be set even if warning was evicted
    assert!(buffer.has_truncation_warning());
}

#[test]
fn test_buffer_clear() {
    let buffer = HistoryBuffer::new(3);

    buffer.push(OutputLine::Stdout {
        text: "line1".to_string(),
        timestamp: 1000,
    });

    assert_eq!(buffer.len(), 1);

    buffer.clear();

    assert_eq!(buffer.len(), 0);
    assert!(buffer.is_empty());
    assert!(!buffer.has_truncation_warning());
}

#[test]
fn test_buffer_is_empty() {
    let buffer = HistoryBuffer::new(10);

    assert!(buffer.is_empty());

    buffer.push(OutputLine::Command {
        text: "test".to_string(),
        timestamp: 0,
    });

    assert!(!buffer.is_empty());
}

#[test]
fn test_buffer_first_line() {
    let buffer = HistoryBuffer::new(10);

    assert!(buffer.first().is_none());

    buffer.push(OutputLine::Command {
        text: "first".to_string(),
        timestamp: 1000,
    });
    buffer.push(OutputLine::Stdout {
        text: "second".to_string(),
        timestamp: 2000,
    });

    let first = buffer.first().unwrap();
    assert_eq!(first.text(), "first");
}

#[test]
fn test_buffer_clone_shares_data() {
    let buffer = HistoryBuffer::new(10);
    let cloned = buffer.clone();

    buffer.push(OutputLine::Stdout {
        text: "shared".to_string(),
        timestamp: 1000,
    });

    // Clone should see the same data (shared handle)
    assert_eq!(cloned.len(), 1);
    assert_eq!(cloned.first().unwrap().text(), "shared");
}

#[test]
fn test_buffer_never_exceeds_capacity() {
    // The bound holds after every push, never transiently exceeded
    for capacity in [1usize, 2, 3, 10, 37] {
        let buffer = HistoryBuffer::new(capacity);
        for i in 0..200 {
            buffer.push(OutputLine::Stdout {
                text: format!("line{}", i),
                timestamp: i as u64,
            });
            assert!(buffer.len() <= capacity);
        }
    }
}

#[test]
fn test_buffer_capacity_one() {
    // Even at the smallest capacity the warning and the new line never
    // overflow: the newest line alone is retained, and the flag is spent.
    let buffer = HistoryBuffer::new(1);
    buffer.push(OutputLine::Stdout {
        text: "a".to_string(),
        timestamp: 1,
    });
    buffer.push(OutputLine::Stdout {
        text: "b".to_string(),
        timestamp: 2,
    });
    assert_eq!(buffer.len(), 1);
    assert!(buffer.has_truncation_warning());
    assert_eq!(buffer.first().unwrap().text(), "b");
}

#[test]
fn test_buffer_keeps_push_order_when_within_capacity() {
    // Pushing N <= C lines returns exactly those lines in push order, with
    // no notification present
    let buffer = HistoryBuffer::new(10);
    for i in 0..5 {
        buffer.push(OutputLine::Stdout {
            text: format!("{}", i),
            timestamp: i as u64,
        });
    }
    let lines = buffer.get_all();
    assert_eq!(lines.len(), 5);
    for (i, line) in lines.iter().enumerate() {
        assert_eq!(line.text(), format!("{}", i));
        assert!(!matches!(line, OutputLine::Notification { .. }));
    }
    assert!(!buffer.has_truncation_warning());
}

#[test]
fn test_buffer_retains_most_recent_lines() {
    let buffer = HistoryBuffer::new(5);
    for i in 0..50 {
        buffer.push(OutputLine::Stdout {
            text: format!("{}", i),
            timestamp: i as u64,
        });
    }
    let lines = buffer.get_all();
    assert_eq!(lines.len(), 5);
    // The newest line is always retained, and order is preserved
    assert_eq!(lines[4].text(), "49");
    assert_eq!(lines[3].text(), "48");
}

#[test]
fn test_buffer_clear_rearms_warning() {
    let buffer = HistoryBuffer::new(2);
    for i in 0..4 {
        buffer.push(OutputLine::Stdout {
            text: format!("{}", i),
            timestamp: i as u64,
        });
    }
    assert!(buffer.has_truncation_warning());
    buffer.clear();
    assert!(!buffer.has_truncation_warning());
    for i in 0..4 {
        buffer.push(OutputLine::Stdout {
            text: format!("{}", i),
            timestamp: i as u64,
        });
    }
    // A fresh warning may be emitted after clear
    assert!(buffer.has_truncation_warning());
}

#[test]
fn test_buffer_warning_message_names_the_limit() {
    let buffer = HistoryBuffer::new(4);
    for i in 0..5 {
        buffer.push(OutputLine::Stdout {
            text: format!("{}", i),
            timestamp: i as u64,
        });
    }
    assert!(buffer.contains_warning("Output truncated: line limit (4) exceeded"));
    assert!(!buffer.contains_warning("no such text"));
}

#[test]
fn test_history_state_exact_overflow_contents() {
    // The sequential core, stepped by hand: at capacity 2, the third push
    // evicts both old lines and leaves the warning followed by the new line,
    // with the warning stamped by the push that inserted it.
    let mut state = HistoryState::new(2);
    state.push(
        OutputLine::Stdout {
            text: "a".to_string(),
            timestamp: 1,
        },
        10,
    );
    state.push(
        OutputLine::Stdout {
            text: "b".to_string(),
            timestamp: 2,
        },
        20,
    );
    assert!(!state.has_truncation_warning());
    state.push(
        OutputLine::Stdout {
            text: "c".to_string(),
            timestamp: 3,
        },
        99,
    );
    assert!(state.has_truncation_warning());
    let all = state.get_all();
    assert_eq!(all.len(), 2);
    assert!(matches!(all[0], OutputLine::Notification { .. }));
    assert_eq!(all[0].text(), "Output truncated: line limit (2) exceeded");
    assert_eq!(all[0].timestamp(), 99);
    assert_eq!(all[1].text(), "c");
    assert_eq!(state.first().unwrap().text(), all[0].text());
    assert_eq!(state.len(), 2);
    assert!(!state.is_empty());
    state.clear();
    assert!(state.is_empty());
    assert!(!state.has_truncation_warning());
}

#[test]
fn test_buffer_contains_warning_ignores_non_notifications() {
    let buffer = HistoryBuffer::new(10);
    buffer.push(OutputLine::Stdout {
        text: "truncated".to_string(),
        timestamp: 0,
    });
    assert!(!buffer.contains_warning("truncated"));
    buffer.push(OutputLine::Notification {
        message: "output was truncated here".to_string(),
        level: NotificationLevel::Warning,
        timestamp: 1,
    });
    assert!(buffer.contains_warning("truncated"));
}

use luau_exec::logs::{
    is_suppressed, message_contains_noise, plan_page, LogChannel, LogDispatch,
};
use luau_exec::protocol::{
    LogMessageType, LuauExecutionTaskLog, LuauExecutionTaskLogEntry, LuauExecutionTaskLogsResponse,
};

fn entry(message: &str, message_type: LogMessageType) -> LuauExecutionTaskLogEntry {
    LuauExecutionTaskLogEntry {
        message: message.to_string(),
        create_time: "2024-01-01T00:00:00Z".to_string(),
        message_type,
    }
}

fn page_of(entries: Vec<LuauExecutionTaskLogEntry>, token: &str) -> LuauExecutionTaskLogsResponse {
    LuauExecutionTaskLogsResponse {
        luau_execution_session_task_logs: vec![LuauExecutionTaskLog {
            path: "tasks/t/logs/1".to_string(),
            structured_messages: entries,
        }],
        next_page_token: token.to_string(),
    }
}

#[test]
fn noise_detection() {
    assert!(message_contains_noise("Failed to load sound"));
    assert!(message_contains_noise("x Failed to load sound rbxassetid://1"));
    assert!(message_contains_noise("prefix Failed to load sound"));
    assert!(!message_contains_noise(""));
    assert!(!message_contains_noise("Failed to load soun"));
    assert!(!message_contains_noise("failed to load sound"));
    assert!(!message_contains_noise("Failed  to load sound"));
}

#[test]
fn noisy_entry_suppressed_in_every_category() {
    let categories = [
        LogMessageType::Error,
        LogMessageType::Warning,
        LogMessageType::Info,
        LogMessageType::Output,
        LogMessageType::Unspecified,
    ];
    for category in categories {
        let e = entry("Failed to load sound rbxassetid://42", category);
        assert!(is_suppressed(&e));
        let (plan, _) = plan_page(&page_of(vec![e], ""));
        assert!(plan.is_empty());
    }
}

#[test]
fn unspecified_entry_suppressed() {
    let e = entry("perfectly ordinary line", LogMessageType::Unspecified);
    assert!(is_suppressed(&e));
    let (plan, _) = plan_page(&page_of(vec![e], ""));
    assert!(plan.is_empty());
}

#[test]
fn surviving_entries_keep_order_channel_and_timestamp() {
    let page = page_of(
        vec![
            entry("first", LogMessageType::Error),
            entry("Failed to load sound in between", LogMessageType::Error),
            entry("second", LogMessageType::Warning),
            entry("third", LogMessageType::Info),
            entry("dropped", LogMessageType::Unspecified),
            entry("fourth", LogMessageType::Output),
        ],
        "",
    );
    let (plan, more) = plan_page(&page);
    assert!(!more);
    let expected: Vec<(LogChannel, &str)> = vec![
        (LogChannel::Error, "first"),
        (LogChannel::Warning, "second"),
        (LogChannel::Info, "third"),
        (LogChannel::RawOutput, "fourth"),
    ];
    assert_eq!(plan.len(), expected.len());
    for (dispatch, (channel, message)) in plan.iter().zip(expected) {
        assert_eq!(dispatch.channel, channel);
        assert_eq!(dispatch.message, message);
        assert_eq!(dispatch.timestamp, "2024-01-01T00:00:00Z");
    }
}

#[test]
fn entries_flattened_across_log_resources() {
    let page = LuauExecutionTaskLogsResponse {
        luau_execution_session_task_logs: vec![
            LuauExecutionTaskLog {
                path: "tasks/t/logs/1".to_string(),
                structured_messages: vec![entry("a", LogMessageType::Info)],
            },
            LuauExecutionTaskLog {
                path: "tasks/t/logs/2".to_string(),
                structured_messages: vec![
                    entry("b", LogMessageType::Info),
                    entry("c", LogMessageType::Output),
                ],
            },
        ],
        next_page_token: String::new(),
    };
    let (plan, more) = plan_page(&page);
    assert!(!more);
    let messages: Vec<&str> = plan.iter().map(|d| d.message.as_str()).collect();
    assert_eq!(messages, vec!["a", "b", "c"]);
}

#[test]
fn pagination_fetches_exactly_two_pages() {
    let pages = vec![
        page_of(vec![entry("page one line", LogMessageType::Info)], "abc"),
        page_of(vec![entry("page two line", LogMessageType::Info)], ""),
    ];
    let mut fetched: usize = 0;
    let mut dispatched: Vec<LogDispatch> = Vec::new();
    let mut next: usize = 0;
    loop {
        let page = &pages[next];
        fetched += 1;
        let (mut plan, more) = plan_page(page);
        dispatched.append(&mut plan);
        if !more {
            break;
        }
        assert_eq!(page.next_page_token, "abc");
        next += 1;
    }
    assert_eq!(fetched, 2);
    assert_eq!(dispatched.len(), 2);
    assert_eq!(dispatched[0].message, "page one line");
    assert_eq!(dispatched[1].message, "page two line");
}

#[test]
fn empty_token_stops_after_first_page() {
    let (_, more) = plan_page(&page_of(vec![], ""));
    assert!(!more);
    let (_, more) = plan_page(&page_of(vec![], "tok"));
    assert!(more);
}

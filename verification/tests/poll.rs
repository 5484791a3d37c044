use luau_exec::poll::{is_terminal, poll_step, state_name, wait_message, PollDecision};
use luau_exec::protocol::LuauExecutionTaskState;

#[test]
fn poller_continues_on_every_non_terminal_state() {
    let non_terminal = [
        LuauExecutionTaskState::Queued,
        LuauExecutionTaskState::Processing,
        LuauExecutionTaskState::Cancelled,
        LuauExecutionTaskState::Unspecified,
    ];
    for state in non_terminal {
        let decision = poll_step(&state, 4);
        assert_eq!(decision, PollDecision::Wait { delay_secs: 4, next_delay_secs: 8 });
        assert!(!matches!(decision, PollDecision::Finish));
    }
}

#[test]
fn poller_finishes_only_on_terminal_states() {
    assert_eq!(poll_step(&LuauExecutionTaskState::Complete, 1), PollDecision::Finish);
    assert_eq!(poll_step(&LuauExecutionTaskState::Failed, 30), PollDecision::Finish);
    assert!(is_terminal(&LuauExecutionTaskState::Complete));
    assert!(is_terminal(&LuauExecutionTaskState::Failed));
    assert!(!is_terminal(&LuauExecutionTaskState::Queued));
    assert!(!is_terminal(&LuauExecutionTaskState::Processing));
    assert!(!is_terminal(&LuauExecutionTaskState::Cancelled));
    assert!(!is_terminal(&LuauExecutionTaskState::Unspecified));
}

#[test]
fn poller_caps_next_delay() {
    let decision = poll_step(&LuauExecutionTaskState::Processing, 16);
    assert_eq!(decision, PollDecision::Wait { delay_secs: 16, next_delay_secs: 30 });
    let decision = poll_step(&LuauExecutionTaskState::Processing, 30);
    assert_eq!(decision, PollDecision::Wait { delay_secs: 30, next_delay_secs: 30 });
}

#[test]
fn state_names() {
    assert_eq!(state_name(&LuauExecutionTaskState::Queued), "Queued");
    assert_eq!(state_name(&LuauExecutionTaskState::Processing), "Processing");
    assert_eq!(state_name(&LuauExecutionTaskState::Cancelled), "Cancelled");
    assert_eq!(state_name(&LuauExecutionTaskState::Complete), "Complete");
    assert_eq!(state_name(&LuauExecutionTaskState::Failed), "Failed");
    assert_eq!(state_name(&LuauExecutionTaskState::Unspecified), "Unspecified");
}

#[test]
fn wait_message_phrasing() {
    assert_eq!(
        wait_message(&LuauExecutionTaskState::Queued, 1),
        "Current state: Queued. Waiting 1 seconds before polling again..."
    );
    assert_eq!(
        wait_message(&LuauExecutionTaskState::Unspecified, 16),
        "Current state: Unspecified. Waiting 16 seconds before polling again..."
    );
}

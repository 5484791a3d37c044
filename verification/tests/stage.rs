use luau_exec::protocol::LuauExecutionBinaryInputResponse;
use luau_exec::stage::{make_binary_input_request, make_task_request, slot_size_matches};

fn slot(size: usize) -> LuauExecutionBinaryInputResponse {
    LuauExecutionBinaryInputResponse {
        path: "binary-inputs/4".to_string(),
        size,
        upload_url: "https://upload.example/one-time".to_string(),
    }
}

#[test]
fn staging_declares_exact_payload_size() {
    let payload = vec![1u8, 2, 3, 4, 5];
    let request = make_binary_input_request(&payload);
    assert_eq!(request.size, 5);
    assert!(slot_size_matches(&payload, &slot(request.size)));
}

#[test]
fn staging_declares_zero_for_empty_payload() {
    let payload: Vec<u8> = Vec::new();
    let request = make_binary_input_request(&payload);
    assert_eq!(request.size, 0);
    assert!(slot_size_matches(&payload, &slot(0)));
}

#[test]
fn mismatched_slot_is_rejected() {
    let payload = vec![0u8; 16];
    assert!(!slot_size_matches(&payload, &slot(15)));
    assert!(!slot_size_matches(&payload, &slot(0)));
}

#[test]
fn task_request_carries_every_field_through() {
    let request = make_task_request(
        "return 0".to_string(),
        "10s".to_string(),
        "binary-inputs/4".to_string(),
        true,
    );
    assert_eq!(request.script, "return 0");
    assert_eq!(request.timeout, "10s");
    assert_eq!(request.binary_input, "binary-inputs/4");
    assert!(request.enable_binary_output);
}

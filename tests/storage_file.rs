use free_cursor_client::storage::{invitation_code, rewrite_machine_id, StorageError};

#[test]
fn machine_id_member_is_replaced() {
    let out = rewrite_machine_id("{\"telemetry.macMachineId\":\"old\",\"a\":1}", "new-id").unwrap();
    let v: serde_json::Value = serde_json::from_str(&out).unwrap();
    assert_eq!(v["telemetry.macMachineId"], serde_json::Value::from("new-id"));
    assert_eq!(v["a"], serde_json::Value::from(1));
}

#[test]
fn storage_without_machine_id_is_kept() {
    let out = rewrite_machine_id("{ \"a\" : [1, 2] }", "new-id").unwrap();
    assert_eq!(out, "{\"a\":[1,2]}");
}

#[test]
fn storage_that_is_not_json_is_refused() {
    assert_eq!(rewrite_machine_id("{not json", "x"), Err(StorageError::Parse));
    assert_eq!(rewrite_machine_id("", "x"), Err(StorageError::Parse));
}

#[test]
fn invitation_code_is_read_from_the_answer() {
    let v: serde_json::Value = serde_json::from_str("{\"promotion\":{\"code\":\"ABC123\"}}").unwrap();
    assert_eq!(invitation_code(&v).as_deref(), Some("ABC123"));
    let v: serde_json::Value = serde_json::from_str("{\"promotion\":{\"code\":7}}").unwrap();
    assert_eq!(invitation_code(&v).as_deref(), Some(""));
    let v: serde_json::Value = serde_json::from_str("{\"promotion\":{}}").unwrap();
    assert_eq!(invitation_code(&v), None);
    let v: serde_json::Value = serde_json::from_str("[1]").unwrap();
    assert_eq!(invitation_code(&v), None);
}

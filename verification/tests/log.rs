use hank_tui::chatlog::{ChatLog, Message, RemoteMessage, Role};

fn remote(role: Role, content: &str, timestamp: u64) -> RemoteMessage {
    RemoteMessage { role, content: content.to_string(), timestamp }
}

fn message(role: Role, content: &str, ms: Option<u64>) -> Message {
    Message {
        role,
        content: content.to_string(),
        created_at: "00:00:00".to_string(),
        created_at_ms: ms,
    }
}

#[test]
fn ingest_rejects_timestamp_at_watermark_and_takes_newer() {
    let mut log = ChatLog::new();
    let (wm, appended) = log.ingest_remote(&vec![remote(Role::Assistant, "old", 100)], 100);
    assert_eq!(appended, 0);
    assert_eq!(wm, 100);
    assert_eq!(log.len(), 0);

    let (wm, appended) = log.ingest_remote(&vec![remote(Role::Assistant, "new", 101)], 100);
    assert_eq!(appended, 1);
    assert_eq!(wm, 101);
    assert_eq!(log.len(), 1);
    assert_eq!(log.messages[0].content, "new");
    assert_eq!(log.messages[0].created_at_ms, Some(101));
}

#[test]
fn ingest_deduplicates_by_role_and_timestamp() {
    let mut log = ChatLog::new();
    log.append(message(Role::Assistant, "known", Some(500)));
    let batch = vec![
        remote(Role::Assistant, "same key", 500),
        remote(Role::User, "same time, other role", 500),
    ];
    let (wm, appended) = log.ingest_remote(&batch, 10);
    assert_eq!(appended, 1);
    assert_eq!(wm, 500);
    assert_eq!(log.len(), 2);
    assert_eq!(log.messages[1].role, Role::User);
}

#[test]
fn ingest_twice_changes_the_log_only_once() {
    let mut log = ChatLog::new();
    let batch = vec![
        remote(Role::Assistant, "a", 11),
        remote(Role::User, "b", 12),
        remote(Role::Assistant, "c", 13),
    ];
    let (wm, appended) = log.ingest_remote(&batch, 10);
    assert_eq!(appended, 3);
    assert_eq!(wm, 13);
    let (wm2, appended2) = log.ingest_remote(&batch, wm);
    assert_eq!(appended2, 0);
    assert_eq!(wm2, 13);
    assert_eq!(log.len(), 3);
}

#[test]
fn ingest_skips_duplicates_within_one_batch() {
    let mut log = ChatLog::new();
    let batch = vec![remote(Role::User, "first", 7), remote(Role::User, "second", 7)];
    let (wm, appended) = log.ingest_remote(&batch, 0);
    assert_eq!(appended, 1);
    assert_eq!(wm, 7);
    assert_eq!(log.messages[0].content, "first");
}

#[test]
fn trim_keeps_short_logs_whole() {
    let mut log = ChatLog::new();
    log.append(message(Role::User, "a", Some(1)));
    log.append(message(Role::Assistant, "b", Some(2)));
    let trimmed = log.trim_for_persistence(5);
    assert_eq!(trimmed.len(), 2);
    assert_eq!(trimmed[0].content, "a");
    assert_eq!(trimmed[1].content, "b");
    assert_eq!(log.len(), 2);
}

#[test]
fn trim_keeps_the_newest_in_original_order() {
    let mut log = ChatLog::new();
    for i in 0..5u64 {
        log.append(message(Role::User, &i.to_string(), Some(i)));
    }
    let trimmed = log.trim_for_persistence(3);
    assert_eq!(trimmed.len(), 3);
    assert_eq!(trimmed[0].content, "2");
    assert_eq!(trimmed[1].content, "3");
    assert_eq!(trimmed[2].content, "4");
    assert_eq!(log.len(), 5);
}

#[test]
fn trim_is_idempotent() {
    let mut log = ChatLog::new();
    for i in 0..5u64 {
        log.append(message(Role::User, &i.to_string(), Some(i)));
    }
    let once = log.trim_for_persistence(3);
    let mut again = ChatLog::new();
    for m in &once {
        again.append(m.duplicate());
    }
    let twice = again.trim_for_persistence(3);
    assert_eq!(once.len(), twice.len());
    for (a, b) in once.iter().zip(twice.iter()) {
        assert_eq!(a.content, b.content);
    }
}

#[test]
fn trim_to_zero_is_empty() {
    let mut log = ChatLog::new();
    log.append(message(Role::User, "a", Some(1)));
    assert_eq!(log.trim_for_persistence(0).len(), 0);
}

#[test]
fn clear_empties_the_log() {
    let mut log = ChatLog::new();
    log.append(message(Role::User, "a", Some(1)));
    log.clear();
    assert_eq!(log.len(), 0);
}

#[test]
fn roles_parse_from_wire_strings() {
    assert_eq!(Role::parse("user"), Role::User);
    assert_eq!(Role::parse("assistant"), Role::Assistant);
    assert_eq!(Role::parse("error"), Role::Error);
    assert_eq!(Role::parse("system"), Role::System);
    assert_eq!(Role::parse("anything else"), Role::System);
}

#[test]
fn banner_without_timestamp_never_blocks_ingest() {
    let mut log = ChatLog::new();
    log.append(message(Role::System, "banner", None));
    let (wm, appended) = log.ingest_remote(&vec![remote(Role::System, "real", 9)], 0);
    assert_eq!(appended, 1);
    assert_eq!(wm, 9);
}

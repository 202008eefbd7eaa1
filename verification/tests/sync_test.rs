use postg::sync::{render_sync_status, sync_status};

#[test]
fn synced_when_all_subscriptions_connected_and_no_lag() {
    let subs = vec![("sub_a".to_string(), Some(42))];
    let reps = vec![(Some("node_b".to_string()), Some("streaming".to_string()), Some(0))];
    let s = sync_status(&subs, &reps);
    assert!(s.is_fully_synced);
    assert_eq!(s.subscriptions[0].name, "sub_a");
    assert_eq!(s.subscriptions[0].status, "connected");
    assert_eq!(s.serving[0].client, "node_b");
    assert_eq!(s.serving[0].lag_bytes, 0);
}

#[test]
fn not_synced_when_disconnected_or_lagging() {
    let s = sync_status(&vec![("s".to_string(), None)], &vec![]);
    assert!(!s.is_fully_synced);
    assert_eq!(s.subscriptions[0].status, "disconnected");
    let s = sync_status(&vec![], &vec![(None, None, Some(17))]);
    assert!(!s.is_fully_synced);
    assert_eq!(s.serving[0].client, "");
    assert_eq!(s.serving[0].status, "");
    let s = sync_status(&vec![], &vec![(None, None, None), (None, None, Some(-5))]);
    assert!(s.is_fully_synced);
    assert_eq!(s.serving[0].lag_bytes, 0);
}

#[test]
fn report_text() {
    let empty = sync_status(&vec![], &vec![]);
    assert_eq!(
        render_sync_status(&empty),
        "Sync Status: ✅ Fully Synced\n\nSubscriptions (Pulling):\n  (none)\n\nServing (Pushing):\n  (none)\n"
    );
    let s = sync_status(
        &vec![("sub".to_string(), None)],
        &vec![(Some("c".to_string()), Some("catchup".to_string()), Some(-3))],
    );
    assert_eq!(
        render_sync_status(&s),
        "Sync Status: 🔄 Syncing/Disconnected\n\nSubscriptions (Pulling):\n  - sub [disconnected]\n\nServing (Pushing):\n  - c [catchup] (lag: -3 bytes)\n"
    );
}

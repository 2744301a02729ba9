use photolib::sync_status::compute_sync_status;
use photolib::types::{PhotoDocument, SyncInfo, SyncStatus};

fn doc_with_commit(commit: Option<u64>) -> PhotoDocument {
    PhotoDocument {
        id: "p1".to_string(),
        filename: "a.jpg".to_string(),
        image_path: "/photos/a.jpg".to_string(),
        base64: "data:image/jpeg;base64,".to_string(),
        full_res_attachment: None,
        author_peer_id: Some("peer-a".to_string()),
        content_commit_id: commit,
        config: None,
        favorite: false,
        stack_id: None,
        is_stack_primary: false,
    }
}

#[test]
fn disconnected_dominates() {
    let info = SyncInfo { connected: false, synced_up_to_local_commit_id: Some(100) };
    assert_eq!(compute_sync_status(&doc_with_commit(Some(5)), info), SyncStatus::Disconnected);
    let info2 = SyncInfo { connected: false, synced_up_to_local_commit_id: None };
    assert_eq!(compute_sync_status(&doc_with_commit(None), info2), SyncStatus::Disconnected);
}

#[test]
fn synced_when_watermark_reaches_commit() {
    let info = SyncInfo { connected: true, synced_up_to_local_commit_id: Some(5) };
    assert_eq!(compute_sync_status(&doc_with_commit(Some(5)), info), SyncStatus::Synced);
}

#[test]
fn pending_when_watermark_behind_commit() {
    let info = SyncInfo { connected: true, synced_up_to_local_commit_id: Some(3) };
    assert_eq!(compute_sync_status(&doc_with_commit(Some(5)), info), SyncStatus::Pending);
}

#[test]
fn unknown_when_commit_missing() {
    let info = SyncInfo { connected: true, synced_up_to_local_commit_id: Some(3) };
    assert_eq!(compute_sync_status(&doc_with_commit(None), info), SyncStatus::Unknown);
}

#[test]
fn unknown_when_watermark_missing() {
    let info = SyncInfo { connected: true, synced_up_to_local_commit_id: None };
    assert_eq!(compute_sync_status(&doc_with_commit(Some(5)), info), SyncStatus::Unknown);
}

#[test]
fn projection_carries_fields_and_status() {
    let info = SyncInfo { connected: true, synced_up_to_local_commit_id: Some(9) };
    let doc = doc_with_commit(Some(7));
    let payloads = photolib::sync_status::collect_photo_payloads(&vec![doc], info);
    assert_eq!(payloads.len(), 1);
    assert_eq!(payloads[0].id, "p1");
    assert_eq!(payloads[0].filename, "a.jpg");
    assert_eq!(payloads[0].author_peer_id, Some("peer-a".to_string()));
    assert_eq!(payloads[0].sync_status, SyncStatus::Synced);
}

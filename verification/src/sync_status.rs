//! Sync-status projection: combines a photo document's local replication
//! commit identifier with the store-wide telemetry (connectivity and the
//! synced-up-to watermark) into one of four statuses. Connectivity
//! dominates; the commit comparison is reached only when connected.

use vstd::prelude::*;

use crate::types::{clone_opt_config, clone_opt_string, clone_opt_token, PhotoDocument,
    PhotoDocumentView, PhotoPayload, PhotoPayloadView, SyncInfo, SyncStatus};

verus! {

/// The status table: disconnected stores dominate; when connected, a present
/// commit identifier compares against a present watermark; a missing value
/// on either side yields Unknown.
pub open spec fn spec_sync_status(content_commit_id: Option<u64>, info: SyncInfo) -> SyncStatus {
    if !info.connected {
        SyncStatus::Disconnected
    } else {
        match (content_commit_id, info.synced_up_to_local_commit_id) {
            (Some(commit), Some(synced_up_to)) => if synced_up_to >= commit {
                SyncStatus::Synced
            } else {
                SyncStatus::Pending
            },
            _ => SyncStatus::Unknown,
        }
    }
}

/// Derives the replication status of one document from the store-wide
/// telemetry, reproducing the status table exactly.
pub fn compute_sync_status(doc: &PhotoDocument, info: SyncInfo) -> (r: SyncStatus)
    ensures
        r == spec_sync_status(doc@.content_commit_id, info),
        !info.connected ==> r == SyncStatus::Disconnected,
        info.connected && doc@.content_commit_id is None ==> r == SyncStatus::Unknown,
        info.connected && info.synced_up_to_local_commit_id is None ==> r == SyncStatus::Unknown,
        (info.connected && doc@.content_commit_id is Some
            && info.synced_up_to_local_commit_id is Some) ==> r == (
        if info.synced_up_to_local_commit_id->0 >= doc@.content_commit_id->0 {
            SyncStatus::Synced
        } else {
            SyncStatus::Pending
        }),
{
    if !info.connected {
        SyncStatus::Disconnected
    } else {
        match (doc.content_commit_id, info.synced_up_to_local_commit_id) {
            (Some(commit), Some(synced_up_to)) => if synced_up_to >= commit {
                SyncStatus::Synced
            } else {
                SyncStatus::Pending
            },
            _ => SyncStatus::Unknown,
        }
    }
}

/// The outward projection of one document: every document field carried
/// over unchanged, plus the derived status.
pub open spec fn spec_project_photo(doc: PhotoDocumentView, info: SyncInfo) -> PhotoPayloadView {
    PhotoPayloadView {
        id: doc.id,
        filename: doc.filename,
        image_path: doc.image_path,
        base64: doc.base64,
        full_res_attachment: doc.full_res_attachment,
        author_peer_id: doc.author_peer_id,
        config: doc.config,
        favorite: doc.favorite,
        stack_id: doc.stack_id,
        is_stack_primary: doc.is_stack_primary,
        sync_status: spec_sync_status(doc.content_commit_id, info),
    }
}

/// Projects one document into its outward payload.
pub fn project_photo(doc: &PhotoDocument, info: SyncInfo) -> (r: PhotoPayload)
    ensures
        r@ == spec_project_photo(doc@, info),
{
    let sync_status = compute_sync_status(doc, info);
    PhotoPayload {
        id: doc.id.clone(),
        filename: doc.filename.clone(),
        image_path: doc.image_path.clone(),
        base64: doc.base64.clone(),
        full_res_attachment: clone_opt_token(&doc.full_res_attachment),
        author_peer_id: clone_opt_string(&doc.author_peer_id),
        config: clone_opt_config(&doc.config),
        favorite: doc.favorite,
        stack_id: clone_opt_string(&doc.stack_id),
        is_stack_primary: doc.is_stack_primary,
        sync_status,
    }
}

/// Projects a queried result set in order, one payload per document.
pub fn collect_photo_payloads(docs: &Vec<PhotoDocument>, info: SyncInfo) -> (r: Vec<PhotoPayload>)
    ensures
        r@.len() == docs@.len(),
        forall|i: int| 0 <= i < docs@.len() ==> r@[i]@ == spec_project_photo(docs@[i]@, info),
{
    let mut out: Vec<PhotoPayload> = Vec::new();
    let mut i: usize = 0;
    while i < docs.len()
        invariant
            i <= docs@.len(),
            out@.len() == i,
            forall|j: int| 0 <= j < i ==> out@[j]@ == spec_project_photo(docs@[j]@, info),
        decreases docs@.len() - i,
    {
        out.push(project_photo(&docs[i], info));
        i += 1;
    }
    out
}

} // verus!

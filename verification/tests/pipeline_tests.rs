use photolib::batch::dedup_last_wins;
use photolib::commands::StoreCommand;
use photolib::pipeline::{build_upsert_docs, plan_upsert_cycle, should_abandon, UpsertPipeline};
use photolib::store_model::StoreModel;
use photolib::types::Photo;

fn photo(id: &str) -> Photo {
    Photo {
        id: id.to_string(),
        image_path: format!("/photos/{id}.jpg"),
        filename: format!("{id}.jpg"),
        base64: "thumb".to_string(),
        full_res_attachment: None,
        config: None,
        favorite: false,
        stack_id: None,
        is_stack_primary: false,
    }
}

fn run_cycle(pipeline: &mut UpsertPipeline, author: &String) -> Vec<Vec<photolib::types::PhotoDocument>> {
    let taken = pipeline.take_cycle();
    let deduped = dedup_last_wins(taken);
    let staged: Vec<Option<photolib::types::AttachmentTokenPayload>> = vec![None; deduped.len()];
    plan_upsert_cycle(&deduped, author, &staged)
        .into_iter()
        .map(|cmd| match cmd {
            StoreCommand::UpsertBatch { docs } => docs,
            _ => panic!("a cycle plans only upserts"),
        })
        .collect()
}

#[test]
fn end_to_end_batches_survive_a_timeout() {
    let author = "peer-local".to_string();
    let mut pipeline = UpsertPipeline::new();
    let photos: Vec<Photo> = (0..120).map(|i| photo(&format!("p{i:03}"))).collect();
    pipeline.enqueue_upsert_photos_from_paths(photos).unwrap();

    let batches = run_cycle(&mut pipeline, &author);
    assert_eq!(batches.len(), 3);
    assert_eq!(batches[0].len(), 50);
    assert_eq!(batches[1].len(), 50);
    assert_eq!(batches[2].len(), 20);

    // The first two submissions complete within the watchdog window; the
    // third exceeds it and is abandoned without being applied.
    let mut store = StoreModel::new();
    let mut submitted = 0;
    for (idx, batch) in batches.into_iter().enumerate() {
        let elapsed_ms: u64 = if idx == 2 { 61_000 } else { 10_000 };
        if should_abandon(elapsed_ms) {
            continue;
        }
        store.apply_upsert_batch(batch);
        submitted += 1;
    }
    assert_eq!(submitted, 2);
    assert_eq!(store.photos.len(), 100);

    // The pipeline stays live: a later enqueue flows through the next cycle.
    pipeline.enqueue_upsert_photos_from_paths(vec![photo("late")]).unwrap();
    let next_batches = run_cycle(&mut pipeline, &author);
    assert_eq!(next_batches.len(), 1);
    for batch in next_batches {
        store.apply_upsert_batch(batch);
    }
    assert_eq!(store.photos.len(), 101);
    assert!(store.photos.iter().any(|d| d.id == "late"));
}

#[test]
fn worker_tags_documents_with_the_local_peer() {
    let author = "peer-local".to_string();
    let deduped = vec![photo("a")];
    let docs = build_upsert_docs(&deduped, &author, &vec![None]);
    assert_eq!(docs.len(), 1);
    assert_eq!(docs[0].author_peer_id, Some("peer-local".to_string()));
    assert_eq!(docs[0].filename, "a.jpg");
    assert_eq!(docs[0].content_commit_id, None);
}

#[test]
fn cycle_dedup_converges_before_submission() {
    let author = "peer-local".to_string();
    let mut pipeline = UpsertPipeline::new();
    pipeline
        .enqueue_upsert_photos_from_paths(vec![photo("dup"), photo("other")])
        .unwrap();
    pipeline.enqueue_upsert_photos_from_paths(vec![photo("dup")]).unwrap();
    let batches = run_cycle(&mut pipeline, &author);
    assert_eq!(batches.len(), 1);
    assert_eq!(batches[0].len(), 2);
    assert_eq!(batches[0][0].id, "other");
    assert_eq!(batches[0][1].id, "dup");
}

#[test]
fn enqueue_fails_only_after_shutdown() {
    let mut pipeline = UpsertPipeline::new();
    assert!(pipeline.enqueue_upsert_photos_from_paths(vec![photo("a")]).is_ok());
    pipeline.shut_down();
    let refused = pipeline.enqueue_upsert_photos_from_paths(vec![photo("b")]);
    assert!(refused.is_err());
    assert_eq!(refused.unwrap_err().message(), "Failed to queue photo upsert");
}

#[test]
fn watchdog_boundary() {
    assert!(!should_abandon(59_999));
    assert!(should_abandon(60_000));
    assert!(should_abandon(60_001));
    assert_eq!(photolib::pipeline::HEARTBEAT_INTERVAL_MS, 5_000);
}

use photolib::batch::{dedup_last_wins, split_batches};
use photolib::types::Photo;

fn photo_with(id: &str, base64: &str) -> Photo {
    Photo {
        id: id.to_string(),
        image_path: format!("/p/{id}.jpg"),
        filename: format!("{id}.jpg"),
        base64: base64.to_string(),
        full_res_attachment: None,
        config: None,
        favorite: false,
        stack_id: None,
        is_stack_primary: false,
    }
}

#[test]
fn dedup_keeps_last_occurrence() {
    let photos = vec![
        photo_with("a", "first"),
        photo_with("b", "only"),
        photo_with("a", "second"),
    ];
    let deduped = dedup_last_wins(photos);
    assert_eq!(deduped.len(), 2);
    assert_eq!(deduped[0].id, "b");
    assert_eq!(deduped[1].id, "a");
    assert_eq!(deduped[1].base64, "second");
}

#[test]
fn dedup_keeps_order_without_duplicates() {
    let photos = vec![photo_with("a", "x"), photo_with("b", "y"), photo_with("c", "z")];
    let deduped = dedup_last_wins(photos);
    let ids: Vec<&str> = deduped.iter().map(|p| p.id.as_str()).collect();
    assert_eq!(ids, vec!["a", "b", "c"]);
}

#[test]
fn partition_covers_every_item_in_ceil_batches() {
    let items: Vec<u64> = (0..120).collect();
    let batches = split_batches(items, 50);
    assert_eq!(batches.len(), 3);
    assert_eq!(batches[0].len(), 50);
    assert_eq!(batches[1].len(), 50);
    assert_eq!(batches[2].len(), 20);
    let flattened: Vec<u64> = batches.into_iter().flatten().collect();
    let expected: Vec<u64> = (0..120).collect();
    assert_eq!(flattened, expected);
}

#[test]
fn partition_of_exact_multiple() {
    let items: Vec<u64> = (0..50).collect();
    let batches = split_batches(items, 50);
    assert_eq!(batches.len(), 1);
    assert_eq!(batches[0].len(), 50);
}

#[test]
fn partition_of_empty_input_is_empty() {
    let items: Vec<u64> = vec![];
    let batches = split_batches(items, 50);
    assert_eq!(batches.len(), 0);
}

#[test]
fn partition_at_ui_prebatch_size() {
    let items: Vec<u64> = (0..60).collect();
    let batches = split_batches(items, photolib::pipeline::UPSERT_BATCH_SIZE);
    assert_eq!(batches.len(), 3);
    assert_eq!(batches[0].len(), 25);
    assert_eq!(batches[1].len(), 25);
    assert_eq!(batches[2].len(), 10);
}

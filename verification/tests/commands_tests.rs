use photolib::commands::{photos_query, remove_photo, state_doc_id, state_query, update_photo_config,
    StoreCommand};
use photolib::text::dec_u64;
use photolib::types::{PhotoConfig, PhotoDocument};

fn doc(id: &str) -> PhotoDocument {
    PhotoDocument {
        id: id.to_string(),
        filename: format!("{id}.jpg"),
        image_path: format!("/p/{id}.jpg"),
        base64: "thumb".to_string(),
        full_res_attachment: None,
        author_peer_id: None,
        content_commit_id: None,
        config: None,
        favorite: false,
        stack_id: None,
        is_stack_primary: false,
    }
}

#[test]
fn decimal_rendering() {
    assert_eq!(dec_u64(0), "0");
    assert_eq!(dec_u64(7), "7");
    assert_eq!(dec_u64(10), "10");
    assert_eq!(dec_u64(49), "49");
    assert_eq!(dec_u64(120), "120");
    assert_eq!(dec_u64(18_446_744_073_709_551_615), "18446744073709551615");
}

#[test]
fn fixed_statement_texts() {
    assert_eq!(
        remove_photo("a".to_string()).query_text(),
        "DELETE FROM photos WHERE _id = :id"
    );
    assert_eq!(
        photolib::commands::clear_photos().query_text(),
        "DELETE FROM photos WHERE _id != ''"
    );
    assert_eq!(
        update_photo_config("a".to_string(), PhotoConfig("c".to_string())).query_text(),
        "UPDATE photos SET config = :config WHERE _id = :id"
    );
    assert_eq!(
        photolib::commands::update_photo_favorite("a".to_string(), true).query_text(),
        "UPDATE photos SET favorite = :favorite WHERE _id = :id"
    );
    assert_eq!(photos_query(), "SELECT * FROM photos");
    assert_eq!(state_query(), "SELECT * FROM app_state WHERE _id = :id");
    assert_eq!(state_doc_id(), "root");
}

#[test]
fn upsert_statement_lists_one_placeholder_per_document() {
    let cmd = StoreCommand::UpsertBatch { docs: vec![doc("a"), doc("b"), doc("c")] };
    assert_eq!(
        cmd.query_text(),
        "INSERT INTO COLLECTION photos (full_res_attachment ATTACHMENT) DOCUMENTS \
         (:doc0), (:doc1), (:doc2) ON ID CONFLICT DO UPDATE"
    );
    let single = StoreCommand::UpsertBatch { docs: vec![doc("a")] };
    assert_eq!(
        single.query_text(),
        "INSERT INTO COLLECTION photos (full_res_attachment ATTACHMENT) DOCUMENTS \
         (:doc0) ON ID CONFLICT DO UPDATE"
    );
}

use photolib::commands::StoreCommand;
use photolib::store_model::{interpret_loaded_state, normalize_state, LoadedState, StoreModel};
use photolib::types::{AppState, Photo, PhotoConfig, PhotoDocument};

fn doc(id: &str, base64: &str) -> PhotoDocument {
    PhotoDocument {
        id: id.to_string(),
        filename: format!("{id}.jpg"),
        image_path: format!("/p/{id}.jpg"),
        base64: base64.to_string(),
        full_res_attachment: None,
        author_peer_id: Some("peer-a".to_string()),
        content_commit_id: None,
        config: None,
        favorite: false,
        stack_id: None,
        is_stack_primary: false,
    }
}

fn photo(id: &str, path: &str) -> Photo {
    Photo {
        id: id.to_string(),
        image_path: path.to_string(),
        filename: "x.jpg".to_string(),
        base64: "thumb".to_string(),
        full_res_attachment: None,
        config: None,
        favorite: false,
        stack_id: None,
        is_stack_primary: false,
    }
}

#[test]
fn upserting_same_id_twice_converges_to_one_document() {
    let mut store = StoreModel::new();
    store.upsert_one(doc("a", "first payload"));
    store.upsert_one(doc("a", "second payload"));
    assert_eq!(store.photos.len(), 1);
    assert_eq!(store.photos[0].id, "a");
    assert_eq!(store.photos[0].base64, "second payload");
    assert_eq!(store.photos[0].content_commit_id, Some(1));
    assert_eq!(store.next_commit_id, 2);
}

#[test]
fn upsert_assigns_monotonic_commit_ids() {
    let mut store = StoreModel::new();
    store.apply_upsert_batch(vec![doc("a", "x"), doc("b", "y"), doc("c", "z")]);
    assert_eq!(store.photos.len(), 3);
    assert_eq!(store.photos[0].content_commit_id, Some(0));
    assert_eq!(store.photos[1].content_commit_id, Some(1));
    assert_eq!(store.photos[2].content_commit_id, Some(2));
}

#[test]
fn remove_photo_deletes_only_the_target() {
    let mut store = StoreModel::new();
    store.apply_upsert_batch(vec![doc("a", "x"), doc("b", "y")]);
    store.apply_command(photolib::commands::remove_photo("a".to_string()));
    assert_eq!(store.photos.len(), 1);
    assert_eq!(store.photos[0].id, "b");
}

#[test]
fn clear_photos_empties_the_collection() {
    let mut store = StoreModel::new();
    store.apply_upsert_batch(vec![doc("a", "x"), doc("b", "y")]);
    store.apply_command(photolib::commands::clear_photos());
    assert_eq!(store.photos.len(), 0);
}

#[test]
fn update_config_touches_only_the_target() {
    let mut store = StoreModel::new();
    store.apply_upsert_batch(vec![doc("a", "x"), doc("b", "y")]);
    store.apply_command(photolib::commands::update_photo_config(
        "b".to_string(),
        PhotoConfig("rotated".to_string()),
    ));
    assert!(store.photos[0].config.is_none());
    assert_eq!(store.photos[1].config.as_ref().map(|c| c.0.clone()), Some("rotated".to_string()));
}

#[test]
fn update_favorite_for_several_ids() {
    let mut store = StoreModel::new();
    store.apply_upsert_batch(vec![doc("a", "x"), doc("b", "y"), doc("c", "z")]);
    let cmds = photolib::commands::update_photos_favorite(
        vec!["a".to_string(), "c".to_string()],
        true,
    );
    store.apply_commands(cmds);
    assert!(store.photos[0].favorite);
    assert!(!store.photos[1].favorite);
    assert!(store.photos[2].favorite);
}

#[test]
fn stack_update_marks_exactly_the_primary() {
    let mut store = StoreModel::new();
    store.apply_upsert_batch(vec![doc("a", "x"), doc("b", "y"), doc("c", "z")]);
    let cmds = photolib::commands::update_photo_stack(
        vec!["a".to_string(), "b".to_string()],
        "stack-1".to_string(),
        "b".to_string(),
    );
    store.apply_commands(cmds);
    assert_eq!(store.photos[0].stack_id, Some("stack-1".to_string()));
    assert!(!store.photos[0].is_stack_primary);
    assert_eq!(store.photos[1].stack_id, Some("stack-1".to_string()));
    assert!(store.photos[1].is_stack_primary);
    assert_eq!(store.photos[2].stack_id, None);
}

#[test]
fn set_stack_primary_moves_the_mark() {
    let mut store = StoreModel::new();
    store.apply_upsert_batch(vec![doc("a", "x"), doc("b", "y")]);
    store.apply_commands(photolib::commands::update_photo_stack(
        vec!["a".to_string(), "b".to_string()],
        "stack-1".to_string(),
        "a".to_string(),
    ));
    store.apply_commands(photolib::commands::set_stack_primary(
        "stack-1".to_string(),
        "b".to_string(),
    ));
    assert!(!store.photos[0].is_stack_primary);
    assert!(store.photos[1].is_stack_primary);
}

#[test]
fn clear_photo_stack_detaches_the_photos() {
    let mut store = StoreModel::new();
    store.apply_upsert_batch(vec![doc("a", "x"), doc("b", "y")]);
    store.apply_commands(photolib::commands::update_photo_stack(
        vec!["a".to_string(), "b".to_string()],
        "stack-1".to_string(),
        "a".to_string(),
    ));
    store.apply_commands(photolib::commands::clear_photo_stack(vec!["a".to_string()]));
    assert_eq!(store.photos[0].stack_id, None);
    assert!(!store.photos[0].is_stack_primary);
    assert_eq!(store.photos[1].stack_id, Some("stack-1".to_string()));
}

#[test]
fn state_round_trip_preserves_nonempty_ids() {
    let mut store = StoreModel::new();
    let mut state = AppState { images: vec![photo("a", "/p/a.jpg"), photo("b", "/p/b.jpg")] };
    let cmd = photolib::reducer::dispatch(
        &mut state,
        photolib::types::AppAction::SetImageLibraryContent {
            images: vec![photo("a", "/p/a.jpg")],
        },
    );
    store.apply_command(cmd);
    let reloaded = store.load_state();
    assert_eq!(reloaded.images.len(), 1);
    assert_eq!(reloaded.images[0].id, "a");
    assert_eq!(reloaded.images[0].image_path, "/p/a.jpg");
}

#[test]
fn reload_normalizes_empty_ids_to_image_path() {
    let mut store = StoreModel::new();
    let state = AppState { images: vec![photo("", "/p/legacy.jpg"), photo("b", "/p/b.jpg")] };
    store.apply_command(StoreCommand::PersistState { state });
    let reloaded = store.load_state();
    assert_eq!(reloaded.images[0].id, "/p/legacy.jpg");
    assert_eq!(reloaded.images[1].id, "b");
}

#[test]
fn missing_and_mismatched_state_reset_to_default() {
    let store = StoreModel::new();
    assert_eq!(store.load_state().images.len(), 0);
    assert_eq!(interpret_loaded_state(LoadedState::Missing).images.len(), 0);
    assert_eq!(interpret_loaded_state(LoadedState::SchemaMismatch).images.len(), 0);
    let loaded = interpret_loaded_state(LoadedState::Loaded(AppState {
        images: vec![photo("", "/p/x.jpg")],
    }));
    assert_eq!(loaded.images[0].id, "/p/x.jpg");
}

#[test]
fn state_notification_keeps_the_cache_on_a_bad_document() {
    let mut state = AppState { images: vec![photo("keep", "/p/k.jpg")] };
    photolib::store_model::apply_state_notification(&mut state, LoadedState::SchemaMismatch);
    assert_eq!(state.images.len(), 1);
    photolib::store_model::apply_state_notification(&mut state, LoadedState::Missing);
    assert_eq!(state.images.len(), 1);
    photolib::store_model::apply_state_notification(
        &mut state,
        LoadedState::Loaded(AppState { images: vec![photo("", "/p/new.jpg")] }),
    );
    assert_eq!(state.images.len(), 1);
    assert_eq!(state.images[0].id, "/p/new.jpg");
}

#[test]
fn normalize_leaves_nonempty_ids_alone() {
    let state = AppState { images: vec![photo("keep", "/p/k.jpg")] };
    let normalized = normalize_state(state);
    assert_eq!(normalized.images[0].id, "keep");
}

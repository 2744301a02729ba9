use photolib::commands::StoreCommand;
use photolib::types::{AppAction, AppState, Photo};

fn photo(id: &str, path: &str) -> Photo {
    Photo {
        id: id.to_string(),
        image_path: path.to_string(),
        filename: "x.jpg".to_string(),
        base64: "data:image/jpeg;base64,".to_string(),
        full_res_attachment: None,
        config: None,
        favorite: false,
        stack_id: None,
        is_stack_primary: false,
    }
}

fn assert_states_equal(a: &AppState, b: &AppState) {
    assert_eq!(a.images.len(), b.images.len());
    for (pa, pb) in a.images.iter().zip(b.images.iter()) {
        assert_eq!(pa.id, pb.id);
        assert_eq!(pa.image_path, pb.image_path);
        assert_eq!(pa.filename, pb.filename);
        assert_eq!(pa.base64, pb.base64);
        assert_eq!(pa.favorite, pb.favorite);
        assert_eq!(pa.stack_id, pb.stack_id);
        assert_eq!(pa.is_stack_primary, pb.is_stack_primary);
    }
}

#[test]
fn set_replaces_whole_list() {
    let mut state = AppState { images: vec![photo("a", "/p/a.jpg")] };
    state.reduce(AppAction::SetImageLibraryContent {
        images: vec![photo("b", "/p/b.jpg"), photo("c", "/p/c.jpg")],
    });
    assert_eq!(state.images.len(), 2);
    assert_eq!(state.images[0].id, "b");
    assert_eq!(state.images[1].id, "c");
}

#[test]
fn clear_empties_the_list() {
    let mut state = AppState { images: vec![photo("a", "/p/a.jpg"), photo("b", "/p/b.jpg")] };
    state.reduce(AppAction::ClearImageLibraryContent);
    assert_eq!(state.images.len(), 0);
}

#[test]
fn replay_is_deterministic() {
    let actions = || {
        vec![
            AppAction::SetImageLibraryContent { images: vec![photo("a", "/p/a.jpg")] },
            AppAction::ClearImageLibraryContent,
            AppAction::SetImageLibraryContent {
                images: vec![photo("b", "/p/b.jpg"), photo("c", "/p/c.jpg")],
            },
        ]
    };
    let s0 = AppState { images: vec![photo("z", "/p/z.jpg")] };
    let r1 = photolib::reducer::replay(s0.duplicate(), actions());
    let r2 = photolib::reducer::replay(s0, actions());
    assert_states_equal(&r1, &r2);
    assert_eq!(r1.images.len(), 2);
    assert_eq!(r1.images[0].id, "b");
}

#[test]
fn dispatch_advances_state_and_persists_it() {
    let mut state = AppState { images: vec![] };
    let cmd = photolib::reducer::dispatch(
        &mut state,
        AppAction::SetImageLibraryContent { images: vec![photo("a", "/p/a.jpg")] },
    );
    assert_eq!(state.images.len(), 1);
    match cmd {
        StoreCommand::PersistState { state: persisted } => {
            assert_states_equal(&persisted, &state);
        }
        _ => panic!("dispatch must persist the new state"),
    }
}

#[test]
fn add_photo_appends_and_persists() {
    let mut state = AppState { images: vec![photo("a", "/p/a.jpg")] };
    let cmd = photolib::reducer::add_photo_to_library(&mut state, photo("b", "/p/b.jpg"));
    assert_eq!(state.images.len(), 2);
    assert_eq!(state.images[1].id, "b");
    match cmd {
        StoreCommand::PersistState { state: persisted } => {
            assert_states_equal(&persisted, &state);
        }
        _ => panic!("add must persist the new state"),
    }
}

#[test]
fn clear_library_deletes_photos_and_persists_empty_state() {
    let mut state = AppState { images: vec![photo("a", "/p/a.jpg")] };
    let cmds = photolib::reducer::clear_library(&mut state);
    assert_eq!(state.images.len(), 0);
    assert_eq!(cmds.len(), 2);
    assert!(matches!(cmds[0], StoreCommand::ClearPhotos));
    match &cmds[1] {
        StoreCommand::PersistState { state: persisted } => {
            assert_eq!(persisted.images.len(), 0);
        }
        _ => panic!("second command must persist the cleared state"),
    }
}

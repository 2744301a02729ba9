//! Store commands: the typed write statements the library hands to the
//! store driver. Each repository operation is a pure builder from plain
//! values to a command (or a list of them); executing a command against the
//! store is the driver's job, and its observable effect is
//! `store_model::spec_apply_command`.

use vstd::prelude::*;

use crate::text::{dec_u64, spec_dec};
use crate::types::{AppState, AppStateView, PhotoConfig, PhotoDocument, PhotoDocumentView};

verus! {

/// Mathematical value of a store command.
pub ghost enum StoreCommandView {
    UpsertBatch { docs: Seq<PhotoDocumentView> },
    RemovePhoto { id: Seq<char> },
    ClearPhotos,
    UpdatePhotoConfig { id: Seq<char>, config: Seq<char> },
    UpdatePhotoFavorite { id: Seq<char>, favorite: bool },
    UpdatePhotoStack { id: Seq<char>, stack_id: Seq<char>, is_stack_primary: bool },
    ResetStackPrimary { stack_id: Seq<char> },
    SetStackPrimary { id: Seq<char> },
    ClearPhotoStack { id: Seq<char> },
    PersistState { state: AppStateView },
}

/// A write statement for the store: one batched upsert, one targeted
/// deletion or field update, or the persisted application state.
pub enum StoreCommand {
    UpsertBatch { docs: Vec<PhotoDocument> },
    RemovePhoto { id: String },
    ClearPhotos,
    UpdatePhotoConfig { id: String, config: PhotoConfig },
    UpdatePhotoFavorite { id: String, favorite: bool },
    UpdatePhotoStack { id: String, stack_id: String, is_stack_primary: bool },
    ResetStackPrimary { stack_id: String },
    SetStackPrimary { id: String },
    ClearPhotoStack { id: String },
    PersistState { state: AppState },
}

impl View for StoreCommand {
    type V = StoreCommandView;

    open spec fn view(&self) -> StoreCommandView {
        match self {
            StoreCommand::UpsertBatch { docs } => StoreCommandView::UpsertBatch {
                docs: docs@.map_values(|d: PhotoDocument| d@),
            },
            StoreCommand::RemovePhoto { id } => StoreCommandView::RemovePhoto { id: id@ },
            StoreCommand::ClearPhotos => StoreCommandView::ClearPhotos,
            StoreCommand::UpdatePhotoConfig { id, config } => StoreCommandView::UpdatePhotoConfig {
                id: id@,
                config: config@,
            },
            StoreCommand::UpdatePhotoFavorite { id, favorite } => {
                StoreCommandView::UpdatePhotoFavorite { id: id@, favorite: *favorite }
            }
            StoreCommand::UpdatePhotoStack { id, stack_id, is_stack_primary } => {
                StoreCommandView::UpdatePhotoStack {
                    id: id@,
                    stack_id: stack_id@,
                    is_stack_primary: *is_stack_primary,
                }
            }
            StoreCommand::ResetStackPrimary { stack_id } => StoreCommandView::ResetStackPrimary {
                stack_id: stack_id@,
            },
            StoreCommand::SetStackPrimary { id } => StoreCommandView::SetStackPrimary { id: id@ },
            StoreCommand::ClearPhotoStack { id } => StoreCommandView::ClearPhotoStack { id: id@ },
            StoreCommand::PersistState { state } => StoreCommandView::PersistState {
                state: state@,
            },
        }
    }
}

/// The placeholder for the i-th document of a batched upsert.
pub open spec fn spec_doc_placeholder(i: nat) -> Seq<char> {
    "(:doc"@ + spec_dec(i) + ")"@
}

/// The comma-separated placeholder list for `n` documents, in order.
pub open spec fn spec_doc_placeholders(n: nat) -> Seq<char>
    decreases n,
{
    if n == 0 {
        Seq::empty()
    } else if n == 1 {
        spec_doc_placeholder(0)
    } else {
        spec_doc_placeholders((n - 1) as nat) + ", "@ + spec_doc_placeholder((n - 1) as nat)
    }
}

/// The statement text of a batched upsert over `n` documents.
pub open spec fn spec_upsert_query_text(n: nat) -> Seq<char> {
    "INSERT INTO COLLECTION photos (full_res_attachment ATTACHMENT) DOCUMENTS "@
        + spec_doc_placeholders(n) + " ON ID CONFLICT DO UPDATE"@
}

/// The statement text of each command, with its named parameters left as
/// placeholders: the photo fields and ids travel as parameters, never
/// spliced into the text.
pub open spec fn spec_query_text(c: StoreCommandView) -> Seq<char> {
    match c {
        StoreCommandView::UpsertBatch { docs } => spec_upsert_query_text(docs.len()),
        StoreCommandView::RemovePhoto { .. } => "DELETE FROM photos WHERE _id = :id"@,
        StoreCommandView::ClearPhotos => "DELETE FROM photos WHERE _id != ''"@,
        StoreCommandView::UpdatePhotoConfig { .. } =>
            "UPDATE photos SET config = :config WHERE _id = :id"@,
        StoreCommandView::UpdatePhotoFavorite { .. } =>
            "UPDATE photos SET favorite = :favorite WHERE _id = :id"@,
        StoreCommandView::UpdatePhotoStack { .. } =>
            "UPDATE photos SET stack_id = :stack_id, is_stack_primary = :is_stack_primary WHERE _id = :id"@,
        StoreCommandView::ResetStackPrimary { .. } =>
            "UPDATE photos SET is_stack_primary = false WHERE stack_id = :stack_id"@,
        StoreCommandView::SetStackPrimary { .. } =>
            "UPDATE photos SET is_stack_primary = true WHERE _id = :id"@,
        StoreCommandView::ClearPhotoStack { .. } =>
            "UPDATE photos SET stack_id = NULL, is_stack_primary = false WHERE _id = :id"@,
        StoreCommandView::PersistState { .. } =>
            "INSERT INTO app_state DOCUMENTS (:doc) ON ID CONFLICT DO UPDATE"@,
    }
}

impl StoreCommand {
    /// Renders the statement text the store driver executes for this
    /// command.
    #[verifier::loop_isolation(false)]
    pub fn query_text(&self) -> (r: String)
        ensures
            r@ == spec_query_text(self@),
    {
        match self {
            StoreCommand::UpsertBatch { docs } => {
                let n = docs.len();
                let mut s = String::new();
                s.append("INSERT INTO COLLECTION photos (full_res_attachment ATTACHMENT) DOCUMENTS ");
                let mut i: usize = 0;
                while i < n
                    invariant
                        i <= n,
                        s@ == "INSERT INTO COLLECTION photos (full_res_attachment ATTACHMENT) DOCUMENTS "@
                            + spec_doc_placeholders(i as nat),
                    decreases n - i,
                {
                    let ghost before = s@;
                    if i > 0 {
                        s.append(", ");
                    }
                    s.append("(:doc");
                    let d = dec_u64(i as u64);
                    s.append(d.as_str());
                    s.append(")");
                    proof {
                        if i == 0 {
                            assert(spec_doc_placeholders(1) == spec_doc_placeholder(0));
                            assert(s@ =~= "INSERT INTO COLLECTION photos (full_res_attachment ATTACHMENT) DOCUMENTS "@
                                + spec_doc_placeholders((i + 1) as nat));
                        } else {
                            assert(s@ =~= "INSERT INTO COLLECTION photos (full_res_attachment ATTACHMENT) DOCUMENTS "@
                                + spec_doc_placeholders((i + 1) as nat));
                        }
                    }
                    i += 1;
                }
                s.append(" ON ID CONFLICT DO UPDATE");
                proof {
                    assert(s@ =~= spec_query_text(self@));
                }
                s
            }
            StoreCommand::RemovePhoto { .. } => "DELETE FROM photos WHERE _id = :id".to_owned(),
            StoreCommand::ClearPhotos => "DELETE FROM photos WHERE _id != ''".to_owned(),
            StoreCommand::UpdatePhotoConfig { .. } => {
                "UPDATE photos SET config = :config WHERE _id = :id".to_owned()
            }
            StoreCommand::UpdatePhotoFavorite { .. } => {
                "UPDATE photos SET favorite = :favorite WHERE _id = :id".to_owned()
            }
            StoreCommand::UpdatePhotoStack { .. } => {
                "UPDATE photos SET stack_id = :stack_id, is_stack_primary = :is_stack_primary WHERE _id = :id".to_owned()
            }
            StoreCommand::ResetStackPrimary { .. } => {
                "UPDATE photos SET is_stack_primary = false WHERE stack_id = :stack_id".to_owned()
            }
            StoreCommand::SetStackPrimary { .. } => {
                "UPDATE photos SET is_stack_primary = true WHERE _id = :id".to_owned()
            }
            StoreCommand::ClearPhotoStack { .. } => {
                "UPDATE photos SET stack_id = NULL, is_stack_primary = false WHERE _id = :id"
                    .to_owned()
            }
            StoreCommand::PersistState { .. } => {
                "INSERT INTO app_state DOCUMENTS (:doc) ON ID CONFLICT DO UPDATE".to_owned()
            }
        }
    }
}

/// The query that reads the whole photos collection.
pub fn photos_query() -> (r: String)
    ensures
        r@ == "SELECT * FROM photos"@,
{
    "SELECT * FROM photos".to_owned()
}

/// The query that reads the persisted application state by its document id.
pub fn state_query() -> (r: String)
    ensures
        r@ == "SELECT * FROM app_state WHERE _id = :id"@,
{
    "SELECT * FROM app_state WHERE _id = :id".to_owned()
}

/// The fixed document id under which the application state is persisted.
pub fn state_doc_id() -> (r: String)
    ensures
        r@ == "root"@,
{
    "root".to_owned()
}

/// Deletes one photo document by id.
pub fn remove_photo(id: String) -> (r: StoreCommand)
    ensures
        r@ == (StoreCommandView::RemovePhoto { id: id@ }),
{
    StoreCommand::RemovePhoto { id }
}

/// Deletes every photo document.
pub fn clear_photos() -> (r: StoreCommand)
    ensures
        r@ == StoreCommandView::ClearPhotos,
{
    StoreCommand::ClearPhotos
}

/// Sets the settings blob of one photo document.
pub fn update_photo_config(id: String, config: PhotoConfig) -> (r: StoreCommand)
    ensures
        r@ == (StoreCommandView::UpdatePhotoConfig { id: id@, config: config@ }),
{
    StoreCommand::UpdatePhotoConfig { id, config }
}

/// Sets the favorite flag of one photo document.
pub fn update_photo_favorite(id: String, favorite: bool) -> (r: StoreCommand)
    ensures
        r@ == (StoreCommandView::UpdatePhotoFavorite { id: id@, favorite }),
{
    StoreCommand::UpdatePhotoFavorite { id, favorite }
}

/// Sets the favorite flag of several photo documents: one update per id, in
/// the given order.
#[verifier::loop_isolation(false)]
pub fn update_photos_favorite(ids: Vec<String>, favorite: bool) -> (r: Vec<StoreCommand>)
    ensures
        r@.len() == ids@.len(),
        forall|i: int| 0 <= i < ids@.len() ==> r@[i]@ == (StoreCommandView::UpdatePhotoFavorite {
            id: ids@[i]@,
            favorite,
        }),
{
    let mut out: Vec<StoreCommand> = Vec::new();
    let mut rest = ids;
    let ghost all = rest@;
    proof {
        assert(all.skip(0) =~= all);
    }
    while rest.len() > 0
        invariant
            out@.len() + rest@.len() == all.len(),
            all.skip(out@.len() as int) == rest@,
            forall|i: int| 0 <= i < out@.len() ==> out@[i]@
                == (StoreCommandView::UpdatePhotoFavorite { id: all[i]@, favorite }),
        decreases rest@.len(),
    {
        let ghost k = out@.len() as int;
        let id = rest.remove(0);
        proof {
            assert(all.skip(k)[0] == all[k]);
            assert(all.skip(k).remove(0) =~= all.skip(k + 1));
        }
        out.push(update_photo_favorite(id, favorite));
        proof {
            assert(out@[k]@ == (StoreCommandView::UpdatePhotoFavorite { id: all[k]@, favorite }));
        }
    }
    out
}

/// Groups several photos into one stack: each photo gets the stack id, and
/// exactly the photo whose id equals `primary_id` is marked primary.
#[verifier::loop_isolation(false)]
pub fn update_photo_stack(photo_ids: Vec<String>, stack_id: String, primary_id: String) -> (r:
    Vec<StoreCommand>)
    ensures
        r@.len() == photo_ids@.len(),
        forall|i: int| 0 <= i < photo_ids@.len() ==> r@[i]@
            == (StoreCommandView::UpdatePhotoStack {
            id: photo_ids@[i]@,
            stack_id: stack_id@,
            is_stack_primary: photo_ids@[i]@ == primary_id@,
        }),
{
    let mut out: Vec<StoreCommand> = Vec::new();
    let mut rest = photo_ids;
    let ghost all = rest@;
    proof {
        assert(all.skip(0) =~= all);
    }
    while rest.len() > 0
        invariant
            out@.len() + rest@.len() == all.len(),
            all.skip(out@.len() as int) == rest@,
            forall|i: int| 0 <= i < out@.len() ==> out@[i]@
                == (StoreCommandView::UpdatePhotoStack {
                id: all[i]@,
                stack_id: stack_id@,
                is_stack_primary: all[i]@ == primary_id@,
            }),
        decreases rest@.len(),
    {
        let ghost k = out@.len() as int;
        let id = rest.remove(0);
        proof {
            assert(all.skip(k)[0] == all[k]);
            assert(all.skip(k).remove(0) =~= all.skip(k + 1));
        }
        let is_primary = id.eq(&primary_id);
        out.push(StoreCommand::UpdatePhotoStack {
            id,
            stack_id: stack_id.clone(),
            is_stack_primary: is_primary,
        });
    }
    out
}

/// Makes one photo the primary of its stack: first every photo of the stack
/// loses the primary mark, then the chosen photo gains it.
pub fn set_stack_primary(stack_id: String, primary_id: String) -> (r: Vec<StoreCommand>)
    ensures
        r@.len() == 2,
        r@[0]@ == (StoreCommandView::ResetStackPrimary { stack_id: stack_id@ }),
        r@[1]@ == (StoreCommandView::SetStackPrimary { id: primary_id@ }),
{
    let mut out: Vec<StoreCommand> = Vec::new();
    out.push(StoreCommand::ResetStackPrimary { stack_id });
    out.push(StoreCommand::SetStackPrimary { id: primary_id });
    out
}

/// Removes several photos from their stacks: one update per id, clearing the
/// stack id and the primary mark.
#[verifier::loop_isolation(false)]
pub fn clear_photo_stack(photo_ids: Vec<String>) -> (r: Vec<StoreCommand>)
    ensures
        r@.len() == photo_ids@.len(),
        forall|i: int| 0 <= i < photo_ids@.len() ==> r@[i]@ == (StoreCommandView::ClearPhotoStack {
            id: photo_ids@[i]@,
        }),
{
    let mut out: Vec<StoreCommand> = Vec::new();
    let mut rest = photo_ids;
    let ghost all = rest@;
    proof {
        assert(all.skip(0) =~= all);
    }
    while rest.len() > 0
        invariant
            out@.len() + rest@.len() == all.len(),
            all.skip(out@.len() as int) == rest@,
            forall|i: int| 0 <= i < out@.len() ==> out@[i]@ == (StoreCommandView::ClearPhotoStack {
                id: all[i]@,
            }),
        decreases rest@.len(),
    {
        let ghost k = out@.len() as int;
        let id = rest.remove(0);
        proof {
            assert(all.skip(k)[0] == all[k]);
            assert(all.skip(k).remove(0) =~= all.skip(k + 1));
        }
        out.push(StoreCommand::ClearPhotoStack { id });
    }
    out
}

/// Persists the application state: the whole snapshot is written under the
/// fixed root document id, replacing what was there.
pub fn persist_state(state: AppState) -> (r: StoreCommand)
    ensures
        r@ == (StoreCommandView::PersistState { state: state@ }),
{
    StoreCommand::PersistState { state }
}

} // verus!

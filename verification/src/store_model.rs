//! Model of the replicated store as observed through its query interface:
//! a photos collection with "insert, or update on id conflict" semantics and
//! monotonically assigned local commit identifiers, and the single
//! application-state document. The store's internal sync engine is outside
//! this model; only what the interface guarantees is stated here.

use vstd::prelude::*;

use crate::commands::{StoreCommand, StoreCommandView};
use crate::types::{AppState, AppStateView, PhotoDocument, PhotoDocumentView, PhotoView};

verus! {

/// Mathematical value of the modeled store.
pub ghost struct StoreModelView {
    pub photos: Seq<PhotoDocumentView>,
    pub app_state_doc: Option<AppStateView>,
    pub next_commit_id: u64,
}

/// The store as the library observes it: the photos collection (one document
/// per id), the persisted application state, and the next local commit
/// identifier the store will assign to a successful write.
pub struct StoreModel {
    pub photos: Vec<PhotoDocument>,
    pub app_state_doc: Option<AppState>,
    pub next_commit_id: u64,
}

impl View for StoreModel {
    type V = StoreModelView;

    open spec fn view(&self) -> StoreModelView {
        StoreModelView {
            photos: self.photos@.map_values(|d: PhotoDocument| d@),
            app_state_doc: match self.app_state_doc {
                Some(s) => Some(s@),
                None => None,
            },
            next_commit_id: self.next_commit_id,
        }
    }
}

/// Index of the document carrying `id`, or -1 when absent.
pub open spec fn spec_index_of_id(photos: Seq<PhotoDocumentView>, id: Seq<char>) -> int
    decreases photos.len(),
{
    if photos.len() == 0 {
        -1
    } else if photos[0].id == id {
        0
    } else if spec_index_of_id(photos.drop_first(), id) == -1 {
        -1
    } else {
        spec_index_of_id(photos.drop_first(), id) + 1
    }
}

/// How many documents carry `id`.
pub open spec fn spec_count_id(photos: Seq<PhotoDocumentView>, id: Seq<char>) -> nat
    decreases photos.len(),
{
    if photos.len() == 0 {
        0
    } else {
        (if photos[0].id == id {
            1nat
        } else {
            0nat
        }) + spec_count_id(photos.drop_first(), id)
    }
}

/// `spec_index_of_id` finds the first document with the id, or establishes
/// that none carries it.
pub proof fn lemma_index_of_id(photos: Seq<PhotoDocumentView>, id: Seq<char>)
    ensures
        spec_index_of_id(photos, id) == -1 ==> forall|j: int| 0 <= j < photos.len()
            ==> photos[j].id != id,
        spec_index_of_id(photos, id) != -1 ==> {
            let i = spec_index_of_id(photos, id);
            &&& 0 <= i < photos.len()
            &&& photos[i].id == id
            &&& forall|j: int| 0 <= j < i ==> photos[j].id != id
        },
    decreases photos.len(),
{
    if photos.len() == 0 {
    } else {
        lemma_index_of_id(photos.drop_first(), id);
        let r = spec_index_of_id(photos, id);
        if photos[0].id == id {
        } else if spec_index_of_id(photos.drop_first(), id) == -1 {
            assert forall|j: int| 0 <= j < photos.len() implies photos[j].id != id by {
                if j > 0 {
                    assert(photos.drop_first()[j - 1].id != id);
                }
            }
        } else {
            let ri = spec_index_of_id(photos.drop_first(), id);
            assert(photos[ri + 1] == photos.drop_first()[ri]);
            assert forall|j: int| 0 <= j < r implies photos[j].id != id by {
                if j > 0 {
                    assert(photos.drop_first()[j - 1].id != id);
                }
            }
        }
    }
}

/// Well-formedness of the modeled store: ids are unique across the photos
/// collection, and every assigned commit identifier is below the next one.
pub open spec fn spec_store_wf(m: StoreModelView) -> bool {
    &&& forall|i: int, j: int| 0 <= i < j < m.photos.len() ==> m.photos[i].id != m.photos[j].id
    &&& forall|i: int| 0 <= i < m.photos.len() ==> match #[trigger] m.photos[i].content_commit_id {
        Some(c) => c < m.next_commit_id,
        None => true,
    }
}

/// A write document as the store durably records it: the submitted fields,
/// stamped with the commit identifier the store assigned.
pub open spec fn spec_stamped(d: PhotoDocumentView, commit: u64) -> PhotoDocumentView {
    PhotoDocumentView { content_commit_id: Some(commit), ..d }
}

/// One upsert under "insert, or update on id conflict": an existing document
/// with the same id is replaced in place; otherwise the document is
/// appended; either way the write is stamped with the next commit
/// identifier, which then advances.
pub open spec fn spec_upsert(m: StoreModelView, d: PhotoDocumentView) -> StoreModelView {
    let i = spec_index_of_id(m.photos, d.id);
    let stamped = spec_stamped(d, m.next_commit_id);
    StoreModelView {
        photos: if i == -1 {
            m.photos.push(stamped)
        } else {
            m.photos.update(i, stamped)
        },
        app_state_doc: m.app_state_doc,
        next_commit_id: (m.next_commit_id + 1) as u64,
    }
}

/// A batch applied in order, document by document.
pub open spec fn spec_upsert_batch(m: StoreModelView, docs: Seq<PhotoDocumentView>) -> StoreModelView
    decreases docs.len(),
{
    if docs.len() == 0 {
        m
    } else {
        spec_upsert_batch(spec_upsert(m, docs.first()), docs.drop_first())
    }
}

/// Upserting preserves well-formedness: ids stay unique — one document per
/// id, never two — and commit identifiers stay below the advancing watermark
/// source.
pub proof fn lemma_upsert_preserves_wf(m: StoreModelView, d: PhotoDocumentView)
    requires
        spec_store_wf(m),
        m.next_commit_id < u64::MAX,
    ensures
        spec_store_wf(spec_upsert(m, d)),
        spec_upsert(m, d).next_commit_id == m.next_commit_id + 1,
{
    lemma_index_of_id(m.photos, d.id);
    let i = spec_index_of_id(m.photos, d.id);
    let m2 = spec_upsert(m, d);
    if i == -1 {
        assert forall|a: int, b: int| 0 <= a < b < m2.photos.len() implies m2.photos[a].id
            != m2.photos[b].id by {
            if b == m2.photos.len() - 1 {
                assert(m2.photos[a] == m.photos[a]);
            }
        }
    } else {
        assert forall|a: int, b: int| 0 <= a < b < m2.photos.len() implies m2.photos[a].id
            != m2.photos[b].id by {
            if a != i && b != i {
                assert(m2.photos[a] == m.photos[a]);
                assert(m2.photos[b] == m.photos[b]);
            } else if a == i {
                assert(m2.photos[a].id == m.photos[i].id);
                assert(m2.photos[b] == m.photos[b]);
            } else {
                assert(m2.photos[b].id == m.photos[i].id);
                assert(m2.photos[a] == m.photos[a]);
            }
        }
    }
}

/// The commit identifier of a document is monotonic: rewriting a document
/// that already carried one assigns a strictly larger identifier, and the
/// rewritten document always carries one.
pub proof fn lemma_commit_monotonic(m: StoreModelView, d: PhotoDocumentView)
    requires
        spec_store_wf(m),
        m.next_commit_id < u64::MAX,
        spec_index_of_id(m.photos, d.id) != -1,
    ensures
        ({
            let i = spec_index_of_id(m.photos, d.id);
            let after = spec_upsert(m, d).photos[i];
            &&& after.content_commit_id is Some
            &&& match m.photos[i].content_commit_id {
                Some(c) => c < after.content_commit_id->0,
                None => true,
            }
        }),
{
    lemma_index_of_id(m.photos, d.id);
}

/// Law: upserts by id are idempotent. Writing two documents with the same id
/// (any payloads) leaves exactly one document carrying that id, and its
/// fields are those of the last applied write, stamped with the commit
/// identifier of that write.
pub proof fn lemma_upsert_idempotent(
    m: StoreModelView,
    d1: PhotoDocumentView,
    d2: PhotoDocumentView,
)
    requires
        spec_store_wf(m),
        d1.id == d2.id,
        m.next_commit_id + 1 < u64::MAX,
    ensures
        ({
            let m2 = spec_upsert(spec_upsert(m, d1), d2);
            let i = spec_index_of_id(m2.photos, d2.id);
            &&& spec_count_id(m2.photos, d2.id) == 1
            &&& 0 <= i < m2.photos.len()
            &&& m2.photos[i] == spec_stamped(d2, (m.next_commit_id + 1) as u64)
            &&& spec_store_wf(m2)
        }),
{
    lemma_upsert_preserves_wf(m, d1);
    let m1 = spec_upsert(m, d1);
    lemma_upsert_preserves_wf(m1, d2);
    let m2 = spec_upsert(m1, d2);
    lemma_index_of_id(m.photos, d1.id);
    lemma_index_of_id(m1.photos, d2.id);
    lemma_index_of_id(m2.photos, d2.id);
    let i0 = spec_index_of_id(m.photos, d1.id);
    let i1 = spec_index_of_id(m1.photos, d2.id);
    if i0 == -1 {
        assert(m1.photos[m.photos.len() as int].id == d2.id);
        assert(i1 != -1);
    } else {
        assert(m1.photos[i0].id == d2.id);
        assert(i1 != -1);
    }
    let i2 = spec_index_of_id(m2.photos, d2.id);
    assert(m2.photos[i1].id == d2.id);
    assert(i2 != -1);
    assert(m2.photos[i2] == spec_stamped(d2, m1.next_commit_id));
    lemma_unique_count(m2.photos, d2.id, i2);
}

/// With unique ids, a present id is carried by exactly one document.
pub proof fn lemma_unique_count(photos: Seq<PhotoDocumentView>, id: Seq<char>, w: int)
    requires
        forall|i: int, j: int| 0 <= i < j < photos.len() ==> photos[i].id != photos[j].id,
        0 <= w < photos.len(),
        photos[w].id == id,
    ensures
        spec_count_id(photos, id) == 1,
    decreases photos.len(),
{
    if w == 0 {
        lemma_absent_count(photos.drop_first(), id);
        assert forall|j: int| 0 <= j < photos.drop_first().len() implies photos.drop_first()[j].id
            != id by {
            assert(photos.drop_first()[j] == photos[j + 1]);
        }
    } else {
        assert(photos.drop_first()[w - 1].id == id);
        lemma_unique_count(photos.drop_first(), id, w - 1);
    }
}

/// An absent id is carried by no document.
pub proof fn lemma_absent_count(photos: Seq<PhotoDocumentView>, id: Seq<char>)
    ensures
        (forall|j: int| 0 <= j < photos.len() ==> photos[j].id != id) ==> spec_count_id(
            photos,
            id,
        ) == 0,
    decreases photos.len(),
{
    if photos.len() > 0 {
        lemma_absent_count(photos.drop_first(), id);
        if forall|j: int| 0 <= j < photos.len() ==> photos[j].id != id {
            assert forall|j: int| 0 <= j < photos.drop_first().len()
                implies photos.drop_first()[j].id != id by {
                assert(photos.drop_first()[j] == photos[j + 1]);
            }
        }
    }
}

impl StoreModel {
    /// A fresh store: no photos, no persisted state, commit identifiers
    /// starting at zero.
    pub fn new() -> (r: StoreModel)
        ensures
            r@.photos.len() == 0,
            r@.app_state_doc is None,
            r@.next_commit_id == 0,
            spec_store_wf(r@),
    {
        StoreModel { photos: Vec::new(), app_state_doc: None, next_commit_id: 0 }
    }

    /// Index of the document carrying `id`, if any.
    fn find_index(&self, id: &String) -> (r: Option<usize>)
        ensures
            match r {
                Some(i) => i == spec_index_of_id(self@.photos, id@),
                None => spec_index_of_id(self@.photos, id@) == -1,
            },
    {
        let ghost photos = self@.photos;
        let mut i: usize = 0;
        while i < self.photos.len()
            invariant
                i <= photos.len(),
                photos == self@.photos,
                forall|j: int| 0 <= j < i ==> photos[j].id != id@,
            decreases photos.len() - i,
        {
            if self.photos[i].id.eq(id) {
                proof {
                    assert(photos[i as int].id == id@);
                    lemma_index_of_id(photos, id@);
                    let r = spec_index_of_id(photos, id@);
                    if r == -1 {
                        assert(photos[i as int].id != id@);
                    } else if r < i {
                        assert(photos[r].id != id@);
                    } else if r > i {
                        assert(photos[i as int].id != id@);
                    }
                }
                return Some(i);
            }
            i += 1;
        }
        proof {
            lemma_index_of_id(photos, id@);
            let r = spec_index_of_id(photos, id@);
            if r != -1 {
                assert(photos[r].id != id@);
            }
        }
        None
    }

    /// Applies one upsert: insert, or update on id conflict, stamped with
    /// the next commit identifier.
    pub fn upsert_one(&mut self, doc: PhotoDocument)
        requires
            old(self)@.next_commit_id < u64::MAX,
        ensures
            final(self)@ == spec_upsert(old(self)@, doc@),
    {
        let ghost d0 = doc@;
        let idx = self.find_index(&doc.id);
        let mut doc = doc;
        doc.content_commit_id = Some(self.next_commit_id);
        let ghost stamped = doc@;
        proof {
            assert(stamped == spec_stamped(d0, old(self)@.next_commit_id));
        }
        match idx {
            Some(i) => {
                proof {
                    lemma_index_of_id(old(self)@.photos, d0.id);
                }
                self.photos.set(i, doc);
                proof {
                    assert(self@.photos =~= old(self)@.photos.update(
                        spec_index_of_id(old(self)@.photos, d0.id),
                        stamped,
                    ));
                }
            }
            None => {
                self.photos.push(doc);
                proof {
                    assert(self@.photos =~= old(self)@.photos.push(stamped));
                }
            }
        }
        self.next_commit_id = self.next_commit_id + 1;
    }

    /// Applies a whole batch in order, document by document.
    #[verifier::loop_isolation(false)]
    pub fn apply_upsert_batch(&mut self, docs: Vec<PhotoDocument>)
        requires
            old(self)@.next_commit_id + docs@.len() <= u64::MAX,
        ensures
            final(self)@ == spec_upsert_batch(old(self)@, docs@.map_values(|d: PhotoDocument| d@)),
    {
        let ghost all = docs@.map_values(|d: PhotoDocument| d@);
        let mut rest = docs;
        while rest.len() > 0
            invariant
                spec_upsert_batch(old(self)@, all) == spec_upsert_batch(
                    self@,
                    rest@.map_values(|d: PhotoDocument| d@),
                ),
                self@.next_commit_id + rest@.len() <= u64::MAX,
            decreases rest@.len(),
        {
            let ghost pending = rest@.map_values(|d: PhotoDocument| d@);
            let d = rest.remove(0);
            self.upsert_one(d);
            proof {
                assert(rest@.map_values(|x: PhotoDocument| x@) =~= pending.drop_first());
            }
        }
    }
}

/// A batch of upserts preserves well-formedness and advances the commit
/// counter once per document; the persisted application state is untouched.
pub proof fn lemma_upsert_batch_wf(m: StoreModelView, docs: Seq<PhotoDocumentView>)
    requires
        spec_store_wf(m),
        m.next_commit_id + docs.len() <= u64::MAX,
    ensures
        spec_store_wf(spec_upsert_batch(m, docs)),
        spec_upsert_batch(m, docs).next_commit_id == m.next_commit_id + docs.len(),
        spec_upsert_batch(m, docs).app_state_doc == m.app_state_doc,
    decreases docs.len(),
{
    if docs.len() > 0 {
        lemma_upsert_preserves_wf(m, docs.first());
        lemma_upsert_batch_wf(spec_upsert(m, docs.first()), docs.drop_first());
    }
}

/// The photos collection with every document carrying `id` deleted, in
/// order.
pub open spec fn spec_remove_id(photos: Seq<PhotoDocumentView>, id: Seq<char>) -> Seq<
    PhotoDocumentView,
>
    decreases photos.len(),
{
    if photos.len() == 0 {
        Seq::empty()
    } else if photos.first().id == id {
        spec_remove_id(photos.drop_first(), id)
    } else {
        seq![photos.first()] + spec_remove_id(photos.drop_first(), id)
    }
}

/// `spec_remove_id` distributes over appending one document.
pub proof fn lemma_remove_id_push(
    photos: Seq<PhotoDocumentView>,
    id: Seq<char>,
    x: PhotoDocumentView,
)
    ensures
        spec_remove_id(photos.push(x), id) == spec_remove_id(photos, id) + (if x.id == id {
            Seq::<PhotoDocumentView>::empty()
        } else {
            seq![x]
        }),
    decreases photos.len(),
{
    let whole = photos.push(x);
    if photos.len() == 0 {
        assert(whole.len() == 1);
        assert(whole.first() == x);
        assert(whole.drop_first() =~= Seq::<PhotoDocumentView>::empty());
        assert(spec_remove_id(Seq::<PhotoDocumentView>::empty(), id)
            == Seq::<PhotoDocumentView>::empty());
        if x.id == id {
            assert(spec_remove_id(whole, id) == spec_remove_id(whole.drop_first(), id));
            assert(spec_remove_id(whole, id) =~= spec_remove_id(photos, id));
        } else {
            assert(spec_remove_id(whole, id) == seq![whole.first()] + spec_remove_id(
                whole.drop_first(),
                id,
            ));
            assert(spec_remove_id(whole, id) =~= spec_remove_id(photos, id) + seq![x]);
        }
    } else {
        lemma_remove_id_push(photos.drop_first(), id, x);
        assert(whole.drop_first() =~= photos.drop_first().push(x));
        if photos.first().id == id {
        } else {
            if x.id == id {
                assert(spec_remove_id(whole, id) =~= spec_remove_id(photos, id));
            } else {
                assert(spec_remove_id(whole, id) =~= spec_remove_id(photos, id) + seq![x]);
            }
        }
    }
}

/// A document updated by a settings write: the new blob, stamped.
pub open spec fn spec_with_config(d: PhotoDocumentView, config: Seq<char>, commit: u64)
    -> PhotoDocumentView {
    PhotoDocumentView { config: Some(config), content_commit_id: Some(commit), ..d }
}

/// A document updated by a favorite write: the new flag, stamped.
pub open spec fn spec_with_favorite(d: PhotoDocumentView, favorite: bool, commit: u64)
    -> PhotoDocumentView {
    PhotoDocumentView { favorite, content_commit_id: Some(commit), ..d }
}

/// A document placed into a stack: the stack id and primary mark, stamped.
pub open spec fn spec_with_stack(
    d: PhotoDocumentView,
    stack_id: Seq<char>,
    is_stack_primary: bool,
    commit: u64,
) -> PhotoDocumentView {
    PhotoDocumentView {
        stack_id: Some(stack_id),
        is_stack_primary,
        content_commit_id: Some(commit),
        ..d
    }
}

/// A document that lost its primary mark, stamped.
pub open spec fn spec_without_primary(d: PhotoDocumentView, commit: u64) -> PhotoDocumentView {
    PhotoDocumentView { is_stack_primary: false, content_commit_id: Some(commit), ..d }
}

/// A document that gained the primary mark, stamped.
pub open spec fn spec_with_primary(d: PhotoDocumentView, commit: u64) -> PhotoDocumentView {
    PhotoDocumentView { is_stack_primary: true, content_commit_id: Some(commit), ..d }
}

/// A document removed from its stack, stamped.
pub open spec fn spec_cleared_stack(d: PhotoDocumentView, commit: u64) -> PhotoDocumentView {
    PhotoDocumentView {
        stack_id: None,
        is_stack_primary: false,
        content_commit_id: Some(commit),
        ..d
    }
}

/// How many commit identifiers one command consumes: one per document of a
/// batch, one for any other write.
pub open spec fn spec_command_writes(c: StoreCommandView) -> int {
    match c {
        StoreCommandView::UpsertBatch { docs } => docs.len() as int,
        _ => 1,
    }
}

/// The observable effect of one command on the store: upserts insert or
/// update by id; deletions drop the matching documents; field updates
/// rewrite the matching documents in place, stamped with the next commit
/// identifier; persisting replaces the application-state document.
pub open spec fn spec_apply_command(m: StoreModelView, c: StoreCommandView) -> StoreModelView {
    let next = (m.next_commit_id + 1) as u64;
    match c {
        StoreCommandView::UpsertBatch { docs } => spec_upsert_batch(m, docs),
        StoreCommandView::RemovePhoto { id } => StoreModelView {
            photos: spec_remove_id(m.photos, id),
            next_commit_id: next,
            ..m
        },
        StoreCommandView::ClearPhotos => StoreModelView {
            photos: Seq::empty(),
            next_commit_id: next,
            ..m
        },
        StoreCommandView::UpdatePhotoConfig { id, config } => StoreModelView {
            photos: m.photos.map_values(
                |d: PhotoDocumentView| if d.id == id {
                    spec_with_config(d, config, m.next_commit_id)
                } else {
                    d
                },
            ),
            next_commit_id: next,
            ..m
        },
        StoreCommandView::UpdatePhotoFavorite { id, favorite } => StoreModelView {
            photos: m.photos.map_values(
                |d: PhotoDocumentView| if d.id == id {
                    spec_with_favorite(d, favorite, m.next_commit_id)
                } else {
                    d
                },
            ),
            next_commit_id: next,
            ..m
        },
        StoreCommandView::UpdatePhotoStack { id, stack_id, is_stack_primary } => StoreModelView {
            photos: m.photos.map_values(
                |d: PhotoDocumentView| if d.id == id {
                    spec_with_stack(d, stack_id, is_stack_primary, m.next_commit_id)
                } else {
                    d
                },
            ),
            next_commit_id: next,
            ..m
        },
        StoreCommandView::ResetStackPrimary { stack_id } => StoreModelView {
            photos: m.photos.map_values(
                |d: PhotoDocumentView| if d.stack_id == Some(stack_id) {
                    spec_without_primary(d, m.next_commit_id)
                } else {
                    d
                },
            ),
            next_commit_id: next,
            ..m
        },
        StoreCommandView::SetStackPrimary { id } => StoreModelView {
            photos: m.photos.map_values(
                |d: PhotoDocumentView| if d.id == id {
                    spec_with_primary(d, m.next_commit_id)
                } else {
                    d
                },
            ),
            next_commit_id: next,
            ..m
        },
        StoreCommandView::ClearPhotoStack { id } => StoreModelView {
            photos: m.photos.map_values(
                |d: PhotoDocumentView| if d.id == id {
                    spec_cleared_stack(d, m.next_commit_id)
                } else {
                    d
                },
            ),
            next_commit_id: next,
            ..m
        },
        StoreCommandView::PersistState { state } => StoreModelView {
            app_state_doc: Some(state),
            next_commit_id: next,
            ..m
        },
    }
}

/// A command sequence applied in order.
pub open spec fn spec_apply_commands(m: StoreModelView, cs: Seq<StoreCommandView>)
    -> StoreModelView
    decreases cs.len(),
{
    if cs.len() == 0 {
        m
    } else {
        spec_apply_commands(spec_apply_command(m, cs.first()), cs.drop_first())
    }
}

impl StoreModel {
    /// Executes one command against the modeled store.
    #[verifier::loop_isolation(false)]
    pub fn apply_command(&mut self, cmd: StoreCommand)
        requires
            old(self)@.next_commit_id + spec_command_writes(cmd@) <= u64::MAX,
        ensures
            final(self)@ == spec_apply_command(old(self)@, cmd@),
    {
        let ghost old_photos = self@.photos;
        match cmd {
            StoreCommand::UpsertBatch { docs } => {
                self.apply_upsert_batch(docs);
            }
            StoreCommand::RemovePhoto { id } => {
                let mut kept: Vec<PhotoDocument> = Vec::new();
                let mut i: usize = 0;
                proof {
                    assert(old_photos.take(0) =~= Seq::<PhotoDocumentView>::empty());
                }
                while i < self.photos.len()
                    invariant
                        i <= old_photos.len(),
                        *self == *old(self),
                        kept@.map_values(|d: PhotoDocument| d@) == spec_remove_id(
                            old_photos.take(i as int),
                            id@,
                        ),
                    decreases old_photos.len() - i,
                {
                    proof {
                        lemma_remove_id_push(old_photos.take(i as int), id@, old_photos[i as int]);
                        assert(old_photos.take(i as int).push(old_photos[i as int])
                            =~= old_photos.take(i as int + 1));
                    }
                    if !self.photos[i].id.eq(&id) {
                        kept.push(self.photos[i].duplicate());
                        proof {
                            assert(kept@.map_values(|d: PhotoDocument| d@) =~= spec_remove_id(
                                old_photos.take(i as int + 1),
                                id@,
                            ));
                        }
                    } else {
                        proof {
                            assert(kept@.map_values(|d: PhotoDocument| d@) =~= spec_remove_id(
                                old_photos.take(i as int + 1),
                                id@,
                            ));
                        }
                    }
                    i += 1;
                }
                proof {
                    assert(old_photos.take(old_photos.len() as int) =~= old_photos);
                }
                self.photos = kept;
                self.next_commit_id = self.next_commit_id + 1;
            }
            StoreCommand::ClearPhotos => {
                self.photos = Vec::new();
                self.next_commit_id = self.next_commit_id + 1;
                proof {
                    assert(self@.photos =~= Seq::<PhotoDocumentView>::empty());
                }
            }
            StoreCommand::UpdatePhotoConfig { id, config } => {
                let commit = self.next_commit_id;
                let mut i: usize = 0;
                while i < self.photos.len()
                    invariant
                        i <= old_photos.len(),
                        self.photos@.len() == old_photos.len(),
                        self.app_state_doc == old(self).app_state_doc,
                        self.next_commit_id == old(self).next_commit_id,
                        forall|j: int| 0 <= j < i ==> self@.photos[j] == (
                        if old_photos[j].id == id@ {
                            spec_with_config(old_photos[j], config@, commit)
                        } else {
                            old_photos[j]
                        }),
                        forall|j: int| i <= j < old_photos.len() ==> self@.photos[j]
                            == old_photos[j],
                    decreases old_photos.len() - i,
                {
                    let ghost prev = self@.photos;
                    if self.photos[i].id.eq(&id) {
                        let mut d = self.photos[i].duplicate();
                        d.config = Some(config.duplicate());
                        d.content_commit_id = Some(commit);
                        self.photos.set(i, d);
                        proof {
                            assert(self@.photos =~= prev.update(i as int, d@));
                        }
                    }
                    proof {
                        assert(forall|j: int| 0 <= j < prev.len() && j != i ==> self@.photos[j]
                            == prev[j]);
                    }
                    i += 1;
                }
                self.next_commit_id = self.next_commit_id + 1;
                proof {
                    assert(self@.photos =~= spec_apply_command(old(self)@, cmd@).photos);
                }
            }
            StoreCommand::UpdatePhotoFavorite { id, favorite } => {
                let commit = self.next_commit_id;
                let mut i: usize = 0;
                while i < self.photos.len()
                    invariant
                        i <= old_photos.len(),
                        self.photos@.len() == old_photos.len(),
                        self.app_state_doc == old(self).app_state_doc,
                        self.next_commit_id == old(self).next_commit_id,
                        forall|j: int| 0 <= j < i ==> self@.photos[j] == (
                        if old_photos[j].id == id@ {
                            spec_with_favorite(old_photos[j], favorite, commit)
                        } else {
                            old_photos[j]
                        }),
                        forall|j: int| i <= j < old_photos.len() ==> self@.photos[j]
                            == old_photos[j],
                    decreases old_photos.len() - i,
                {
                    let ghost prev = self@.photos;
                    if self.photos[i].id.eq(&id) {
                        let mut d = self.photos[i].duplicate();
                        d.favorite = favorite;
                        d.content_commit_id = Some(commit);
                        self.photos.set(i, d);
                        proof {
                            assert(self@.photos =~= prev.update(i as int, d@));
                        }
                    }
                    proof {
                        assert(forall|j: int| 0 <= j < prev.len() && j != i ==> self@.photos[j]
                            == prev[j]);
                    }
                    i += 1;
                }
                self.next_commit_id = self.next_commit_id + 1;
                proof {
                    assert(self@.photos =~= spec_apply_command(old(self)@, cmd@).photos);
                }
            }
            StoreCommand::UpdatePhotoStack { id, stack_id, is_stack_primary } => {
                let commit = self.next_commit_id;
                let mut i: usize = 0;
                while i < self.photos.len()
                    invariant
                        i <= old_photos.len(),
                        self.photos@.len() == old_photos.len(),
                        self.app_state_doc == old(self).app_state_doc,
                        self.next_commit_id == old(self).next_commit_id,
                        forall|j: int| 0 <= j < i ==> self@.photos[j] == (
                        if old_photos[j].id == id@ {
                            spec_with_stack(old_photos[j], stack_id@, is_stack_primary, commit)
                        } else {
                            old_photos[j]
                        }),
                        forall|j: int| i <= j < old_photos.len() ==> self@.photos[j]
                            == old_photos[j],
                    decreases old_photos.len() - i,
                {
                    let ghost prev = self@.photos;
                    if self.photos[i].id.eq(&id) {
                        let mut d = self.photos[i].duplicate();
                        d.stack_id = Some(stack_id.clone());
                        d.is_stack_primary = is_stack_primary;
                        d.content_commit_id = Some(commit);
                        self.photos.set(i, d);
                        proof {
                            assert(self@.photos =~= prev.update(i as int, d@));
                        }
                    }
                    proof {
                        assert(forall|j: int| 0 <= j < prev.len() && j != i ==> self@.photos[j]
                            == prev[j]);
                    }
                    i += 1;
                }
                self.next_commit_id = self.next_commit_id + 1;
                proof {
                    assert(self@.photos =~= spec_apply_command(old(self)@, cmd@).photos);
                }
            }
            StoreCommand::ResetStackPrimary { stack_id } => {
                let commit = self.next_commit_id;
                let mut i: usize = 0;
                while i < self.photos.len()
                    invariant
                        i <= old_photos.len(),
                        self.photos@.len() == old_photos.len(),
                        self.app_state_doc == old(self).app_state_doc,
                        self.next_commit_id == old(self).next_commit_id,
                        forall|j: int| 0 <= j < i ==> self@.photos[j] == (
                        if old_photos[j].stack_id == Some(stack_id@) {
                            spec_without_primary(old_photos[j], commit)
                        } else {
                            old_photos[j]
                        }),
                        forall|j: int| i <= j < old_photos.len() ==> self@.photos[j]
                            == old_photos[j],
                    decreases old_photos.len() - i,
                {
                    let ghost prev = self@.photos;
                    let in_stack = match &self.photos[i].stack_id {
                        Some(s) => s.eq(&stack_id),
                        None => false,
                    };
                    if in_stack {
                        let mut d = self.photos[i].duplicate();
                        d.is_stack_primary = false;
                        d.content_commit_id = Some(commit);
                        self.photos.set(i, d);
                        proof {
                            assert(self@.photos =~= prev.update(i as int, d@));
                        }
                    }
                    proof {
                        assert(forall|j: int| 0 <= j < prev.len() && j != i ==> self@.photos[j]
                            == prev[j]);
                    }
                    i += 1;
                }
                self.next_commit_id = self.next_commit_id + 1;
                proof {
                    assert(self@.photos =~= spec_apply_command(old(self)@, cmd@).photos);
                }
            }
            StoreCommand::SetStackPrimary { id } => {
                let commit = self.next_commit_id;
                let mut i: usize = 0;
                while i < self.photos.len()
                    invariant
                        i <= old_photos.len(),
                        self.photos@.len() == old_photos.len(),
                        self.app_state_doc == old(self).app_state_doc,
                        self.next_commit_id == old(self).next_commit_id,
                        forall|j: int| 0 <= j < i ==> self@.photos[j] == (
                        if old_photos[j].id == id@ {
                            spec_with_primary(old_photos[j], commit)
                        } else {
                            old_photos[j]
                        }),
                        forall|j: int| i <= j < old_photos.len() ==> self@.photos[j]
                            == old_photos[j],
                    decreases old_photos.len() - i,
                {
                    let ghost prev = self@.photos;
                    if self.photos[i].id.eq(&id) {
                        let mut d = self.photos[i].duplicate();
                        d.is_stack_primary = true;
                        d.content_commit_id = Some(commit);
                        self.photos.set(i, d);
                        proof {
                            assert(self@.photos =~= prev.update(i as int, d@));
                        }
                    }
                    proof {
                        assert(forall|j: int| 0 <= j < prev.len() && j != i ==> self@.photos[j]
                            == prev[j]);
                    }
                    i += 1;
                }
                self.next_commit_id = self.next_commit_id + 1;
                proof {
                    assert(self@.photos =~= spec_apply_command(old(self)@, cmd@).photos);
                }
            }
            StoreCommand::ClearPhotoStack { id } => {
                let commit = self.next_commit_id;
                let mut i: usize = 0;
                while i < self.photos.len()
                    invariant
                        i <= old_photos.len(),
                        self.photos@.len() == old_photos.len(),
                        self.app_state_doc == old(self).app_state_doc,
                        self.next_commit_id == old(self).next_commit_id,
                        forall|j: int| 0 <= j < i ==> self@.photos[j] == (
                        if old_photos[j].id == id@ {
                            spec_cleared_stack(old_photos[j], commit)
                        } else {
                            old_photos[j]
                        }),
                        forall|j: int| i <= j < old_photos.len() ==> self@.photos[j]
                            == old_photos[j],
                    decreases old_photos.len() - i,
                {
                    let ghost prev = self@.photos;
                    if self.photos[i].id.eq(&id) {
                        let mut d = self.photos[i].duplicate();
                        d.stack_id = None;
                        d.is_stack_primary = false;
                        d.content_commit_id = Some(commit);
                        self.photos.set(i, d);
                        proof {
                            assert(self@.photos =~= prev.update(i as int, d@));
                        }
                    }
                    proof {
                        assert(forall|j: int| 0 <= j < prev.len() && j != i ==> self@.photos[j]
                            == prev[j]);
                    }
                    i += 1;
                }
                self.next_commit_id = self.next_commit_id + 1;
                proof {
                    assert(self@.photos =~= spec_apply_command(old(self)@, cmd@).photos);
                }
            }
            StoreCommand::PersistState { state } => {
                self.app_state_doc = Some(state);
                self.next_commit_id = self.next_commit_id + 1;
            }
        }
    }

    /// Executes a command sequence in order.
    #[verifier::loop_isolation(false)]
    pub fn apply_commands(&mut self, cmds: Vec<StoreCommand>)
        requires
            old(self)@.next_commit_id + spec_commands_writes(
                cmds@.map_values(|c: StoreCommand| c@),
            ) <= u64::MAX,
        ensures
            final(self)@ == spec_apply_commands(
                old(self)@,
                cmds@.map_values(|c: StoreCommand| c@),
            ),
    {
        let ghost all = cmds@.map_values(|c: StoreCommand| c@);
        let mut rest = cmds;
        while rest.len() > 0
            invariant
                spec_apply_commands(old(self)@, all) == spec_apply_commands(
                    self@,
                    rest@.map_values(|c: StoreCommand| c@),
                ),
                self@.next_commit_id + spec_commands_writes(
                    rest@.map_values(|c: StoreCommand| c@),
                ) <= u64::MAX,
            decreases rest@.len(),
        {
            let ghost pending = rest@.map_values(|c: StoreCommand| c@);
            proof {
                lemma_commands_writes_first(pending);
                lemma_apply_command_next(self@, pending.first());
            }
            let c = rest.remove(0);
            self.apply_command(c);
            proof {
                assert(rest@.map_values(|x: StoreCommand| x@) =~= pending.drop_first());
            }
        }
    }
}

/// Total commit identifiers a command sequence consumes.
pub open spec fn spec_commands_writes(cs: Seq<StoreCommandView>) -> int
    decreases cs.len(),
{
    if cs.len() == 0 {
        0
    } else {
        spec_command_writes(cs.first()) + spec_commands_writes(cs.drop_first())
    }
}

/// Every command consumes at least zero identifiers, and a sequence at least
/// as many as its first command.
pub proof fn lemma_commands_writes_first(cs: Seq<StoreCommandView>)
    requires
        cs.len() > 0,
    ensures
        spec_commands_writes(cs) == spec_command_writes(cs.first()) + spec_commands_writes(
            cs.drop_first(),
        ),
        spec_commands_writes(cs.drop_first()) >= 0,
        spec_command_writes(cs.first()) >= 0,
    decreases cs.len(),
{
    lemma_commands_writes_nonneg(cs.drop_first());
}

/// A command sequence consumes a non-negative number of identifiers.
pub proof fn lemma_commands_writes_nonneg(cs: Seq<StoreCommandView>)
    ensures
        spec_commands_writes(cs) >= 0,
    decreases cs.len(),
{
    if cs.len() > 0 {
        lemma_commands_writes_nonneg(cs.drop_first());
    }
}

/// Applying one command advances the commit counter by exactly the
/// identifiers it consumes (no overflow within the given bound).
pub proof fn lemma_apply_command_next(m: StoreModelView, c: StoreCommandView)
    requires
        m.next_commit_id + spec_command_writes(c) <= u64::MAX,
    ensures
        spec_apply_command(m, c).next_commit_id == m.next_commit_id + spec_command_writes(c),
{
    match c {
        StoreCommandView::UpsertBatch { docs } => {
            lemma_upsert_batch_next(m, docs);
        }
        _ => {}
    }
}

/// A batch advances the commit counter once per document.
pub proof fn lemma_upsert_batch_next(m: StoreModelView, docs: Seq<PhotoDocumentView>)
    requires
        m.next_commit_id + docs.len() <= u64::MAX,
    ensures
        spec_upsert_batch(m, docs).next_commit_id == m.next_commit_id + docs.len(),
        spec_upsert_batch(m, docs).app_state_doc == m.app_state_doc,
    decreases docs.len(),
{
    if docs.len() > 0 {
        lemma_upsert_batch_next(spec_upsert(m, docs.first()), docs.drop_first());
    }
}

/// A photo with an empty id takes its image path as id; any other photo is
/// untouched. This is the load-time migration shim for legacy data.
pub open spec fn spec_normalize_photo(p: PhotoView) -> PhotoView {
    if p.id.len() == 0 {
        PhotoView { id: p.image_path, ..p }
    } else {
        p
    }
}

/// The normalized application state: every photo normalized, order kept.
pub open spec fn spec_normalize(s: AppStateView) -> AppStateView {
    AppStateView { images: s.images.map_values(|p: PhotoView| spec_normalize_photo(p)) }
}

/// Normalizes a loaded application state: photos with empty ids get their
/// image path as id.
#[verifier::loop_isolation(false)]
pub fn normalize_state(state: AppState) -> (r: AppState)
    ensures
        r@ == spec_normalize(state@),
{
    let ghost s0 = state@;
    let mut images = state.images;
    let mut i: usize = 0;
    while i < images.len()
        invariant
            i <= s0.images.len(),
            images@.len() == s0.images.len(),
            forall|j: int| 0 <= j < i ==> images@[j]@ == spec_normalize_photo(s0.images[j]),
            forall|j: int| i <= j < s0.images.len() ==> images@[j]@ == s0.images[j],
        decreases s0.images.len() - i,
    {
        if images[i].id.as_str().is_empty() {
            let mut p = images[i].duplicate();
            p.id = p.image_path.clone();
            images.set(i, p);
        }
        i += 1;
    }
    let r = AppState { images };
    proof {
        assert(r@.images =~= spec_normalize(s0).images);
    }
    r
}

/// What the store hands back when the application state is read: nothing
/// stored yet, a document that no longer matches the expected schema, or the
/// state as stored.
pub enum LoadedState {
    Missing,
    SchemaMismatch,
    Loaded(AppState),
}

/// Turns a load outcome into the state the application starts from: a
/// missing document and a schema mismatch both reset to the default empty
/// state (the mismatch is recovered locally, never propagated); a loaded
/// state is normalized.
pub fn interpret_loaded_state(outcome: LoadedState) -> (r: AppState)
    ensures
        match outcome {
            LoadedState::Loaded(s) => r@ == spec_normalize(s@),
            _ => r@.images.len() == 0,
        },
{
    match outcome {
        LoadedState::Missing => AppState::default(),
        LoadedState::SchemaMismatch => AppState::default(),
        LoadedState::Loaded(s) => normalize_state(s),
    }
}

/// The decision behind the state-document observer: a change notification
/// replaces the cached state with the normalized new document, but a
/// notification whose document is missing or no longer parses leaves the
/// cached state as it was.
pub fn apply_state_notification(state: &mut AppState, loaded: LoadedState)
    ensures
        match loaded {
            LoadedState::Loaded(s) => final(state)@ == spec_normalize(s@),
            _ => final(state)@ == old(state)@,
        },
{
    match loaded {
        LoadedState::Loaded(s) => {
            *state = normalize_state(s);
        }
        _ => {}
    }
}

/// The state a load yields from the modeled store: the default when nothing
/// was persisted, otherwise the normalized stored state.
pub open spec fn spec_load(m: StoreModelView) -> AppStateView {
    match m.app_state_doc {
        None => AppStateView { images: Seq::empty() },
        Some(s) => spec_normalize(s),
    }
}

impl StoreModel {
    /// Reads the whole photos collection as outward payloads, each document
    /// projected through the sync status against the given telemetry.
    pub fn get_photos(&self, info: crate::types::SyncInfo) -> (r: Vec<crate::types::PhotoPayload>)
        ensures
            r@.len() == self@.photos.len(),
            forall|i: int| 0 <= i < self@.photos.len() ==> r@[i]@
                == crate::sync_status::spec_project_photo(self@.photos[i], info),
    {
        crate::sync_status::collect_photo_payloads(&self.photos, info)
    }

    /// Reads the application state back from the modeled store.
    pub fn load_state(&self) -> (r: AppState)
        ensures
            r@ == spec_load(self@),
    {
        match &self.app_state_doc {
            None => {
                let r = AppState::default();
                proof {
                    assert(r@.images =~= Seq::<PhotoView>::empty());
                }
                r
            }
            Some(s) => normalize_state(s.duplicate()),
        }
    }
}

/// Law: round trip. Persisting an application state and loading it back
/// yields the normalized state — equal to the persisted one whenever no
/// photo had an empty id; photos with empty ids come back with their image
/// path as id.
pub proof fn lemma_state_round_trip(m: StoreModelView, s: AppStateView)
    ensures
        spec_load(spec_apply_command(m, StoreCommandView::PersistState { state: s }))
            == spec_normalize(s),
        (forall|i: int| 0 <= i < s.images.len() ==> #[trigger] s.images[i].id.len() > 0)
            ==> spec_normalize(s) == s,
{
    if forall|i: int| 0 <= i < s.images.len() ==> #[trigger] s.images[i].id.len() > 0 {
        assert(spec_normalize(s).images =~= s.images);
    }
}

} // verus!

//! Upsert batching pipeline: producers enqueue photo write requests without
//! blocking; a single worker drains the accumulated requests in FIFO order,
//! deduplicates them by id (last occurrence wins), turns them into store
//! documents tagged with the local peer, and splits them into fixed-size
//! batches, each submitted under a watchdog timeout. A failed or timed-out
//! batch never stalls the following ones.

use vstd::prelude::*;

use crate::batch::{lemma_batches_map, spec_batches, split_batches};
use crate::commands::{StoreCommand, StoreCommandView};
use crate::paths::{file_name_of, spec_file_name};
use crate::types::{opt_token_view, AttachmentTokenPayload, AttachmentTokenView, Photo,
    PhotoDocument, PhotoDocumentView, PhotoView};

verus! {

/// Batch size of one submitted upsert statement.
pub const INSERT_BATCH_SIZE: usize = 50;

/// Pre-batch size used by the UI-facing enqueue call sites.
pub const UPSERT_BATCH_SIZE: usize = 25;

/// Total wait the watchdog allows one batch submission, in milliseconds.
pub const UPSERT_TIMEOUT_MS: u64 = 60000;

/// Heartbeat period of the watchdog while a submission is outstanding, in
/// milliseconds.
pub const HEARTBEAT_INTERVAL_MS: u64 = 5000;

/// The watchdog abandons the wait exactly when the elapsed time has reached
/// the timeout. The underlying write is not cancelled; the pipeline only
/// stops waiting and reports the timeout.
pub fn should_abandon(elapsed_ms: u64) -> (r: bool)
    ensures
        r == (elapsed_ms >= UPSERT_TIMEOUT_MS),
{
    elapsed_ms >= UPSERT_TIMEOUT_MS
}

/// Why an enqueue was refused: the pipeline no longer accepts work.
#[derive(Debug)]
pub enum PipelineError {
    ShutDown,
}

impl PipelineError {
    /// The failure text handed to callers.
    pub fn message(&self) -> (r: String)
        ensures
            r@ == "Failed to queue photo upsert"@,
    {
        "Failed to queue photo upsert".to_owned()
    }
}

/// Mathematical value of the pipeline's producer side.
pub ghost struct UpsertPipelineView {
    pub queue: Seq<Seq<PhotoView>>,
    pub shut_down: bool,
}

/// The producer side of the pipeline: the unbounded FIFO queue of enqueued
/// requests and whether the pipeline still accepts work.
pub struct UpsertPipeline {
    pub queue: Vec<Vec<Photo>>,
    pub shut_down: bool,
}

impl View for UpsertPipeline {
    type V = UpsertPipelineView;

    open spec fn view(&self) -> UpsertPipelineView {
        UpsertPipelineView {
            queue: self.queue@.map_values(|v: Vec<Photo>| v@.map_values(|p: Photo| p@)),
            shut_down: self.shut_down,
        }
    }
}

impl UpsertPipeline {
    /// A fresh pipeline: empty queue, accepting work.
    pub fn new() -> (r: UpsertPipeline)
        ensures
            r@.queue.len() == 0,
            !r@.shut_down,
    {
        UpsertPipeline { queue: Vec::new(), shut_down: false }
    }

    /// Accepts one write request without blocking. It fails exactly when the
    /// pipeline has been shut down; otherwise the request joins the queue at
    /// the end, behind everything enqueued before it.
    pub fn enqueue_upsert_photos_from_paths(&mut self, images: Vec<Photo>) -> (r: Result<
        (),
        PipelineError,
    >)
        ensures
            old(self)@.shut_down ==> r is Err && final(self)@ == old(self)@,
            !old(self)@.shut_down ==> r is Ok && final(self)@.queue == old(self)@.queue.push(
                images@.map_values(|p: Photo| p@),
            ) && !final(self)@.shut_down,
    {
        if self.shut_down {
            Err(PipelineError::ShutDown)
        } else {
            self.queue.push(images);
            proof {
                assert(self@.queue =~= old(self)@.queue.push(
                    images@.map_values(|p: Photo| p@),
                ));
            }
            Ok(())
        }
    }

    /// Stops accepting work; already queued requests stay queued.
    pub fn shut_down(&mut self)
        ensures
            final(self)@.queue == old(self)@.queue,
            final(self)@.shut_down,
    {
        self.shut_down = true;
    }

    /// The worker's drain: takes every queued request, concatenated in FIFO
    /// order, leaving the queue empty.
    #[verifier::loop_isolation(false)]
    pub fn take_cycle(&mut self) -> (r: Vec<Photo>)
        ensures
            r@.map_values(|p: Photo| p@) == old(self)@.queue.flatten(),
            final(self)@.queue.len() == 0,
            final(self)@.shut_down == old(self)@.shut_down,
    {
        let ghost all = self@.queue;
        let mut out: Vec<Photo> = Vec::new();
        proof {
            assert(out@.map_values(|p: Photo| p@) + self@.queue.flatten() =~= all.flatten());
        }
        while self.queue.len() > 0
            invariant
                self.shut_down == old(self).shut_down,
                out@.map_values(|p: Photo| p@) + self@.queue.flatten() == all.flatten(),
            decreases self.queue@.len(),
        {
            let ghost pending = self@.queue;
            let mut chunk = self.queue.remove(0);
            proof {
                assert(self@.queue =~= pending.drop_first());
                assert(pending.flatten() == pending.first() + pending.drop_first().flatten());
            }
            let ghost out_before = out@.map_values(|p: Photo| p@);
            let ghost chunk_views = chunk@.map_values(|p: Photo| p@);
            out.append(&mut chunk);
            proof {
                assert(out@.map_values(|p: Photo| p@) =~= out_before + chunk_views);
                assert(out@.map_values(|p: Photo| p@) + self@.queue.flatten() =~= all.flatten());
            }
        }
        proof {
            assert(self@.queue =~= Seq::<Seq<PhotoView>>::empty());
            assert(out@.map_values(|p: Photo| p@) =~= all.flatten());
        }
        out
    }
}

/// The document a photo write request becomes: the photo's fields, the file
/// name derived from the image path, the staged attachment if admission
/// granted one, the local peer recorded as author, and no commit identifier
/// until the store assigns one.
pub open spec fn spec_build_doc(
    p: PhotoView,
    author_peer_id: Seq<char>,
    staged: Option<crate::types::AttachmentTokenView>,
) -> PhotoDocumentView {
    PhotoDocumentView {
        id: p.id,
        filename: spec_file_name(p.image_path),
        image_path: p.image_path,
        base64: p.base64,
        full_res_attachment: staged,
        author_peer_id: Some(author_peer_id),
        content_commit_id: None,
        config: p.config,
        favorite: p.favorite,
        stack_id: p.stack_id,
        is_stack_primary: p.is_stack_primary,
    }
}

/// Builds the store document for one photo.
pub fn build_photo_document(
    photo: Photo,
    author_peer_id: &String,
    staged: Option<AttachmentTokenPayload>,
) -> (r: PhotoDocument)
    ensures
        r@ == spec_build_doc(photo@, author_peer_id@, opt_token_view(staged)),
{
    let filename = file_name_of(photo.image_path.as_str());
    PhotoDocument {
        id: photo.id,
        filename,
        image_path: photo.image_path,
        base64: photo.base64,
        full_res_attachment: staged,
        author_peer_id: Some(author_peer_id.clone()),
        content_commit_id: None,
        config: photo.config,
        favorite: photo.favorite,
        stack_id: photo.stack_id,
        is_stack_primary: photo.is_stack_primary,
    }
}

/// Builds the store documents for a deduplicated cycle, in order, pairing
/// each photo with its staged attachment.
#[verifier::loop_isolation(false)]
pub fn build_upsert_docs(
    photos: &Vec<Photo>,
    author_peer_id: &String,
    staged: &Vec<Option<AttachmentTokenPayload>>,
) -> (r: Vec<PhotoDocument>)
    requires
        photos@.len() == staged@.len(),
    ensures
        r@.len() == photos@.len(),
        forall|i: int| 0 <= i < photos@.len() ==> r@[i]@ == spec_build_doc(
            photos@[i]@,
            author_peer_id@,
            opt_token_view(staged@[i]),
        ),
{
    let mut out: Vec<PhotoDocument> = Vec::new();
    let mut i: usize = 0;
    while i < photos.len()
        invariant
            i <= photos@.len(),
            out@.len() == i,
            forall|j: int| 0 <= j < i ==> out@[j]@ == spec_build_doc(
                photos@[j]@,
                author_peer_id@,
                opt_token_view(staged@[j]),
            ),
        decreases photos@.len() - i,
    {
        let p = photos[i].duplicate();
        let s = crate::types::clone_opt_token(&staged[i]);
        proof {
            assert(opt_token_view(s) == opt_token_view(staged@[i as int]));
        }
        out.push(build_photo_document(p, author_peer_id, s));
        i += 1;
    }
    out
}

/// The documents one cycle submits, in order: each deduplicated photo built
/// into its store document with its staged attachment.
pub open spec fn spec_built_docs(
    photos: Seq<PhotoView>,
    author_peer_id: Seq<char>,
    staged: Seq<Option<AttachmentTokenView>>,
) -> Seq<PhotoDocumentView> {
    Seq::new(photos.len(), |i: int| spec_build_doc(photos[i], author_peer_id, staged[i]))
}

/// Plans one cycle's submissions: the deduplicated photos become documents
/// in order, split into batches of `INSERT_BATCH_SIZE`, each batch one
/// upsert command — under "insert, or update on id conflict" never two
/// documents share an id after the writes land.
#[verifier::loop_isolation(false)]
pub fn plan_upsert_cycle(
    photos: &Vec<Photo>,
    author_peer_id: &String,
    staged: &Vec<Option<AttachmentTokenPayload>>,
) -> (r: Vec<StoreCommand>)
    requires
        photos@.len() == staged@.len(),
    ensures
        ({
            let built = spec_built_docs(
                photos@.map_values(|p: Photo| p@),
                author_peer_id@,
                staged@.map_values(|t: Option<AttachmentTokenPayload>| opt_token_view(t)),
            );
            let batches = spec_batches(built, INSERT_BATCH_SIZE as int);
            &&& r@.len() == batches.len()
            &&& forall|i: int| 0 <= i < batches.len() ==> r@[i]@ == (StoreCommandView::UpsertBatch {
                docs: batches[i],
            })
        }),
{
    let ghost built = spec_built_docs(
        photos@.map_values(|p: Photo| p@),
        author_peer_id@,
        staged@.map_values(|t: Option<AttachmentTokenPayload>| opt_token_view(t)),
    );
    let docs = build_upsert_docs(photos, author_peer_id, staged);
    proof {
        assert(docs@.map_values(|d: PhotoDocument| d@) =~= built);
        lemma_batches_map(docs@, INSERT_BATCH_SIZE as int, |d: PhotoDocument| d@);
    }
    let ghost doc_batches = spec_batches(docs@, INSERT_BATCH_SIZE as int);
    let batches = split_batches(docs, INSERT_BATCH_SIZE);
    let mut out: Vec<StoreCommand> = Vec::new();
    let mut rest = batches;
    let ghost n = doc_batches.len();
    proof {
        assert(doc_batches.skip(0) =~= doc_batches);
    }
    while rest.len() > 0
        invariant
            out@.len() + rest@.len() == n,
            rest@.map_values(|v: Vec<PhotoDocument>| v@) == doc_batches.skip(out@.len() as int),
            forall|i: int| 0 <= i < out@.len() ==> out@[i]@ == (StoreCommandView::UpsertBatch {
                docs: doc_batches[i].map_values(|d: PhotoDocument| d@),
            }),
        decreases rest@.len(),
    {
        let ghost k = out@.len() as int;
        let ghost before_map = rest@.map_values(|v: Vec<PhotoDocument>| v@);
        let batch = rest.remove(0);
        proof {
            assert(batch@ == before_map[0]);
            assert(before_map[0] == doc_batches.skip(k)[0]);
            assert(doc_batches.skip(k)[0] == doc_batches[k]);
            assert(rest@.map_values(|v: Vec<PhotoDocument>| v@) =~= before_map.drop_first());
            assert(before_map.drop_first() =~= doc_batches.skip(k + 1));
        }
        out.push(StoreCommand::UpsertBatch { docs: batch });
        proof {
            assert(out@[k]@ == (StoreCommandView::UpsertBatch {
                docs: doc_batches[k].map_values(|d: PhotoDocument| d@),
            }));
        }
    }
    proof {
        assert forall|i: int| 0 <= i < n implies #[trigger] spec_batches(
            built,
            INSERT_BATCH_SIZE as int,
        )[i] == doc_batches[i].map_values(|d: PhotoDocument| d@) by {
            assert(spec_batches(built, INSERT_BATCH_SIZE as int) == doc_batches.map_values(
                |batch: Seq<PhotoDocument>| batch.map_values(|d: PhotoDocument| d@),
            ));
        }
        assert(spec_batches(built, INSERT_BATCH_SIZE as int).len() == n);
    }
    out
}

} // verus!

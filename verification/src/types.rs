//! Data model of the photo library: photos as the UI hands them in, the
//! durable documents the replicated store holds, the outward payload
//! projection, and the library-level application state.

use vstd::prelude::*;

verus! {

/// Opaque per-photo settings blob, carried through unchanged.
#[derive(Clone, Debug)]
pub struct PhotoConfig(pub String);

impl View for PhotoConfig {
    type V = Seq<char>;

    open spec fn view(&self) -> Seq<char> {
        self.0@
    }
}

impl PhotoConfig {
    pub fn from(s: String) -> (r: PhotoConfig)
        ensures
            r@ == s@,
    {
        PhotoConfig(s)
    }
}

/// Mathematical value of an attachment token: the staged bytes' identity,
/// their length, and the descriptive metadata entries.
pub ghost struct AttachmentTokenView {
    pub id: Seq<char>,
    pub len: u64,
    pub metadata: Seq<(Seq<char>, Seq<char>)>,
}

/// Token describing a staged full-resolution attachment: an identifier the
/// store assigned, the byte length, and descriptive metadata entries
/// (original filename, MIME type).
#[derive(Clone, Debug)]
pub struct AttachmentTokenPayload {
    pub id: String,
    pub len: u64,
    pub metadata: Vec<(String, String)>,
}

impl View for AttachmentTokenPayload {
    type V = AttachmentTokenView;

    open spec fn view(&self) -> AttachmentTokenView {
        AttachmentTokenView {
            id: self.id@,
            len: self.len,
            metadata: self.metadata@.map_values(|p: (String, String)| (p.0@, p.1@)),
        }
    }
}

/// Mathematical value of a photo.
pub ghost struct PhotoView {
    pub id: Seq<char>,
    pub image_path: Seq<char>,
    pub filename: Seq<char>,
    pub base64: Seq<char>,
    pub full_res_attachment: Option<AttachmentTokenView>,
    pub config: Option<Seq<char>>,
    pub favorite: bool,
    pub stack_id: Option<Seq<char>>,
    pub is_stack_primary: bool,
}

/// A photo as handed in by the UI: a stable content-derived identifier, the
/// source path, a thumbnail rendering, and user-editable settings.
#[derive(Clone, Debug)]
pub struct Photo {
    pub id: String,
    pub image_path: String,
    pub filename: String,
    pub base64: String,
    pub full_res_attachment: Option<AttachmentTokenPayload>,
    pub config: Option<PhotoConfig>,
    pub favorite: bool,
    pub stack_id: Option<String>,
    pub is_stack_primary: bool,
}

impl View for Photo {
    type V = PhotoView;

    open spec fn view(&self) -> PhotoView {
        PhotoView {
            id: self.id@,
            image_path: self.image_path@,
            filename: self.filename@,
            base64: self.base64@,
            full_res_attachment: match self.full_res_attachment {
                Some(t) => Some(t@),
                None => None,
            },
            config: match self.config {
                Some(c) => Some(c@),
                None => None,
            },
            favorite: self.favorite,
            stack_id: match self.stack_id {
                Some(s) => Some(s@),
                None => None,
            },
            is_stack_primary: self.is_stack_primary,
        }
    }
}

/// View of an optional string.
pub open spec fn opt_string_view(o: Option<String>) -> Option<Seq<char>> {
    match o {
        Some(s) => Some(s@),
        None => None,
    }
}

/// View of an optional settings blob.
pub open spec fn opt_config_view(o: Option<PhotoConfig>) -> Option<Seq<char>> {
    match o {
        Some(c) => Some(c@),
        None => None,
    }
}

/// View of an optional attachment token.
pub open spec fn opt_token_view(o: Option<AttachmentTokenPayload>) -> Option<AttachmentTokenView> {
    match o {
        Some(t) => Some(t@),
        None => None,
    }
}

/// Copies an optional string; `String::clone` keeps the characters.
pub fn clone_opt_string(o: &Option<String>) -> (r: Option<String>)
    ensures
        r is Some <==> *o is Some,
        r is Some ==> r->0@ == (*o)->0@,
{
    match o {
        Some(s) => Some(s.clone()),
        None => None,
    }
}

impl PhotoConfig {
    /// Copies the settings blob.
    pub fn duplicate(&self) -> (r: PhotoConfig)
        ensures
            r@ == self@,
    {
        PhotoConfig(self.0.clone())
    }
}

/// Copies an optional settings blob.
pub fn clone_opt_config(o: &Option<PhotoConfig>) -> (r: Option<PhotoConfig>)
    ensures
        r is Some <==> *o is Some,
        r is Some ==> r->0@ == (*o)->0@,
{
    match o {
        Some(c) => Some(c.duplicate()),
        None => None,
    }
}

impl AttachmentTokenPayload {
    /// Copies the token, entry by entry.
    pub fn duplicate(&self) -> (r: AttachmentTokenPayload)
        ensures
            r@ == self@,
    {
        let mut metadata: Vec<(String, String)> = Vec::new();
        let mut i: usize = 0;
        while i < self.metadata.len()
            invariant
                i <= self.metadata@.len(),
                metadata@.len() == i,
                forall|j: int| 0 <= j < i ==> metadata@[j].0@ == self.metadata@[j].0@
                    && metadata@[j].1@ == self.metadata@[j].1@,
            decreases self.metadata@.len() - i,
        {
            let pair = (self.metadata[i].0.clone(), self.metadata[i].1.clone());
            metadata.push(pair);
            i += 1;
        }
        let r = AttachmentTokenPayload { id: self.id.clone(), len: self.len, metadata };
        proof {
            assert(r@.metadata =~= self@.metadata);
        }
        r
    }
}

/// Copies an optional attachment token.
pub fn clone_opt_token(o: &Option<AttachmentTokenPayload>) -> (r: Option<AttachmentTokenPayload>)
    ensures
        r is Some <==> *o is Some,
        r is Some ==> r->0@ == (*o)->0@,
{
    match o {
        Some(t) => Some(t.duplicate()),
        None => None,
    }
}

impl Photo {
    /// Copies the photo, field by field.
    pub fn duplicate(&self) -> (r: Photo)
        ensures
            r@ == self@,
    {
        Photo {
            id: self.id.clone(),
            image_path: self.image_path.clone(),
            filename: self.filename.clone(),
            base64: self.base64.clone(),
            full_res_attachment: clone_opt_token(&self.full_res_attachment),
            config: clone_opt_config(&self.config),
            favorite: self.favorite,
            stack_id: clone_opt_string(&self.stack_id),
            is_stack_primary: self.is_stack_primary,
        }
    }
}

/// An action the reducer can apply to the application state.
#[derive(Clone, Debug)]
pub enum AppAction {
    SetImageLibraryContent { images: Vec<Photo> },
    ClearImageLibraryContent,
}

/// Mathematical value of an action.
pub ghost enum AppActionView {
    SetImageLibraryContent { images: Seq<PhotoView> },
    ClearImageLibraryContent,
}

impl View for AppAction {
    type V = AppActionView;

    open spec fn view(&self) -> AppActionView {
        match self {
            AppAction::SetImageLibraryContent { images } => {
                AppActionView::SetImageLibraryContent {
                    images: images@.map_values(|p: Photo| p@),
                }
            }
            AppAction::ClearImageLibraryContent => AppActionView::ClearImageLibraryContent,
        }
    }
}

/// Mathematical value of the application state.
pub ghost struct AppStateView {
    pub images: Seq<PhotoView>,
}

/// Locally-cached library configuration snapshot: the ordered image list.
/// Not the source of truth for individual photo documents.
#[derive(Clone, Debug)]
pub struct AppState {
    pub images: Vec<Photo>,
}

impl View for AppState {
    type V = AppStateView;

    open spec fn view(&self) -> AppStateView {
        AppStateView { images: self.images@.map_values(|p: Photo| p@) }
    }
}

impl AppState {
    /// Copies the state, photo by photo.
    pub fn duplicate(&self) -> (r: AppState)
        ensures
            r@ == self@,
    {
        let mut images: Vec<Photo> = Vec::new();
        let mut i: usize = 0;
        while i < self.images.len()
            invariant
                i <= self.images@.len(),
                images@.len() == i,
                forall|j: int| 0 <= j < i ==> images@[j]@ == self.images@[j]@,
            decreases self.images@.len() - i,
        {
            images.push(self.images[i].duplicate());
            i += 1;
        }
        let r = AppState { images };
        proof {
            assert(r@.images =~= self@.images);
        }
        r
    }
}

impl Default for AppState {
    fn default() -> (r: AppState)
        ensures
            r@.images.len() == 0,
    {
        AppState { images: Vec::new() }
    }
}

/// Mathematical value of a store-resident photo document.
pub ghost struct PhotoDocumentView {
    pub id: Seq<char>,
    pub filename: Seq<char>,
    pub image_path: Seq<char>,
    pub base64: Seq<char>,
    pub full_res_attachment: Option<AttachmentTokenView>,
    pub author_peer_id: Option<Seq<char>>,
    pub content_commit_id: Option<u64>,
    pub config: Option<Seq<char>>,
    pub favorite: bool,
    pub stack_id: Option<Seq<char>>,
    pub is_stack_primary: bool,
}

/// The durable, replicated representation of a photo: the photo fields plus
/// the peer that last wrote it and the local replication commit identifier
/// the store assigned to that write (absent until a write succeeds).
#[derive(Clone, Debug)]
pub struct PhotoDocument {
    pub id: String,
    pub filename: String,
    pub image_path: String,
    pub base64: String,
    pub full_res_attachment: Option<AttachmentTokenPayload>,
    pub author_peer_id: Option<String>,
    pub content_commit_id: Option<u64>,
    pub config: Option<PhotoConfig>,
    pub favorite: bool,
    pub stack_id: Option<String>,
    pub is_stack_primary: bool,
}

impl View for PhotoDocument {
    type V = PhotoDocumentView;

    open spec fn view(&self) -> PhotoDocumentView {
        PhotoDocumentView {
            id: self.id@,
            filename: self.filename@,
            image_path: self.image_path@,
            base64: self.base64@,
            full_res_attachment: match self.full_res_attachment {
                Some(t) => Some(t@),
                None => None,
            },
            author_peer_id: match self.author_peer_id {
                Some(s) => Some(s@),
                None => None,
            },
            content_commit_id: self.content_commit_id,
            config: match self.config {
                Some(c) => Some(c@),
                None => None,
            },
            favorite: self.favorite,
            stack_id: match self.stack_id {
                Some(s) => Some(s@),
                None => None,
            },
            is_stack_primary: self.is_stack_primary,
        }
    }
}

impl PhotoDocument {
    /// Copies the document, field by field.
    pub fn duplicate(&self) -> (r: PhotoDocument)
        ensures
            r@ == self@,
    {
        PhotoDocument {
            id: self.id.clone(),
            filename: self.filename.clone(),
            image_path: self.image_path.clone(),
            base64: self.base64.clone(),
            full_res_attachment: clone_opt_token(&self.full_res_attachment),
            author_peer_id: clone_opt_string(&self.author_peer_id),
            content_commit_id: self.content_commit_id,
            config: clone_opt_config(&self.config),
            favorite: self.favorite,
            stack_id: clone_opt_string(&self.stack_id),
            is_stack_primary: self.is_stack_primary,
        }
    }
}

/// Replication status of one photo document, derived from its commit
/// identifier and the store-wide telemetry.
#[derive(Clone, Copy, Debug, PartialEq, Eq, Structural)]
pub enum SyncStatus {
    Synced,
    Pending,
    Disconnected,
    Unknown,
}

/// Store-wide replication watermark: connectivity and the highest local
/// commit identifier known to have propagated.
#[derive(Clone, Copy, Debug, PartialEq, Eq, Structural)]
pub struct SyncInfo {
    pub connected: bool,
    pub synced_up_to_local_commit_id: Option<u64>,
}

/// Mathematical value of the outward photo projection.
pub ghost struct PhotoPayloadView {
    pub id: Seq<char>,
    pub filename: Seq<char>,
    pub image_path: Seq<char>,
    pub base64: Seq<char>,
    pub full_res_attachment: Option<AttachmentTokenView>,
    pub author_peer_id: Option<Seq<char>>,
    pub config: Option<Seq<char>>,
    pub favorite: bool,
    pub stack_id: Option<Seq<char>>,
    pub is_stack_primary: bool,
    pub sync_status: SyncStatus,
}

/// The outward-facing projection of a photo document: its fields plus the
/// derived replication status.
#[derive(Clone, Debug)]
pub struct PhotoPayload {
    pub id: String,
    pub filename: String,
    pub image_path: String,
    pub base64: String,
    pub full_res_attachment: Option<AttachmentTokenPayload>,
    pub author_peer_id: Option<String>,
    pub config: Option<PhotoConfig>,
    pub favorite: bool,
    pub stack_id: Option<String>,
    pub is_stack_primary: bool,
    pub sync_status: SyncStatus,
}

impl View for PhotoPayload {
    type V = PhotoPayloadView;

    open spec fn view(&self) -> PhotoPayloadView {
        PhotoPayloadView {
            id: self.id@,
            filename: self.filename@,
            image_path: self.image_path@,
            base64: self.base64@,
            full_res_attachment: match self.full_res_attachment {
                Some(t) => Some(t@),
                None => None,
            },
            author_peer_id: match self.author_peer_id {
                Some(s) => Some(s@),
                None => None,
            },
            config: match self.config {
                Some(c) => Some(c@),
                None => None,
            },
            favorite: self.favorite,
            stack_id: match self.stack_id {
                Some(s) => Some(s@),
                None => None,
            },
            is_stack_primary: self.is_stack_primary,
            sync_status: self.sync_status,
        }
    }
}

} // verus!

//! Attachment admission policy: whether a photo's full-resolution bytes are
//! offered to the replication layer, and the descriptive metadata a staged
//! attachment carries. Reading the file's length is the caller's job; the
//! decision on it is made here.

use vstd::prelude::*;

use crate::paths::{file_name_of, guess_mime_type, spec_file_name, spec_mime};

verus! {

/// Admission threshold for full-resolution attachments, in bytes (2 MiB).
pub const FULL_RES_ATTACHMENT_MAX_BYTES: u64 = 2097152;

/// Decides whether a file of `len` bytes may be staged as a full-resolution
/// attachment: admitted exactly when it does not exceed the 2 MiB threshold.
pub fn admits_full_res(len: u64) -> (r: bool)
    ensures
        r == (len <= FULL_RES_ATTACHMENT_MAX_BYTES),
{
    len <= FULL_RES_ATTACHMENT_MAX_BYTES
}

/// Decides whether to stage an attachment from a probed file length: a file
/// within the threshold is staged; an oversize file is not; a file whose
/// length could not be read (a filesystem error) degrades to no attachment
/// rather than failing the upsert.
pub fn should_stage_full_res(file_len: Option<u64>) -> (r: bool)
    ensures
        r == (file_len is Some && file_len->0 <= FULL_RES_ATTACHMENT_MAX_BYTES),
{
    match file_len {
        Some(len) => admits_full_res(len),
        None => false,
    }
}

/// The descriptive metadata of a staged attachment: the original file name,
/// and the MIME type when the extension gives one.
pub open spec fn spec_attachment_user_data(path: Seq<char>) -> Seq<(Seq<char>, Seq<char>)> {
    match spec_mime(path) {
        Some(m) => seq![("name"@, spec_file_name(path)), ("mime_type"@, m)],
        None => seq![("name"@, spec_file_name(path))],
    }
}

/// Builds the metadata entries for an attachment staged from `image_path`.
pub fn attachment_user_data(image_path: &str) -> (r: Vec<(String, String)>)
    ensures
        r@.map_values(|p: (String, String)| (p.0@, p.1@)) == spec_attachment_user_data(
            image_path@,
        ),
{
    let name = file_name_of(image_path);
    let mut out: Vec<(String, String)> = Vec::new();
    out.push(("name".to_owned(), name));
    match guess_mime_type(image_path) {
        Some(mime) => {
            out.push(("mime_type".to_owned(), mime));
            proof {
                assert(out@.map_values(|p: (String, String)| (p.0@, p.1@))
                    =~= spec_attachment_user_data(image_path@));
            }
        }
        None => {
            proof {
                assert(out@.map_values(|p: (String, String)| (p.0@, p.1@))
                    =~= spec_attachment_user_data(image_path@));
            }
        }
    }
    out
}

} // verus!

//! Face recognition surface. The platform vision framework that detects
//! faces is not available to this portable build, so the presence check
//! reports no face and the recognition result stays empty — the portable
//! behaviour of the command.

use vstd::prelude::*;

verus! {

/// The outcome of a face recognition request: the candidate paths whose
/// images matched.
pub struct FaceRecognitionResult {
    pub matched_paths: Vec<String>,
}

impl View for FaceRecognitionResult {
    type V = Seq<Seq<char>>;

    open spec fn view(&self) -> Seq<Seq<char>> {
        self.matched_paths@.map_values(|s: String| s@)
    }
}

/// Whether the image at `path` contains at least one face. Without the
/// platform vision framework no face is ever reported.
pub fn contains_face(path: &str) -> (r: Result<bool, String>)
    ensures
        r == Ok::<bool, String>(false),
{
    let _ = path;
    Ok(false)
}

/// Filters the candidate images by face presence: candidates are matched
/// only when the target image itself contains a face. With the portable
/// presence check the result is always empty.
pub fn recognize_faces(
    target_image_path: String,
    _target_name: String,
    candidate_image_paths: Vec<String>,
) -> (r: Result<FaceRecognitionResult, String>)
    ensures
        r is Ok,
        r->Ok_0@.len() == 0,
{
    let target_has_face = match contains_face(target_image_path.as_str()) {
        Ok(b) => b,
        Err(e) => {
            return Err(e);
        }
    };
    if !target_has_face {
        return Ok(FaceRecognitionResult { matched_paths: Vec::new() });
    }
    let mut matched: Vec<String> = Vec::new();
    let mut rest = candidate_image_paths;
    while rest.len() > 0
        invariant
            matched@.len() == 0,
        decreases rest@.len(),
    {
        let p = rest.remove(0);
        let has = match contains_face(p.as_str()) {
            Ok(b) => b,
            Err(e) => {
                return Err(e);
            }
        };
        if has {
            matched.push(p);
        }
    }
    Ok(FaceRecognitionResult { matched_paths: matched })
}

} // verus!

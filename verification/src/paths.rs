//! Path handling on plain strings: the file name of an image path, its
//! extension, the MIME type guessed from the extension, and the extension
//! filter used when scanning a folder for images. A path is treated as a
//! '/'-separated string; the file name is the part after the last separator.

use vstd::prelude::*;

verus! {

/// ASCII lowercasing of one character; anything outside 'A'..'Z' is kept.
pub open spec fn spec_lower_char(c: char) -> char {
    if 65 <= c as u32 && c as u32 <= 90 {
        ((c as u32 + 32) as char)
    } else {
        c
    }
}

/// ASCII lowercasing of a character sequence.
pub open spec fn spec_lower_seq(s: Seq<char>) -> Seq<char> {
    Seq::new(s.len(), |i: int| spec_lower_char(s[i]))
}

/// ASCII lowercasing of one character.
pub fn to_lower_char(c: char) -> (r: char)
    ensures
        r == spec_lower_char(c),
{
    let u = c as u32;
    if 65 <= u && u <= 90 {
        ((u + 32) as u8) as char
    } else {
        c
    }
}

/// Index of the last occurrence of `c`, or -1 when `c` does not occur.
pub open spec fn spec_last_index(s: Seq<char>, c: char) -> int
    decreases s.len(),
{
    if s.len() == 0 {
        -1
    } else if s.last() == c {
        s.len() - 1
    } else {
        spec_last_index(s.drop_last(), c)
    }
}

/// A found index carries `c`; nothing after it does; -1 means `c` is absent.
pub proof fn lemma_last_index(s: Seq<char>, c: char)
    ensures
        spec_last_index(s, c) == -1 ==> forall|j: int| 0 <= j < s.len() ==> s[j] != c,
        spec_last_index(s, c) != -1 ==> {
            let k = spec_last_index(s, c);
            &&& 0 <= k < s.len()
            &&& s[k] == c
            &&& forall|j: int| k < j < s.len() ==> s[j] != c
        },
    decreases s.len(),
{
    if s.len() > 0 && s.last() != c {
        lemma_last_index(s.drop_last(), c);
        let k = spec_last_index(s, c);
        if k == -1 {
            assert forall|j: int| 0 <= j < s.len() implies s[j] != c by {
                if j < s.len() - 1 {
                    assert(s.drop_last()[j] != c);
                }
            }
        } else {
            assert(s[k] == s.drop_last()[k]);
            assert forall|j: int| k < j < s.len() implies s[j] != c by {
                if j < s.len() - 1 {
                    assert(s.drop_last()[j] != c);
                }
            }
        }
    }
}

/// Extending the scanned prefix by one character moves the last index to it
/// exactly when it matches.
proof fn lemma_last_index_take(s: Seq<char>, c: char, i: int)
    requires
        0 <= i < s.len(),
    ensures
        spec_last_index(s.take(i + 1), c) == (if s[i] == c {
            i
        } else {
            spec_last_index(s.take(i), c)
        }),
{
    let t = s.take(i + 1);
    assert(t.last() == s[i]);
    assert(t.drop_last() =~= s.take(i));
}

/// Index of the last occurrence of `c` in `s`, if any.
#[verifier::loop_isolation(false)]
pub fn last_char_index(s: &str, c: char) -> (r: Option<usize>)
    ensures
        match r {
            Some(k) => k == spec_last_index(s@, c),
            None => spec_last_index(s@, c) == -1,
        },
{
    let n = s.unicode_len();
    let mut found: Option<usize> = None;
    let mut i: usize = 0;
    proof {
        assert(s@.take(0) =~= Seq::<char>::empty());
    }
    while i < n
        invariant
            i <= n,
            n == s@.len(),
            match found {
                Some(k) => k == spec_last_index(s@.take(i as int), c),
                None => spec_last_index(s@.take(i as int), c) == -1,
            },
        decreases n - i,
    {
        proof {
            lemma_last_index_take(s@, c, i as int);
        }
        if s.get_char(i) == c {
            found = Some(i);
        }
        i += 1;
    }
    proof {
        assert(s@.take(n as int) =~= s@);
    }
    found
}

/// The file name of a path: the part after the last '/', or the whole path
/// when there is no separator or nothing follows it.
pub open spec fn spec_file_name(path: Seq<char>) -> Seq<char> {
    let k = spec_last_index(path, '/');
    if k == -1 || k == path.len() - 1 {
        path
    } else {
        path.skip(k + 1)
    }
}

/// Derives the file name of an image path.
pub fn file_name_of(path: &str) -> (r: String)
    ensures
        r@ == spec_file_name(path@),
{
    let n = path.unicode_len();
    match last_char_index(path, '/') {
        None => path.to_owned(),
        Some(k) => {
            proof {
                lemma_last_index(path@, '/');
            }
            if k + 1 == n {
                path.to_owned()
            } else {
                let r = path.substring_char(k + 1, n).to_owned();
                proof {
                    assert(path@.subrange(k + 1, n as int) =~= path@.skip(k + 1));
                }
                r
            }
        }
    }
}

/// The extension of a path: the part of the file name after its last '.',
/// absent when the file name has no '.' or starts with its only one.
pub open spec fn spec_extension(path: Seq<char>) -> Option<Seq<char>> {
    let fname_start = spec_last_index(path, '/') + 1;
    let d = spec_last_index(path, '.');
    if d <= fname_start {
        None
    } else {
        Some(path.skip(d + 1))
    }
}

/// The extension of a path, lowercased; absent when there is none.
pub open spec fn spec_lower_extension(path: Seq<char>) -> Option<Seq<char>> {
    match spec_extension(path) {
        None => None,
        Some(e) => Some(spec_lower_seq(e)),
    }
}

/// Whether the range `from..to` of `s`, lowercased, spells `lit` exactly.
#[verifier::loop_isolation(false)]
pub fn range_matches_lower(s: &str, from: usize, to: usize, lit: &str) -> (r: bool)
    requires
        from <= to <= s@.len(),
    ensures
        r == (spec_lower_seq(s@.subrange(from as int, to as int)) == lit@),
{
    let ghost target = spec_lower_seq(s@.subrange(from as int, to as int));
    let m = lit.unicode_len();
    if to - from != m {
        proof {
            assert(target.len() != lit@.len());
        }
        return false;
    }
    let mut j: usize = 0;
    while j < m
        invariant
            j <= m,
            forall|q: int| 0 <= q < j ==> target[q] == lit@[q],
        decreases m - j,
    {
        let cs = to_lower_char(s.get_char(from + j));
        let cl = lit.get_char(j);
        if cs != cl {
            proof {
                assert(target[j as int] != lit@[j as int]);
            }
            return false;
        }
        j += 1;
    }
    proof {
        assert(target =~= lit@);
    }
    true
}

/// The MIME type the library infers from a path's extension, for the
/// descriptive metadata of a staged attachment.
pub open spec fn spec_mime(path: Seq<char>) -> Option<Seq<char>> {
    match spec_lower_extension(path) {
        None => None,
        Some(e) => if e == "jpg"@ || e == "jpeg"@ {
            Some("image/jpeg"@)
        } else if e == "png"@ {
            Some("image/png"@)
        } else if e == "gif"@ {
            Some("image/gif"@)
        } else if e == "webp"@ {
            Some("image/webp"@)
        } else if e == "tiff"@ || e == "tif"@ {
            Some("image/tiff"@)
        } else if e == "heic"@ {
            Some("image/heic"@)
        } else {
            None
        },
    }
}

/// Guesses the MIME type of an image file from its extension, best effort:
/// absent when the extension is missing or unknown.
pub fn guess_mime_type(path: &str) -> (r: Option<String>)
    ensures
        match r {
            Some(m) => spec_mime(path@) == Some(m@),
            None => spec_mime(path@) is None,
        },
{
    let n = path.unicode_len();
    proof {
        lemma_last_index(path@, '/');
    }
    let fname_start: usize = match last_char_index(path, '/') {
        None => 0,
        Some(k) => k + 1,
    };
    let d = match last_char_index(path, '.') {
        None => {
            return None;
        }
        Some(d) => d,
    };
    if d < fname_start || d == fname_start {
        return None;
    }
    proof {
        lemma_last_index(path@, '.');
        assert(path@.subrange(d + 1, n as int) =~= path@.skip(d + 1));
    }
    let from = d + 1;
    if range_matches_lower(path, from, n, "jpg") || range_matches_lower(path, from, n, "jpeg") {
        Some("image/jpeg".to_owned())
    } else if range_matches_lower(path, from, n, "png") {
        Some("image/png".to_owned())
    } else if range_matches_lower(path, from, n, "gif") {
        Some("image/gif".to_owned())
    } else if range_matches_lower(path, from, n, "webp") {
        Some("image/webp".to_owned())
    } else if range_matches_lower(path, from, n, "tiff") || range_matches_lower(
        path,
        from,
        n,
        "tif",
    ) {
        Some("image/tiff".to_owned())
    } else if range_matches_lower(path, from, n, "heic") {
        Some("image/heic".to_owned())
    } else {
        None
    }
}

/// Whether a scanned file is taken for an image, by extension.
pub open spec fn spec_supported_image(path: Seq<char>) -> bool {
    match spec_lower_extension(path) {
        None => false,
        Some(e) => e == "jpg"@ || e == "jpeg"@ || e == "png"@ || e == "heic"@ || e == "webp"@
            || e == "tiff"@,
    }
}

/// Decides whether a file found during a folder scan is imported as an
/// image: exactly the extensions jpg, jpeg, png, heic, webp and tiff are
/// taken, case-insensitively.
pub fn is_supported_image_path(path: &str) -> (r: bool)
    ensures
        r == spec_supported_image(path@),
{
    let n = path.unicode_len();
    proof {
        lemma_last_index(path@, '/');
    }
    let fname_start: usize = match last_char_index(path, '/') {
        None => 0,
        Some(k) => k + 1,
    };
    let d = match last_char_index(path, '.') {
        None => {
            return false;
        }
        Some(d) => d,
    };
    if d < fname_start || d == fname_start {
        return false;
    }
    proof {
        lemma_last_index(path@, '.');
        assert(path@.subrange(d + 1, n as int) =~= path@.skip(d + 1));
    }
    let from = d + 1;
    range_matches_lower(path, from, n, "jpg") || range_matches_lower(path, from, n, "jpeg")
        || range_matches_lower(path, from, n, "png") || range_matches_lower(path, from, n, "heic")
        || range_matches_lower(path, from, n, "webp") || range_matches_lower(
        path,
        from,
        n,
        "tiff",
    )
}

} // verus!

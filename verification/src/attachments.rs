//! Validation and naming of uploaded image attachments, and the skip rules
//! of the file-tree listing.

use vstd::prelude::*;
use vstd::string::StrSliceExecFns;
use vstd::string::StringExecFns;
use crate::ids::fresh_uuid;
use crate::textutil::has_prefix;
use crate::textutil::spec_lower;
use crate::textutil::spec_trim;
use crate::textutil::starts_with;
use crate::textutil::str_eq;
use crate::textutil::to_lowercase;
use crate::textutil::trim_str;
use crate::ghcli::spec_rfind_char;

verus! {

/// The decoded bytes of standard base64 text, when it is valid.
pub uninterp spec fn spec_base64_decoded(s: Seq<char>) -> Option<Seq<u8>>;

/// Relies on `base64::Engine::decode` with the standard alphabet: the
/// decoded bytes, a function of the text alone; `None` for invalid text.
#[verifier::external_body]
pub fn base64_decode(s: &str) -> (r: Option<Vec<u8>>)
    ensures
        (match spec_base64_decoded(s@) {
            Option::Some(bytes) => r matches Some(v) && v@ == bytes,
            Option::None => r is None,
        }),
{
    base64::Engine::decode(&base64::engine::general_purpose::STANDARD, s).ok()
}

/// The file extension a known image MIME type maps to.
pub open spec fn spec_mime_ext(m: Seq<char>) -> Option<Seq<char>> {
    if m == "image/png"@ {
        Option::Some("png"@)
    } else if m == "image/jpeg"@ || m == "image/jpg"@ {
        Option::Some("jpg"@)
    } else if m == "image/webp"@ {
        Option::Some("webp"@)
    } else if m == "image/gif"@ {
        Option::Some("gif"@)
    } else if m == "image/bmp"@ {
        Option::Some("bmp"@)
    } else {
        Option::None
    }
}

/// The file extension for a known image MIME type.
pub fn ext_from_mime(mime: &str) -> (r: Option<&'static str>)
    ensures
        (match spec_mime_ext(mime@) {
            Option::Some(e) => r matches Some(x) && x@ == e,
            Option::None => r is None,
        }),
{
    proof {
        reveal_strlit("image/png");
        reveal_strlit("image/jpeg");
        reveal_strlit("image/jpg");
        reveal_strlit("image/webp");
        reveal_strlit("image/gif");
        reveal_strlit("image/bmp");
        assert("image/png"@[6] == 'p');
        assert("image/jpeg"@[6] == 'j');
        assert("image/jpg"@[6] == 'j');
        assert("image/jpg"@[8] == 'g');
        assert("image/jpeg"@.len() == 10);
        assert("image/jpg"@.len() == 9);
        assert("image/webp"@[6] == 'w');
        assert("image/gif"@[6] == 'g');
        assert("image/bmp"@[6] == 'b');
    }
    if str_eq(mime, "image/png") {
        Some("png")
    } else if str_eq(mime, "image/jpeg") {
        Some("jpg")
    } else if str_eq(mime, "image/jpg") {
        Some("jpg")
    } else if str_eq(mime, "image/webp") {
        Some("webp")
    } else if str_eq(mime, "image/gif") {
        Some("gif")
    } else if str_eq(mime, "image/bmp") {
        Some("bmp")
    } else {
        None
    }
}

/// The text after the last dot of the lowercased file name.
pub open spec fn spec_name_ext(name: Seq<char>) -> Seq<char> {
    let low = spec_lower(name);
    match spec_rfind_char(low, '.') {
        Option::Some(i) => low.subrange(i + 1, low.len() as int),
        Option::None => low,
    }
}

/// `e` is an accepted image file extension.
pub open spec fn spec_known_image_ext(e: Seq<char>) -> bool {
    e == "png"@ || e == "jpg"@ || e == "jpeg"@ || e == "webp"@ || e == "gif"@ || e == "bmp"@
}

/// The extension taken from the file name, when it is a known image
/// extension.
pub fn ext_from_name(name: &str) -> (r: Option<String>)
    ensures
        spec_known_image_ext(spec_name_ext(name@)) ==> (r matches Some(e) && e@ == spec_name_ext(
            name@,
        )),
        !spec_known_image_ext(spec_name_ext(name@)) ==> r is None,
{
    let low = to_lowercase(name);
    let v = crate::textutil::str_to_chars(low.as_str());
    let n = v.len();
    let mut j: usize = n;
    let mut stop = false;
    while j > 0 && !stop
        invariant
            n == v@.len(),
            v@ == spec_lower(name@),
            j <= n,
            forall|k: int| j <= k < n ==> v@[k] != '.',
            stop ==> j > 0 && v@[j - 1] == '.',
        decreases j, 1int - (if stop { 1int } else { 0int }),
    {
        if v[j - 1] == '.' {
            stop = true;
            continue;
        }
        j = j - 1;
    }
    proof {
        crate::ghcli::lemma_rfind_char_props(v@, '.');
    }
    let seg = if stop {
        proof {
            match spec_rfind_char(v@, '.') {
                Option::Some(i) => {
                    assert(i == j - 1);
                },
                Option::None => {
                    assert(v@[j - 1] != '.');
                },
            }
        }
        crate::textutil::subvec_chars(&v, j, n)
    } else {
        proof {
            assert(v@.subrange(0, n as int) =~= v@);
        }
        crate::textutil::subvec_chars(&v, 0, n)
    };
    proof {
        assert(seg@ == spec_name_ext(name@));
    }
    let seg_s = crate::textutil::chars_to_string(&seg);
    if str_eq(seg_s.as_str(), "png") || str_eq(seg_s.as_str(), "jpg") || str_eq(
        seg_s.as_str(),
        "jpeg",
    ) || str_eq(seg_s.as_str(), "webp") || str_eq(seg_s.as_str(), "gif") || str_eq(
        seg_s.as_str(),
        "bmp",
    ) {
        Some(seg_s)
    } else {
        None
    }
}

/// The size cap on a saved image, in bytes.
pub fn attachment_max_bytes() -> (r: usize)
    ensures
        r == 12582912,
{
    12582912
}

/// The extension an upload gets: from its trimmed, lowercased MIME type, or
/// failing that from its file name; `None` when neither yields one.
pub open spec fn spec_attachment_ext(mime: Seq<char>, name: Seq<char>) -> Option<Seq<char>> {
    match spec_mime_ext(spec_lower(spec_trim(mime))) {
        Option::Some(e) => Option::Some(e),
        Option::None => if spec_known_image_ext(spec_name_ext(name)) {
            Option::Some(spec_name_ext(name))
        } else {
            Option::None
        },
    }
}

/// What should be done with an upload.
pub enum AttachmentPlan {
    /// Save the decoded bytes under this fresh file name.
    Save { file_name: String },
    /// Reject the upload with this message.
    Reject { msg: String },
}

/// Decide an upload's fate from its trimmed, lowercased MIME type, its file
/// name, and its decoded bytes: only images are accepted, empty and
/// oversized files are rejected, and the extension comes from the MIME type
/// or, failing that, from the file name. The chosen file name is a fresh
/// identifier with that extension.
pub fn plan_attachment_save(mime: &str, name: &str, decoded: Option<&Vec<u8>>) -> (r:
    AttachmentPlan)
    ensures
        (!has_prefix(spec_lower(spec_trim(mime@)), "image/"@) ==> (r matches
        AttachmentPlan::Reject { msg } && msg@ == "Only image attachments are supported."@)),
        ((has_prefix(spec_lower(spec_trim(mime@)), "image/"@) && decoded is None) ==> (r matches
        AttachmentPlan::Reject { msg } && msg@ == "Invalid base64 payload."@)),
        (match decoded {
            Option::Some(d) => (has_prefix(spec_lower(spec_trim(mime@)), "image/"@) && d@.len()
                == 0) ==> (r matches AttachmentPlan::Reject { msg } && msg@ == "Empty file."@),
            Option::None => true,
        }),
        (match decoded {
            Option::Some(d) => (has_prefix(spec_lower(spec_trim(mime@)), "image/"@) && d@.len()
                > 12582912) ==> (r matches AttachmentPlan::Reject { msg } && msg@
                == "Image is too large (max 12MB)."@),
            Option::None => true,
        }),
        (match decoded {
            Option::Some(d) => (has_prefix(spec_lower(spec_trim(mime@)), "image/"@) && 0 < d@.len()
                <= 12582912) ==> (match spec_attachment_ext(mime@, name@) {
                Option::Some(e) => (r matches AttachmentPlan::Save { file_name } && file_name@.len()
                    == 37 + e.len() && file_name@.subrange(36, file_name@.len() as int) == (
                seq!['.'] + e)),
                Option::None => (r matches AttachmentPlan::Reject { msg } && msg@
                    == "Unsupported image type."@),
            }),
            Option::None => true,
        }),
{
    let t = trim_str(mime);
    let low = to_lowercase(t.as_str());
    if !starts_with(low.as_str(), "image/") {
        return AttachmentPlan::Reject { msg: String::from_str("Only image attachments are supported.") };
    }
    let data = match decoded {
        Option::Some(d) => d,
        Option::None => {
            return AttachmentPlan::Reject { msg: String::from_str("Invalid base64 payload.") };
        },
    };
    if data.len() == 0 {
        return AttachmentPlan::Reject { msg: String::from_str("Empty file.") };
    }
    if data.len() > attachment_max_bytes() {
        return AttachmentPlan::Reject { msg: String::from_str("Image is too large (max 12MB).") };
    }
    let ext = match ext_from_mime(low.as_str()) {
        Option::Some(e) => String::from_str(e),
        Option::None => match ext_from_name(name) {
            Option::Some(e) => e,
            Option::None => {
                return AttachmentPlan::Reject { msg: String::from_str("Unsupported image type.") };
            },
        },
    };
    let mut file_name = fresh_uuid();
    crate::textutil::push_char(&mut file_name, '.');
    file_name.append(ext.as_str());
    proof {
        assert(file_name@.subrange(36, file_name@.len() as int) =~= seq!['.'] + ext@);
    }
    AttachmentPlan::Save { file_name }
}

/// Directory entries the file-tree listing never shows.
pub fn should_skip(name: &str) -> (r: bool)
    ensures
        r == (name@ == ".git"@ || name@ == "node_modules"@ || name@ == "target"@ || name@
            == "dist"@ || name@ == "build"@ || name@ == ".snailer"@ || name@ == ".DS_Store"@),
{
    str_eq(name, ".git") || str_eq(name, "node_modules") || str_eq(name, "target") || str_eq(
        name,
        "dist",
    ) || str_eq(name, "build") || str_eq(name, ".snailer") || str_eq(name, ".DS_Store")
}

/// How many bytes of a read file are returned: at most `max_bytes`.
pub fn clamp_read_len(len: usize, max_bytes: usize) -> (r: usize)
    ensures
        r == (if max_bytes < len {
            max_bytes
        } else {
            len
        }),
{
    if max_bytes < len {
        max_bytes
    } else {
        len
    }
}

} // verus!

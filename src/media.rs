//! Media ingestion rules: which uploads are accepted, under what kind, and the
//! name under which an accepted file is stored.
use vstd::prelude::*;
use vstd::string::*;
use crate::text::{
    eq_lowered, extension, file_extension, lower_text, signed_decimal, signed_decimal_text, text_eq,
};

verus! {

/// Largest accepted upload, in bytes (50 MiB).
pub const MAX_UPLOAD_BYTES: usize = 50 * 1024 * 1024;

/// The media kinds a board accepts.
#[derive(Debug, PartialEq, Eq, Structural, Clone, Copy)]
pub enum MediaKind {
    Jpeg,
    Png,
    Gif,
    Webp,
    Bmp,
    Mp4,
}

/// Why an upload was refused.
#[derive(Debug, PartialEq, Eq, Structural, Clone, Copy)]
pub enum RejectReason {
    /// Neither the declared type nor the name gives an accepted kind, or the
    /// content does not carry that kind's signature.
    UnsupportedType,
    /// The file is larger than `MAX_UPLOAD_BYTES`.
    TooLarge,
    /// Writing the file failed.
    IoFailure,
}

/// The kind that a MIME type names.
pub open spec fn kind_of_mime(m: Seq<char>) -> Option<MediaKind> {
    if m == "image/jpeg"@ {
        Some(MediaKind::Jpeg)
    } else if m == "image/png"@ {
        Some(MediaKind::Png)
    } else if m == "image/gif"@ {
        Some(MediaKind::Gif)
    } else if m == "image/webp"@ {
        Some(MediaKind::Webp)
    } else if m == "image/bmp"@ {
        Some(MediaKind::Bmp)
    } else if m == "video/mp4"@ {
        Some(MediaKind::Mp4)
    } else {
        None
    }
}

/// The kind that a file extension names, in any ASCII case.
pub open spec fn kind_of_ext(e: Seq<char>) -> Option<MediaKind> {
    let l = lower_text(e);
    if l == "jpg"@ || l == "jpeg"@ {
        Some(MediaKind::Jpeg)
    } else if l == "png"@ {
        Some(MediaKind::Png)
    } else if l == "gif"@ {
        Some(MediaKind::Gif)
    } else if l == "webp"@ {
        Some(MediaKind::Webp)
    } else if l == "bmp"@ {
        Some(MediaKind::Bmp)
    } else if l == "mp4"@ {
        Some(MediaKind::Mp4)
    } else {
        None
    }
}

/// Extension under which a kind is stored.
pub open spec fn ext_of(k: MediaKind) -> Seq<char> {
    match k {
        MediaKind::Jpeg => "jpg"@,
        MediaKind::Png => "png"@,
        MediaKind::Gif => "gif"@,
        MediaKind::Webp => "webp"@,
        MediaKind::Bmp => "bmp"@,
        MediaKind::Mp4 => "mp4"@,
    }
}

/// The kind an upload claims: by its declared content type, or else by the
/// extension of its file name.
pub open spec fn claimed_kind(content_type: Seq<char>, file_name: Seq<char>) -> Option<MediaKind> {
    match kind_of_mime(content_type) {
        Some(k) => Some(k),
        None => match extension(file_name) {
            Some(e) => kind_of_ext(e),
            None => None,
        },
    }
}

/// The decision on an upload: it must claim an accepted kind, fit the size
/// cap, and its content must be recognised as that same kind.
pub open spec fn verdict(
    claimed: Option<MediaKind>,
    size: nat,
    sniffed: Option<Seq<char>>,
) -> Result<MediaKind, RejectReason> {
    match claimed {
        None => Err(RejectReason::UnsupportedType),
        Some(k) => if size > MAX_UPLOAD_BYTES {
            Err(RejectReason::TooLarge)
        } else {
            match sniffed {
                Some(m) if kind_of_mime(m) == Some(k) => Ok(k),
                _ => Err(RejectReason::UnsupportedType),
            }
        },
    }
}

/// Name for what signature sniffing reports of a file's leading bytes: the
/// MIME type recognised, if any.
pub uninterp spec fn sniffed_mime(head: Seq<u8>) -> Option<Seq<char>>;

pub open spec fn text_view(o: Option<String>) -> Option<Seq<char>> {
    match o {
        Some(s) => Some(s@),
        None => None,
    }
}

/// Relies on `infer::get`: the MIME type of the first matcher that accepts the
/// bytes, a function of the bytes alone.
#[verifier::external_body]
fn sniff_mime(head: &[u8]) -> (r: Option<String>)
    ensures
        text_view(r) == sniffed_mime(head@),
{
    match infer::get(head) {
        Some(t) => Some(t.mime_type().to_string()),
        None => None,
    }
}

/// A lower-case hexadecimal digit or a hyphen.
pub open spec fn token_char(c: char) -> bool {
    ('0' <= c && c <= '9') || ('a' <= c && c <= 'f') || c == '-'
}

/// The shape of a hyphenated UUID.
pub open spec fn is_token(t: Seq<char>) -> bool {
    t.len() == 36 && forall|i: int| 0 <= i < t.len() ==> token_char(#[trigger] t[i])
}

/// Relies on `uuid::Uuid::new_v4` and its `Display`: a random UUID in the
/// hyphenated lower-case form, 36 characters.
#[verifier::external_body]
fn random_token() -> (r: String)
    ensures
        is_token(r@),
{
    uuid::Uuid::new_v4().to_string()
}

/// Relies on `chrono::Utc::now` and `DateTime::timestamp`: the current time in
/// seconds since the Unix epoch.
#[verifier::external_body]
pub fn now_seconds() -> (r: i64) {
    chrono::Utc::now().timestamp()
}

impl MediaKind {
    /// Extension under which this kind is stored.
    pub fn ext(&self) -> (r: &'static str)
        ensures
            r@ == ext_of(*self),
    {
        match self {
            MediaKind::Jpeg => "jpg",
            MediaKind::Png => "png",
            MediaKind::Gif => "gif",
            MediaKind::Webp => "webp",
            MediaKind::Bmp => "bmp",
            MediaKind::Mp4 => "mp4",
        }
    }
}

/// The kind that a MIME type names, if it is an accepted one.
pub fn kind_from_mime(mime: &str) -> (r: Option<MediaKind>)
    ensures
        r == kind_of_mime(mime@),
{
    if text_eq(mime, "image/jpeg") {
        Some(MediaKind::Jpeg)
    } else if text_eq(mime, "image/png") {
        Some(MediaKind::Png)
    } else if text_eq(mime, "image/gif") {
        Some(MediaKind::Gif)
    } else if text_eq(mime, "image/webp") {
        Some(MediaKind::Webp)
    } else if text_eq(mime, "image/bmp") {
        Some(MediaKind::Bmp)
    } else if text_eq(mime, "video/mp4") {
        Some(MediaKind::Mp4)
    } else {
        None
    }
}

/// Stored extension for an accepted MIME type.
pub fn ext_from_mime(mime: &str) -> (r: Option<&'static str>)
    ensures
        r is Some <==> kind_of_mime(mime@) is Some,
        r matches Some(e) ==> e@ == ext_of(kind_of_mime(mime@)->0),
{
    match kind_from_mime(mime) {
        Some(k) => Some(k.ext()),
        None => None,
    }
}

/// The kind that a file extension names, if it is an accepted one.
pub fn kind_from_ext(ext: &str) -> (r: Option<MediaKind>)
    ensures
        r == kind_of_ext(ext@),
{
    if eq_lowered(ext, "jpg") || eq_lowered(ext, "jpeg") {
        Some(MediaKind::Jpeg)
    } else if eq_lowered(ext, "png") {
        Some(MediaKind::Png)
    } else if eq_lowered(ext, "gif") {
        Some(MediaKind::Gif)
    } else if eq_lowered(ext, "webp") {
        Some(MediaKind::Webp)
    } else if eq_lowered(ext, "bmp") {
        Some(MediaKind::Bmp)
    } else if eq_lowered(ext, "mp4") {
        Some(MediaKind::Mp4)
    } else {
        None
    }
}

/// The kind an upload claims by its content type or, failing that, its name.
pub fn claim_kind(content_type: &str, file_name: &str) -> (r: Option<MediaKind>)
    ensures
        r == claimed_kind(content_type@, file_name@),
{
    match kind_from_mime(content_type) {
        Some(k) => Some(k),
        None => match file_extension(file_name) {
            Some(e) => kind_from_ext(e),
            None => None,
        },
    }
}

/// Whether a file field carries an upload at all: a field without a file
/// name, or with an empty one, is skipped rather than refused.
pub fn media_present(file_name: Option<&str>) -> (r: bool)
    ensures
        r == (file_name matches Some(n) && n@.len() > 0),
{
    match file_name {
        Some(n) => n.unicode_len() > 0,
        None => false,
    }
}

/// Decides on an upload from its claimed kind, its size, and the MIME type that
/// sniffing its leading bytes reported.
pub fn judge_media(claimed: Option<MediaKind>, size: usize, sniffed: &Option<String>) -> (r: Result<
    MediaKind,
    RejectReason,
>)
    ensures
        r == verdict(claimed, size as nat, text_view(*sniffed)),
{
    match claimed {
        None => Err(RejectReason::UnsupportedType),
        Some(k) => {
            if size > MAX_UPLOAD_BYTES {
                return Err(RejectReason::TooLarge);
            }
            match sniffed {
                Some(m) => match kind_from_mime(m.as_str()) {
                    Some(s) if s == k => Ok(k),
                    _ => Err(RejectReason::UnsupportedType),
                },
                None => Err(RejectReason::UnsupportedType),
            }
        },
    }
}

/// Decides on an upload of `size` bytes whose content starts with `head`.
pub fn admit_media(content_type: &str, file_name: &str, size: usize, head: &[u8]) -> (r: Result<
    MediaKind,
    RejectReason,
>)
    ensures
        r == verdict(claimed_kind(content_type@, file_name@), size as nat, sniffed_mime(head@)),
{
    let claimed = claim_kind(content_type, file_name);
    let sniffed = sniff_mime(head);
    judge_media(claimed, size, &sniffed)
}

/// Stored file name: `{time}-{token}.{ext}`.
pub open spec fn stored_text(time: int, token: Seq<char>, k: MediaKind) -> Seq<char> {
    signed_decimal(time) + "-"@ + token + "."@ + ext_of(k)
}

/// The stored name for a file of kind `k` written at `time` under `token`.
pub fn stored_name(time: i64, token: &str, k: MediaKind) -> (r: String)
    ensures
        r@ == stored_text(time as int, token@, k),
{
    let mut s = signed_decimal_text(time);
    s.append("-");
    s.append(token);
    s.append(".");
    s.append(k.ext());
    s
}

/// A fresh stored name for a file of kind `k`: the current time and a random
/// token, so that no client-supplied text reaches the file system.
pub fn new_stored_name(k: MediaKind) -> (r: String)
    ensures
        exists|time: int, token: Seq<char>| is_token(token) && r@ == stored_text(time, token, k),
{
    let time = now_seconds();
    let token = random_token();
    let r = stored_name(time, token.as_str(), k);
    assert(is_token(token@) && r@ == stored_text(time as int, token@, k));
    r
}

} // verus!

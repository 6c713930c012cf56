use imageboard::media::{
    admit_media, claim_kind, ext_from_mime, judge_media, kind_from_ext, kind_from_mime,
    media_present, new_stored_name, stored_name, MediaKind, RejectReason, MAX_UPLOAD_BYTES,
};

const PNG_HEAD: [u8; 8] = [0x89, 0x50, 0x4E, 0x47, 0x0D, 0x0A, 0x1A, 0x0A];
const JPEG_HEAD: [u8; 4] = [0xFF, 0xD8, 0xFF, 0xE0];

#[test]
fn mime_types_map_to_extensions() {
    assert_eq!(ext_from_mime("image/jpeg"), Some("jpg"));
    assert_eq!(ext_from_mime("image/png"), Some("png"));
    assert_eq!(ext_from_mime("image/gif"), Some("gif"));
    assert_eq!(ext_from_mime("image/webp"), Some("webp"));
    assert_eq!(ext_from_mime("image/bmp"), Some("bmp"));
    assert_eq!(ext_from_mime("video/mp4"), Some("mp4"));
    assert_eq!(ext_from_mime("text/plain"), None);
    assert_eq!(ext_from_mime("IMAGE/PNG"), None);
    assert_eq!(kind_from_mime(""), None);
}

#[test]
fn extensions_map_to_kinds_in_any_case() {
    assert_eq!(kind_from_ext("JPEG"), Some(MediaKind::Jpeg));
    assert_eq!(kind_from_ext("jpg"), Some(MediaKind::Jpeg));
    assert_eq!(kind_from_ext("Mp4"), Some(MediaKind::Mp4));
    assert_eq!(kind_from_ext("exe"), None);
    assert_eq!(kind_from_ext(""), None);
}

#[test]
fn claimed_kind_prefers_content_type() {
    assert_eq!(claim_kind("image/gif", "a.png"), Some(MediaKind::Gif));
    assert_eq!(claim_kind("application/octet-stream", "cat.final.PNG"), Some(MediaKind::Png));
    assert_eq!(claim_kind("", "noextension"), None);
    assert_eq!(claim_kind("", "archive.tar.gz"), None);
    assert_eq!(claim_kind("", "trailingdot."), None);
}

#[test]
fn png_named_text_file_is_refused() {
    let body = b"just some text, not an image";
    assert_eq!(
        admit_media("", "picture.png", body.len(), body),
        Err(RejectReason::UnsupportedType)
    );
    assert_eq!(
        admit_media("image/png", "picture.png", body.len(), body),
        Err(RejectReason::UnsupportedType)
    );
}

#[test]
fn matching_content_is_accepted() {
    assert_eq!(admit_media("image/png", "x.png", 8, &PNG_HEAD), Ok(MediaKind::Png));
    assert_eq!(admit_media("", "x.JPEG", 4, &JPEG_HEAD), Ok(MediaKind::Jpeg));
}

#[test]
fn content_of_another_accepted_kind_is_refused() {
    assert_eq!(
        admit_media("image/png", "x.png", 4, &JPEG_HEAD),
        Err(RejectReason::UnsupportedType)
    );
}

#[test]
fn unsupported_and_oversized_uploads() {
    assert_eq!(
        admit_media("application/pdf", "doc.pdf", 10, &PNG_HEAD),
        Err(RejectReason::UnsupportedType)
    );
    assert_eq!(
        admit_media("image/png", "x.png", MAX_UPLOAD_BYTES + 1, &PNG_HEAD),
        Err(RejectReason::TooLarge)
    );
    assert_eq!(
        judge_media(Some(MediaKind::Png), MAX_UPLOAD_BYTES, &Some("image/png".to_string())),
        Ok(MediaKind::Png)
    );
    assert_eq!(judge_media(Some(MediaKind::Png), 3, &None), Err(RejectReason::UnsupportedType));
    assert_eq!(judge_media(None, 3, &Some("image/png".to_string())), Err(RejectReason::UnsupportedType));
}

#[test]
fn empty_file_fields_are_skipped() {
    assert!(!media_present(None));
    assert!(!media_present(Some("")));
    assert!(media_present(Some("a.png")));
}

#[test]
fn stored_names_have_the_expected_shape() {
    assert_eq!(stored_name(1700000000, "tok", MediaKind::Webp), "1700000000-tok.webp");
    assert_eq!(stored_name(-5, "t", MediaKind::Jpeg), "-5-t.jpg");
    assert_eq!(stored_name(0, "t", MediaKind::Mp4), "0-t.mp4");
    let name = new_stored_name(MediaKind::Png);
    assert!(name.ends_with(".png"));
    let stem = &name[..name.len() - 4];
    let (time, token) = stem.split_at(stem.len() - 36);
    assert!(time.ends_with('-'));
    assert!(time[..time.len() - 1].parse::<i64>().unwrap() > 1_600_000_000);
    assert!(token.chars().all(|c| c.is_ascii_hexdigit() || c == '-'));
    assert_ne!(new_stored_name(MediaKind::Png), name);
}

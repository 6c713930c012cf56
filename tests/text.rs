use imageboard::boards::{boards, get_board, get_board_paths};
use imageboard::media::now_seconds;
use imageboard::paging::{page_params, total_pages};
use imageboard::pipeline::PostError;
use imageboard::media::RejectReason;
use imageboard::store::Store;
use imageboard::text::{decimal_text, file_extension, is_blank_text, signed_decimal_text, text_eq};
use imageboard::views::{error_page, post_form, preview, PREVIEW_CHARS};

#[test]
fn preview_cuts_on_characters() {
    assert_eq!(preview("short", 10), "short");
    assert_eq!(preview("abcdef", 3), "abc…");
    assert_eq!(preview("ééééé", 2), "éé…");
    assert_eq!(preview("abc", 3), "abc");
    let long = "z".repeat(PREVIEW_CHARS + 1);
    assert_eq!(preview(&long, PREVIEW_CHARS).chars().count(), PREVIEW_CHARS + 1);
}

#[test]
fn page_arithmetic() {
    assert_eq!(page_params(None, None), (1, 10, 0));
    assert_eq!(page_params(Some(3), Some(25)), (3, 25, 50));
    assert_eq!(page_params(Some(0), Some(11)), (1, 10, 0));
    assert_eq!(page_params(Some(usize::MAX), Some(50)), (usize::MAX, 50, usize::MAX));
    assert_eq!(total_pages(0, 10), 1);
    assert_eq!(total_pages(25, 10), 3);
    assert_eq!(total_pages(30, 10), 3);
    assert_eq!(total_pages(31, 10), 4);
    assert_eq!(total_pages(1, 50), 1);
}

#[test]
fn board_registry() {
    assert_eq!(boards().len(), 3);
    assert_eq!(get_board("puzzles").unwrap().name, "Puzzles");
    assert!(get_board("endgames").is_none());
    assert!(get_board("").is_none());
}

#[test]
fn board_paths_strip_traversal() {
    let p = get_board_paths("../etc/x.y");
    assert_eq!(p.dir, "chess/etcxy");
    assert_eq!(p.db, "chess/etcxy/db.sqlite");
    assert_eq!(p.uploads, "chess/etcxy/uploads");
    assert_eq!(get_board_paths("chess").dir, "chess/chess");
}

#[test]
fn text_helpers() {
    assert!(is_blank_text(""));
    assert!(is_blank_text(" \u{a0}\u{2003}"));
    assert!(!is_blank_text(" x "));
    assert!(text_eq("abc", "abc"));
    assert!(!text_eq("abc", "abd"));
    assert!(!text_eq("abc", "ab"));
    assert_eq!(file_extension("a.b.c"), Some("c"));
    assert_eq!(file_extension("none"), None);
    assert_eq!(decimal_text(0), "0");
    assert_eq!(decimal_text(1234567890), "1234567890");
    assert_eq!(decimal_text(u64::MAX), u64::MAX.to_string());
    assert_eq!(signed_decimal_text(i64::MIN), i64::MIN.to_string());
    assert_eq!(signed_decimal_text(-42), "-42");
}

#[test]
fn refusals_are_described_without_internals() {
    let page = error_page(PostError::MessageTooLong, "/chess/");
    assert_eq!(page.message, "Message is too long! (Max 50,000 bytes)");
    assert_eq!(page.back_url, "/chess/");
    assert_eq!(
        PostError::MediaRejected(RejectReason::TooLarge).describe(),
        "Upload error: File too large. Max allowed size: 50MB."
    );
    assert_eq!(PostError::MissingField.describe(), "Subject and message are required.");
    assert_eq!(post_form("chess").board, "chess");
}

#[test]
fn listing_records_summarise_threads() {
    let mut store = Store::new();
    let long = "q".repeat(300);
    let a = store.create_thread("A".to_string(), long, Some("1-x.gif".to_string()), 1).unwrap();
    for i in 0..4 {
        store.add_reply(a, format!("r{}", i), None, 2 + i).unwrap();
    }
    let b = store.create_thread("B".to_string(), "b".to_string(), None, 100).unwrap();
    let page = store.board_template("chess", None, None);
    assert_eq!(page.board, "chess");
    assert_eq!(page.threads.len(), 2);
    assert_eq!(page.threads[0].id, b);
    assert_eq!(page.threads[0].filename, "");
    let info = &page.threads[1];
    assert_eq!(info.reply_count, 4);
    assert_eq!(info.filename, "1-x.gif");
    assert_eq!(info.preview.chars().count(), PREVIEW_CHARS + 1);
    let recent: Vec<&str> = info.recent.iter().map(|p| p.message.as_str()).collect();
    assert_eq!(recent, vec!["r1", "r2", "r3"]);
    let index = store.index_template("Board", Some(1), Some(25));
    assert_eq!((index.title.as_str(), index.per_page, index.total_pages), ("Board", 25, 1));
    let view = store.thread_template("chess", a).unwrap();
    assert_eq!(view.replies, vec!["r0", "r1", "r2", "r3"]);
    assert_eq!(view.subject, "A");
    assert!(store.thread_template("chess", 12345).is_none());
}

#[test]
fn clock_reads_a_recent_time() {
    assert!(now_seconds() > 1_600_000_000);
}

#[test]
fn default_settings() {
    let s = imageboard::settings::Settings::default();
    assert_eq!(s.bind, "0.0.0.0:8080");
    assert_eq!(s.db_path, "db.sqlite");
    assert_eq!(s.uploads_dir, "uploads");
    assert_eq!(s.title, "Chessboard Messageboard");
    assert!(s.reset_on_start);
}

use imageboard::pipeline::{validate_reply, validate_thread, PostError, MAX_MESSAGE_LEN};
use imageboard::store::{Store, StoreError};

fn text(s: &str) -> String {
    s.to_string()
}

fn order(store: &Store) -> Vec<u64> {
    store.list_page(Some(1), Some(10)).threads.iter().map(|t| t.id).collect()
}

#[test]
fn new_thread_heads_first_page() {
    let mut store = Store::new();
    store.create_thread(text("old"), text("first"), None, 50).unwrap();
    let id = store.create_thread(text("Hello"), text("World"), None, 60).unwrap();
    let page = store.list_page(Some(1), None);
    assert_eq!(page.threads[0].id, id);
    assert_eq!(page.threads[0].subject, "Hello");
    assert_eq!(page.threads.len(), 2);
}

#[test]
fn overlong_message_is_refused_and_nothing_written() {
    let mut store = Store::new();
    let tid = store.create_thread(text("s"), text("m"), None, 1).unwrap();
    let long = "x".repeat(MAX_MESSAGE_LEN + 1);
    assert_eq!(
        store.create_thread(text("s"), long.clone(), None, 2),
        Err(PostError::MessageTooLong)
    );
    assert_eq!(store.add_reply(tid, long, None, 3), Err(PostError::MessageTooLong));
    assert_eq!(store.get_total_thread_count(), 1);
    assert_eq!(store.get_post_count(tid), 0);
    assert_eq!(store.threads[0].bumped, 1);
}

#[test]
fn message_at_cap_is_accepted() {
    let mut store = Store::new();
    let exact = "y".repeat(MAX_MESSAGE_LEN);
    assert!(store.create_thread(text("s"), exact, None, 1).is_ok());
}

#[test]
fn cap_counts_bytes_not_characters() {
    // 25,001 two-byte characters are 50,002 bytes.
    let wide = "é".repeat(25_001);
    assert_eq!(validate_reply(&wide), Err(PostError::MessageTooLong));
    let fits = "é".repeat(25_000);
    assert_eq!(validate_reply(&fits), Ok(()));
}

#[test]
fn blank_fields_are_missing() {
    assert_eq!(validate_thread("  \t", "body"), Err(PostError::MissingField));
    assert_eq!(validate_thread("subject", "\n \u{3000}"), Err(PostError::MissingField));
    assert_eq!(validate_thread("", ""), Err(PostError::MissingField));
    assert_eq!(validate_reply(" "), Err(PostError::MissingField));
    assert_eq!(validate_thread(" a ", " b "), Ok(()));
    let mut store = Store::new();
    assert_eq!(store.create_thread(text(" "), text("m"), None, 1), Err(PostError::MissingField));
    assert_eq!(store.get_total_thread_count(), 0);
}

#[test]
fn blank_check_comes_before_length_check() {
    let blank_long = " ".repeat(MAX_MESSAGE_LEN + 10);
    assert_eq!(validate_reply(&blank_long), Err(PostError::MissingField));
}

#[test]
fn reply_to_missing_thread_is_not_found() {
    let mut store = Store::new();
    assert_eq!(store.add_reply(42, text("hi"), None, 1), Err(PostError::NotFound));
    assert_eq!(
        store.insert_post(42, text("hi"), None, 1),
        Err(StoreError::NotFound)
    );
    assert_eq!(store.posts.len(), 0);
}

#[test]
fn exhausted_ids_are_a_storage_error() {
    let mut store = Store::new();
    let tid = store.create_thread(text("s"), text("m"), None, 1).unwrap();
    store.next_post_id = u64::MAX;
    assert_eq!(store.add_reply(tid, text("r"), None, 2), Err(PostError::Storage));
    store.next_thread_id = u64::MAX;
    assert_eq!(store.create_thread(text("s"), text("m"), None, 3), Err(PostError::Storage));
    assert_eq!(store.get_total_thread_count(), 1);
}

#[test]
fn reply_bumps_thread_ahead() {
    let mut store = Store::new();
    let a = store.create_thread(text("A"), text("a"), None, 100).unwrap();
    let b = store.create_thread(text("B"), text("b"), None, 200).unwrap();
    let c = store.create_thread(text("C"), text("c"), None, 250).unwrap();
    assert_eq!(order(&store), vec![c, b, a]);
    store.add_reply(a, text("up"), None, 250).unwrap();
    // Same second as C: the thread just replied to still goes first.
    assert_eq!(order(&store), vec![a, c, b]);
    let t = store.get_thread(a).unwrap().0;
    assert_eq!(t.bumped, 250);
}

#[test]
fn bump_never_goes_back_in_time() {
    let mut store = Store::new();
    let a = store.create_thread(text("A"), text("a"), None, 500).unwrap();
    store.add_reply(a, text("late clock"), None, 400).unwrap();
    assert_eq!(store.get_thread(a).unwrap().0.bumped, 500);
}

#[test]
fn pagination_of_twenty_five_threads() {
    let mut store = Store::new();
    for i in 0..25 {
        store.create_thread(text("s"), format!("m{}", i), None, i).unwrap();
    }
    let third = store.list_page(Some(3), Some(10));
    assert_eq!(third.threads.len(), 5);
    assert_eq!(third.total_pages, 3);
    assert_eq!(third.page, 3);
    let fourth = store.list_page(Some(4), Some(10));
    assert_eq!(fourth.threads.len(), 0);
    assert_eq!(fourth.total_pages, 3);
    // Oldest threads come last.
    assert_eq!(third.threads[4].message, "m0");
}

#[test]
fn page_size_and_page_are_resolved() {
    let mut store = Store::new();
    for i in 0..30 {
        store.create_thread(text("s"), text("m"), None, i).unwrap();
    }
    let p = store.list_page(Some(0), Some(7));
    assert_eq!((p.page, p.per_page, p.threads.len(), p.total_pages), (1, 10, 10, 3));
    let p = store.list_page(None, Some(25));
    assert_eq!((p.page, p.per_page, p.threads.len(), p.total_pages), (1, 25, 25, 2));
    let p = store.list_page(Some(2), Some(50));
    assert_eq!((p.per_page, p.threads.len(), p.total_pages), (50, 0, 1));
    let empty = Store::new().list_page(None, None);
    assert_eq!((empty.threads.len(), empty.total_pages), (0, 1));
}

#[test]
fn created_thread_reads_back() {
    let mut store = Store::new();
    let other = store.create_thread(text("x"), text("y"), None, 1).unwrap();
    store.add_reply(other, text("r"), None, 2).unwrap();
    let id = store
        .create_thread(text("Subj"), text("Body"), Some(text("1-abc.png")), 3)
        .unwrap();
    let (t, posts) = store.get_thread(id).unwrap();
    assert_eq!(t.id, id);
    assert_eq!(t.subject, "Subj");
    assert_eq!(t.message, "Body");
    assert_eq!(t.media, Some(text("1-abc.png")));
    assert!(posts.is_empty());
    assert!(store.get_thread(999).is_none());
}

#[test]
fn bump_order_scenario() {
    let mut store = Store::new();
    let a = store.create_thread(text("A"), text("a"), None, 100).unwrap();
    let b = store.create_thread(text("B"), text("b"), None, 200).unwrap();
    assert_eq!(order(&store), vec![b, a]);
    store.add_reply(a, text("to A"), None, 300).unwrap();
    assert_eq!(order(&store), vec![a, b]);
    store.add_reply(b, text("to B"), None, 400).unwrap();
    assert_eq!(order(&store), vec![b, a]);
}

#[test]
fn replies_are_counted_and_sampled_in_order() {
    let mut store = Store::new();
    let a = store.create_thread(text("A"), text("a"), None, 1).unwrap();
    let b = store.create_thread(text("B"), text("b"), None, 2).unwrap();
    for i in 0..5 {
        store.add_reply(a, format!("a{}", i), None, 10 + i).unwrap();
        store.add_reply(b, format!("b{}", i), None, 20 + i).unwrap();
    }
    assert_eq!(store.get_post_count(a), 5);
    let last: Vec<String> = store.get_last_n_replies(a, 3).into_iter().map(|p| p.message).collect();
    assert_eq!(last, vec!["a2", "a3", "a4"]);
    let all: Vec<String> = store.get_last_n_replies(b, 10).into_iter().map(|p| p.message).collect();
    assert_eq!(all, vec!["b0", "b1", "b2", "b3", "b4"]);
    let (_, posts) = store.get_thread(a).unwrap();
    assert_eq!(posts.len(), 5);
    assert!(posts.windows(2).all(|w| w[0].id < w[1].id));
    assert!(store.get_last_n_replies(a, 0).is_empty());
}

#[test]
fn threads_page_window() {
    let mut store = Store::new();
    for i in 0..5 {
        store.create_thread(text("s"), format!("{}", i), None, i).unwrap();
    }
    let msgs: Vec<String> = store.get_threads_page(2, 1).into_iter().map(|t| t.message).collect();
    assert_eq!(msgs, vec!["3", "2"]);
    assert_eq!(store.get_threads_page(10, 4).len(), 1);
    assert_eq!(store.get_threads_page(10, 5).len(), 0);
    assert_eq!(store.get_threads_page(usize::MAX, 1).len(), 4);
    assert_eq!(store.find_thread(3), Some(2));
    assert_eq!(store.find_thread(77), None);
}

#[test]
fn zero_based_pages_and_full_listing() {
    let mut store = Store::new();
    for i in 0..7 {
        store.create_thread(text("s"), format!("{}", i), None, i).unwrap();
    }
    let all: Vec<String> = store.get_threads().into_iter().map(|t| t.message).collect();
    assert_eq!(all, vec!["6", "5", "4", "3", "2", "1", "0"]);
    let second: Vec<String> = store.get_threads_paged(3, 1).into_iter().map(|t| t.message).collect();
    assert_eq!(second, vec!["3", "2", "1"]);
    assert_eq!(store.get_threads_paged(3, 2).len(), 1);
    assert_eq!(store.get_threads_paged(3, 3).len(), 0);
    assert_eq!(store.get_threads_paged(0, 5).len(), 0);
    assert_eq!(store.get_threads_paged(usize::MAX, usize::MAX).len(), 0);
}

//! Properties of the board that span several operations, proved over the
//! models that the operations' contracts speak of.
use vstd::prelude::*;
use crate::media::{verdict, kind_of_mime, MediaKind, RejectReason, MAX_UPLOAD_BYTES};
use crate::paging::page_offset;
use crate::pipeline::{check_reply, check_thread, utf8_len, PostError, MAX_MESSAGE_LEN};
use crate::store::{
    bump, has_thread, ids_unique, index_of, later, lemma_index_of, lemma_place_sorted,
    lemma_rank_splits, place, rank, replies_of, sorted, window, Post, Thread,
};
use crate::text::is_blank;

verus! {

/// A subject and a message that are not blank, with the message within the
/// cap, pass validation.
pub proof fn law_valid_thread_accepted(subject: Seq<char>, message: Seq<char>)
    requires
        !is_blank(subject),
        !is_blank(message),
        utf8_len(message) <= MAX_MESSAGE_LEN,
    ensures
        check_thread(subject, message) == Ok::<(), PostError>(()),
        check_reply(message) == Ok::<(), PostError>(()),
{
}

/// A message over the cap is refused as too long, for a thread and for a
/// reply alike (a blank text is refused first, as missing).
pub proof fn law_overlong_message_refused(subject: Seq<char>, message: Seq<char>)
    requires
        !is_blank(subject),
        !is_blank(message),
        utf8_len(message) > MAX_MESSAGE_LEN,
    ensures
        check_thread(subject, message) == Err::<(), PostError>(PostError::MessageTooLong),
        check_reply(message) == Err::<(), PostError>(PostError::MessageTooLong),
{
}

/// An upload that claims an accepted kind and fits the cap, but whose content
/// is not recognised as that kind, is refused as an unsupported type.
pub proof fn law_mismatched_content_refused(
    claimed: MediaKind,
    size: nat,
    sniffed: Option<Seq<char>>,
)
    requires
        size <= MAX_UPLOAD_BYTES,
        !(sniffed matches Some(m) && kind_of_mime(m) == Some(claimed)),
    ensures
        verdict(Some(claimed), size, sniffed) == Err::<MediaKind, RejectReason>(
            RejectReason::UnsupportedType,
        ),
{
}

/// A thread created no earlier than any thread's latest activity heads the
/// first page of the listing, whatever the page size.
pub proof fn law_new_thread_heads_first_page(s: Seq<Thread>, t: Thread, per_page: nat)
    requires
        sorted(s),
        per_page >= 1,
        forall|i: int| 0 <= i < s.len() ==> #[trigger] s[i].bumped <= t.bumped,
    ensures
        window(place(s, t), page_offset(1, per_page), per_page).len() >= 1,
        window(place(s, t), page_offset(1, per_page), per_page)[0] == t,
{
    lemma_rank_splits(s, t.bumped);
    if rank(s, t.bumped) > 0 {
        assert(s[0].bumped > t.bumped);
    }
    lemma_place_sorted(s, t);
    assert(0 * per_page == 0) by (nonlinear_arith);
    assert(page_offset(1, per_page) == 0);
}

/// Taking a thread out of a sorted listing keeps it sorted.
pub proof fn lemma_remove_sorted(s: Seq<Thread>, i: int)
    requires
        sorted(s),
        0 <= i < s.len(),
    ensures
        sorted(s.remove(i)),
{
    let r = s.remove(i);
    assert forall|a: int, b: int| 0 <= a < b < r.len() implies r[a].bumped >= r[b].bumped by {
        if a >= i {
            assert(r[a] == s[a + 1]);
        }
        if b >= i {
            assert(r[b] == s[b + 1]);
        }
    }
}

/// Replying at time `now` to the thread at position `i` leaves its `bumped` no
/// earlier than before and no earlier than `now`, keeps the listing sorted, and
/// puts the thread ahead of every thread whose activity is no later than `now`.
pub proof fn law_reply_moves_ahead(s: Seq<Thread>, i: int, now: i64)
    requires
        sorted(s),
        0 <= i < s.len(),
    ensures
        ({
            let r = bump(s, i, now);
            let k = rank(s.remove(i), later(s[i].bumped, now)) as int;
            &&& sorted(r)
            &&& r.len() == s.len()
            &&& 0 <= k < r.len()
            &&& r[k].id == s[i].id
            &&& r[k].subject == s[i].subject
            &&& r[k].message == s[i].message
            &&& r[k].bumped >= s[i].bumped
            &&& r[k].bumped >= now
            &&& forall|j: int| 0 <= j < r.len() && j != k && r[j].bumped <= now ==> k < j
        }),
{
    let rem = s.remove(i);
    let nb = later(s[i].bumped, now);
    lemma_remove_sorted(s, i);
    lemma_rank_splits(rem, nb);
    let t = Thread {
        id: s[i].id,
        subject: s[i].subject,
        message: s[i].message,
        media: s[i].media,
        bumped: nb,
    };
    lemma_place_sorted(rem, t);
    let r = bump(s, i, now);
    let k = rank(rem, nb) as int;
    assert(r == place(rem, t));
    assert forall|j: int| 0 <= j < r.len() && j != k && r[j].bumped <= now implies k < j by {
        if j < k {
            assert(r[j] == rem[j]);
        }
    }
}

/// No reply belongs to a thread id above every reply's thread.
pub proof fn lemma_no_replies(posts: Seq<Post>, id: u64)
    requires
        forall|i: int| 0 <= i < posts.len() ==> #[trigger] posts[i].thread_id < id,
    ensures
        replies_of(posts, id) == Seq::<Post>::empty(),
    decreases posts.len(),
{
    if posts.len() > 0 {
        let p = posts.drop_last();
        assert forall|i: int| 0 <= i < p.len() implies #[trigger] p[i].thread_id < id by {
            assert(p[i] == posts[i]);
        }
        lemma_no_replies(p, id);
    }
}

/// A thread just created, under an id above every thread and reply thread id
/// of the board, reads back as written, with no replies.
pub proof fn law_created_thread_reads_back(threads: Seq<Thread>, posts: Seq<Post>, t: Thread)
    requires
        sorted(threads),
        ids_unique(threads),
        forall|i: int| 0 <= i < threads.len() ==> #[trigger] threads[i].id < t.id,
        forall|i: int| 0 <= i < posts.len() ==> #[trigger] posts[i].thread_id < t.id,
    ensures
        has_thread(place(threads, t), t.id),
        place(threads, t)[index_of(place(threads, t), t.id)] == t,
        replies_of(posts, t.id) == Seq::<Post>::empty(),
{
    let k = rank(threads, t.bumped) as int;
    lemma_place_sorted(threads, t);
    lemma_rank_splits(threads, t.bumped);
    let r = place(threads, t);
    assert(ids_unique(r)) by {
        assert forall|a: int, b: int| 0 <= a < r.len() && 0 <= b < r.len() && a != b implies r[a].id
            != r[b].id by {
            if a > k {
                assert(r[a] == threads[a - 1]);
            }
            if b > k {
                assert(r[b] == threads[b - 1]);
            }
        }
    }
    lemma_index_of(r, k);
    lemma_no_replies(posts, t.id);
}

} // verus!

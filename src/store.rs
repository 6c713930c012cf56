//! In-memory board storage: the `threads` and `posts` tables, with the
//! thread list held in listing order (most recent activity first).
use vstd::prelude::*;

verus! {

/// A top-level post that opens a discussion.
#[derive(Debug)]
pub struct Thread {
    pub id: u64,
    pub subject: String,
    pub message: String,
    /// Stored file name of the attachment, if any.
    pub media: Option<String>,
    /// Time (seconds) of the latest activity; drives the listing order.
    pub bumped: i64,
}

/// A reply attached to a thread.
#[derive(Debug)]
pub struct Post {
    pub id: u64,
    pub thread_id: u64,
    pub message: String,
    pub media: Option<String>,
}

/// Why a storage write was refused.
#[derive(Debug, PartialEq, Eq, Structural, Clone, Copy)]
pub enum StoreError {
    /// No thread carries the given id.
    NotFound,
    /// The identifier space is used up.
    Exhausted,
}

pub fn copy_text(m: &Option<String>) -> (r: Option<String>)
    ensures
        r == *m,
{
    match m {
        Some(s) => Some(s.clone()),
        None => None,
    }
}

impl Thread {
    pub fn duplicate(&self) -> (r: Thread)
        ensures
            r == *self,
    {
        Thread {
            id: self.id,
            subject: self.subject.clone(),
            message: self.message.clone(),
            media: copy_text(&self.media),
            bumped: self.bumped,
        }
    }
}

impl Post {
    pub fn duplicate(&self) -> (r: Post)
        ensures
            r == *self,
    {
        Post {
            id: self.id,
            thread_id: self.thread_id,
            message: self.message.clone(),
            media: copy_text(&self.media),
        }
    }
}

/// Threads ordered by `bumped`, latest first.
pub open spec fn sorted(s: Seq<Thread>) -> bool {
    forall|i: int, j: int| 0 <= i < j < s.len() ==> s[i].bumped >= s[j].bumped
}

/// No two threads share an id.
pub open spec fn ids_unique(s: Seq<Thread>) -> bool {
    forall|i: int, j: int| 0 <= i < s.len() && 0 <= j < s.len() && i != j ==> s[i].id != s[j].id
}

pub open spec fn has_thread(s: Seq<Thread>, id: u64) -> bool {
    exists|i: int| 0 <= i < s.len() && s[i].id == id
}

/// Position of the thread with the given id.
pub open spec fn index_of(s: Seq<Thread>, id: u64) -> int {
    choose|i: int| 0 <= i < s.len() && s[i].id == id
}

/// Number of leading threads whose `bumped` is later than `b`: where a thread
/// active at `b` enters the listing (ahead of every thread no later than it).
pub open spec fn rank(s: Seq<Thread>, b: i64) -> nat
    decreases s.len(),
{
    if s.len() == 0 {
        0
    } else if s[0].bumped > b {
        1 + rank(s.drop_first(), b)
    } else {
        0
    }
}

/// The listing with `t` entered at its rank.
pub open spec fn place(s: Seq<Thread>, t: Thread) -> Seq<Thread> {
    s.insert(rank(s, t.bumped) as int, t)
}

pub open spec fn later(a: i64, b: i64) -> i64 {
    if a >= b {
        a
    } else {
        b
    }
}

pub open spec fn with_bump(t: Thread, b: i64) -> Thread {
    Thread { id: t.id, subject: t.subject, message: t.message, media: t.media, bumped: b }
}

/// The listing after activity at time `now` on the thread at position `i`: its
/// `bumped` never decreases, and it moves ahead of every thread no later than it.
pub open spec fn bump(s: Seq<Thread>, i: int, now: i64) -> Seq<Thread> {
    place(s.remove(i), with_bump(s[i], later(s[i].bumped, now)))
}

/// The replies of one thread, in the order they were written.
pub open spec fn replies_of(s: Seq<Post>, tid: u64) -> Seq<Post>
    decreases s.len(),
{
    if s.len() == 0 {
        Seq::empty()
    } else if s.last().thread_id == tid {
        replies_of(s.drop_last(), tid).push(s.last())
    } else {
        replies_of(s.drop_last(), tid)
    }
}

/// The last `n` of a sequence (all of it when shorter).
pub open spec fn last_n<T>(s: Seq<T>, n: nat) -> Seq<T> {
    if s.len() <= n {
        s
    } else {
        s.subrange(s.len() - n, s.len() as int)
    }
}

/// The slice of the listing that a page shows.
pub open spec fn window(s: Seq<Thread>, offset: nat, count: nat) -> Seq<Thread> {
    if offset >= s.len() {
        Seq::empty()
    } else if offset + count >= s.len() {
        s.subrange(offset as int, s.len() as int)
    } else {
        s.subrange(offset as int, (offset + count) as int)
    }
}

pub proof fn lemma_rank_at(s: Seq<Thread>, b: i64, k: int)
    requires
        0 <= k <= s.len(),
        forall|j: int| 0 <= j < k ==> s[j].bumped > b,
        k == s.len() || s[k].bumped <= b,
    ensures
        rank(s, b) == k,
    decreases k,
{
    if k > 0 {
        lemma_rank_at(s.drop_first(), b, k - 1);
    }
}

/// In a sorted listing, the threads ahead of the rank are later than `b` and the
/// others are no later than `b`.
pub proof fn lemma_rank_splits(s: Seq<Thread>, b: i64)
    requires
        sorted(s),
    ensures
        rank(s, b) <= s.len(),
        forall|j: int| 0 <= j < rank(s, b) ==> s[j].bumped > b,
        forall|j: int| rank(s, b) <= j < s.len() ==> s[j].bumped <= b,
    decreases s.len(),
{
    if s.len() > 0 && s[0].bumped > b {
        let t = s.drop_first();
        assert(sorted(t));
        lemma_rank_splits(t, b);
        assert forall|j: int| 0 <= j < rank(s, b) implies s[j].bumped > b by {
            if j > 0 {
                assert(s[j] == t[j - 1]);
            }
        }
        assert forall|j: int| rank(s, b) <= j < s.len() implies s[j].bumped <= b by {
            assert(s[j] == t[j - 1]);
        }
    }
}

/// Entering a thread at its rank keeps the listing sorted.
pub proof fn lemma_place_sorted(s: Seq<Thread>, t: Thread)
    requires
        sorted(s),
    ensures
        sorted(place(s, t)),
        place(s, t).len() == s.len() + 1,
        place(s, t)[rank(s, t.bumped) as int] == t,
{
    lemma_rank_splits(s, t.bumped);
    let k = rank(s, t.bumped) as int;
    let r = place(s, t);
    assert forall|i: int, j: int| 0 <= i < j < r.len() implies r[i].bumped >= r[j].bumped by {
        if j < k {
        } else if j == k {
        } else if i < k {
        } else if i == k {
        } else {
        }
    }
}

/// Entering a thread whose id is fresh keeps ids unique and under `bound`.
pub proof fn lemma_insert_keeps_ids(s: Seq<Thread>, k: int, t: Thread, bound: u64)
    requires
        ids_unique(s),
        0 <= k <= s.len(),
        t.id < bound,
        forall|i: int| 0 <= i < s.len() ==> #[trigger] s[i].id < bound && s[i].id != t.id,
    ensures
        ids_unique(s.insert(k, t)),
        forall|i: int| 0 <= i < s.len() + 1 ==> #[trigger] s.insert(k, t)[i].id < bound,
{
    let r = s.insert(k, t);
    assert forall|i: int| 0 <= i < r.len() implies #[trigger] r[i].id < bound by {
        if i > k {
            assert(r[i] == s[i - 1]);
        }
    }
    assert forall|i: int, j: int| 0 <= i < r.len() && 0 <= j < r.len() && i != j implies r[i].id
        != r[j].id by {
        if i > k {
            assert(r[i] == s[i - 1]);
        }
        if j > k {
            assert(r[j] == s[j - 1]);
        }
    }
}

/// Taking a thread out keeps the listing sorted, ids unique and under `bound`,
/// and leaves no other thread with its id.
pub proof fn lemma_remove_keeps(s: Seq<Thread>, k: int, bound: u64)
    requires
        sorted(s),
        ids_unique(s),
        0 <= k < s.len(),
        forall|i: int| 0 <= i < s.len() ==> #[trigger] s[i].id < bound,
    ensures
        sorted(s.remove(k)),
        ids_unique(s.remove(k)),
        forall|i: int| 0 <= i < s.len() - 1 ==> #[trigger] s.remove(k)[i].id < bound
            && s.remove(k)[i].id != s[k].id,
{
    let r = s.remove(k);
    assert forall|i: int| 0 <= i < r.len() implies #[trigger] r[i].id < bound && r[i].id
        != s[k].id by {
        if i >= k {
            assert(r[i] == s[i + 1]);
        }
    }
    assert forall|i: int, j: int| 0 <= i < j < r.len() implies r[i].bumped >= r[j].bumped by {
        if i >= k {
            assert(r[i] == s[i + 1]);
        }
        if j >= k {
            assert(r[j] == s[j + 1]);
        }
    }
    assert forall|i: int, j: int| 0 <= i < r.len() && 0 <= j < r.len() && i != j implies r[i].id
        != r[j].id by {
        if i >= k {
            assert(r[i] == s[i + 1]);
        }
        if j >= k {
            assert(r[j] == s[j + 1]);
        }
    }
}

pub proof fn lemma_index_of(s: Seq<Thread>, i: int)
    requires
        ids_unique(s),
        0 <= i < s.len(),
    ensures
        has_thread(s, s[i].id),
        index_of(s, s[i].id) == i,
{
    assert(s[i].id == s[i].id);
}

pub proof fn lemma_replies_push(s: Seq<Post>, p: Post, tid: u64)
    ensures
        replies_of(s.push(p), tid) == (if p.thread_id == tid {
            replies_of(s, tid).push(p)
        } else {
            replies_of(s, tid)
        }),
{
    assert(s.push(p).drop_last() =~= s);
}

/// The board's tables. Threads are kept in listing order; posts in id order.
pub struct Store {
    pub threads: Vec<Thread>,
    pub posts: Vec<Post>,
    pub next_thread_id: u64,
    pub next_post_id: u64,
}

impl Store {
    pub open spec fn wf(&self) -> bool {
        &&& sorted(self.threads@)
        &&& ids_unique(self.threads@)
        &&& forall|i: int| 0 <= i < self.threads@.len() ==> #[trigger] self.threads@[i].id < self.next_thread_id
        &&& forall|i: int| 0 <= i < self.posts@.len() ==> #[trigger] self.posts@[i].id < self.next_post_id
        &&& forall|i: int| 0 <= i < self.posts@.len() ==> #[trigger] self.posts@[i].thread_id < self.next_thread_id
        &&& forall|i: int, j: int| 0 <= i < j < self.posts@.len() ==> self.posts@[i].id < self.posts@[j].id
    }

    /// An empty board; identifiers start at 1.
    pub fn new() -> (r: Store)
        ensures
            r.wf(),
            r.threads@.len() == 0,
            r.posts@.len() == 0,
            r.next_thread_id == 1,
            r.next_post_id == 1,
    {
        Store { threads: Vec::new(), posts: Vec::new(), next_thread_id: 1, next_post_id: 1 }
    }

    /// Position at which a thread active at `b` enters the listing.
    fn rank_of(&self, b: i64) -> (r: usize)
        ensures
            r == rank(self.threads@, b),
            r <= self.threads@.len(),
    {
        let mut i: usize = 0;
        while i < self.threads.len() && self.threads[i].bumped > b
            invariant
                i <= self.threads@.len(),
                forall|j: int| 0 <= j < i ==> self.threads@[j].bumped > b,
            decreases self.threads@.len() - i,
        {
            i = i + 1;
        }
        proof {
            lemma_rank_at(self.threads@, b, i as int);
        }
        i
    }

    /// Position of the thread with the given id, if there is one.
    pub fn find_thread(&self, id: u64) -> (r: Option<usize>)
        requires
            self.wf(),
        ensures
            r is None <==> !has_thread(self.threads@, id),
            r matches Some(i) ==> i < self.threads@.len() && self.threads@[i as int].id == id
                && i == index_of(self.threads@, id),
    {
        let mut i: usize = 0;
        while i < self.threads.len()
            invariant
                self.wf(),
                i <= self.threads@.len(),
                forall|j: int| 0 <= j < i ==> self.threads@[j].id != id,
            decreases self.threads@.len() - i,
        {
            if self.threads[i].id == id {
                proof {
                    lemma_index_of(self.threads@, i as int);
                }
                return Some(i);
            }
            i = i + 1;
        }
        None
    }

    /// Adds a thread active at `now`. Returns its id, or `None` when ids are used up.
    pub fn insert_thread(&mut self, subject: String, message: String, media: Option<String>, now: i64) -> (r: Option<u64>)
        requires
            old(self).wf(),
        ensures
            final(self).wf(),
            final(self).posts@ == old(self).posts@,
            old(self).next_thread_id == u64::MAX ==> r is None && *final(self) == *old(self),
            old(self).next_thread_id < u64::MAX ==> r == Some(old(self).next_thread_id)
                && final(self).threads@ == place(old(self).threads@, Thread {
                    id: old(self).next_thread_id,
                    subject,
                    message,
                    media,
                    bumped: now,
                }),
    {
        if self.next_thread_id == u64::MAX {
            return None;
        }
        let id = self.next_thread_id;
        let t = Thread { id, subject, message, media, bumped: now };
        let k = self.rank_of(now);
        proof {
            lemma_place_sorted(self.threads@, t);
            lemma_insert_keeps_ids(self.threads@, k as int, t, (id + 1) as u64);
        }
        self.threads.insert(k, t);
        self.next_thread_id = id + 1;
        Some(id)
    }
    /// Adds a reply to thread `thread_id` written at `now` and bumps the thread,
    /// in one step: no state holds the reply without the bump. Returns the
    /// reply's id.
    pub fn insert_post(
        &mut self,
        thread_id: u64,
        message: String,
        media: Option<String>,
        now: i64,
    ) -> (r: Result<u64, StoreError>)
        requires
            old(self).wf(),
        ensures
            final(self).wf(),
            r == Err::<u64, StoreError>(StoreError::NotFound) <==> !has_thread(old(self).threads@, thread_id),
            r == Err::<u64, StoreError>(StoreError::Exhausted) <==> has_thread(old(self).threads@, thread_id)
                && old(self).next_post_id == u64::MAX,
            r is Err ==> *final(self) == *old(self),
            r matches Ok(pid) ==> {
                &&& pid == old(self).next_post_id
                &&& final(self).posts@ == old(self).posts@.push(
                    Post { id: pid, thread_id, message, media },
                )
                &&& final(self).threads@ == bump(
                    old(self).threads@,
                    index_of(old(self).threads@, thread_id),
                    now,
                )
            },
    {
        let idx = match self.find_thread(thread_id) {
            None => return Err(StoreError::NotFound),
            Some(i) => i,
        };
        if self.next_post_id == u64::MAX {
            return Err(StoreError::Exhausted);
        }
        let pid = self.next_post_id;
        self.posts.push(Post { id: pid, thread_id, message, media });
        self.next_post_id = pid + 1;
        proof {
            lemma_remove_keeps(self.threads@, idx as int, self.next_thread_id);
        }
        let t = self.threads.remove(idx);
        let nb = if t.bumped >= now {
            t.bumped
        } else {
            now
        };
        let moved = Thread {
            id: t.id,
            subject: t.subject,
            message: t.message,
            media: t.media,
            bumped: nb,
        };
        let k = self.rank_of(nb);
        proof {
            lemma_place_sorted(self.threads@, moved);
            lemma_insert_keeps_ids(self.threads@, k as int, moved, self.next_thread_id);
        }
        self.threads.insert(k, moved);
        Ok(pid)
    }

    /// Number of threads on the board.
    pub fn get_total_thread_count(&self) -> (r: usize)
        ensures
            r == self.threads@.len(),
    {
        self.threads.len()
    }

    /// Replies of a thread, oldest first.
    pub fn replies(&self, thread_id: u64) -> (r: Vec<Post>)
        ensures
            r@ == replies_of(self.posts@, thread_id),
    {
        let mut out: Vec<Post> = Vec::new();
        let mut i: usize = 0;
        while i < self.posts.len()
            invariant
                i <= self.posts@.len(),
                out@ == replies_of(self.posts@.subrange(0, i as int), thread_id),
            decreases self.posts@.len() - i,
        {
            proof {
                assert(self.posts@.subrange(0, i + 1).drop_last() =~= self.posts@.subrange(0, i as int));
            }
            if self.posts[i].thread_id == thread_id {
                out.push(self.posts[i].duplicate());
            }
            i = i + 1;
        }
        assert(self.posts@.subrange(0, self.posts@.len() as int) =~= self.posts@);
        out
    }

    /// Number of replies of a thread.
    pub fn get_post_count(&self, thread_id: u64) -> (r: usize)
        ensures
            r == replies_of(self.posts@, thread_id).len(),
    {
        self.replies(thread_id).len()
    }

    /// The `n` latest replies of a thread, oldest of them first.
    pub fn get_last_n_replies(&self, thread_id: u64, n: usize) -> (r: Vec<Post>)
        ensures
            r@ == last_n(replies_of(self.posts@, thread_id), n as nat),
    {
        let all = self.replies(thread_id);
        if all.len() <= n {
            return all;
        }
        let start = all.len() - n;
        let mut out: Vec<Post> = Vec::new();
        let mut i: usize = start;
        while i < all.len()
            invariant
                start <= i <= all@.len(),
                out@ == all@.subrange(start as int, i as int),
            decreases all@.len() - i,
        {
            out.push(all[i].duplicate());
            i = i + 1;
            assert(out@ =~= all@.subrange(start as int, i as int));
        }
        out
    }

    /// A thread and its replies, oldest first; `None` when no thread has the id.
    pub fn get_thread(&self, id: u64) -> (r: Option<(Thread, Vec<Post>)>)
        requires
            self.wf(),
        ensures
            r is None <==> !has_thread(self.threads@, id),
            r matches Some((t, ps)) ==> t == self.threads@[index_of(self.threads@, id)]
                && ps@ == replies_of(self.posts@, id),
    {
        match self.find_thread(id) {
            None => None,
            Some(i) => Some((self.threads[i].duplicate(), self.replies(id))),
        }
    }

    /// Up to `count` threads of the listing, from position `offset` on.
    pub fn get_threads_page(&self, count: usize, offset: usize) -> (r: Vec<Thread>)
        ensures
            r@ == window(self.threads@, offset as nat, count as nat),
    {
        let len = self.threads.len();
        let mut out: Vec<Thread> = Vec::new();
        if offset >= len {
            return out;
        }
        let end = if count >= len - offset {
            len
        } else {
            offset + count
        };
        let mut i: usize = offset;
        while i < end
            invariant
                offset <= i <= end <= len,
                len == self.threads@.len(),
                out@ == self.threads@.subrange(offset as int, i as int),
            decreases end - i,
        {
            out.push(self.threads[i].duplicate());
            i = i + 1;
            assert(out@ =~= self.threads@.subrange(offset as int, i as int));
        }
        out
    }
    /// The whole listing, latest activity first.
    pub fn get_threads(&self) -> (r: Vec<Thread>)
        ensures
            r@ == self.threads@,
    {
        let r = self.get_threads_page(self.threads.len(), 0);
        assert(self.threads@.subrange(0, self.threads@.len() as int) =~= self.threads@);
        r
    }

    /// Page `page` (counted from 0) of the listing at `threads_per_page` a page.
    pub fn get_threads_paged(&self, threads_per_page: usize, page: usize) -> (r: Vec<Thread>)
        ensures
            r@ == window(
                self.threads@,
                if page * threads_per_page > usize::MAX {
                    usize::MAX as nat
                } else {
                    (page * threads_per_page) as nat
                },
                threads_per_page as nat,
            ),
    {
        let offset: usize = if threads_per_page > 0 && page > usize::MAX / threads_per_page {
            proof {
                assert(page * threads_per_page > usize::MAX) by (nonlinear_arith)
                    requires
                        page > usize::MAX / threads_per_page,
                        threads_per_page > 0,
                ;
            }
            usize::MAX
        } else if threads_per_page == 0 {
            assert(page * threads_per_page == 0) by (nonlinear_arith)
                requires
                    threads_per_page == 0,
            ;
            0
        } else {
            proof {
                assert(page * threads_per_page <= usize::MAX) by (nonlinear_arith)
                    requires
                        page <= usize::MAX / threads_per_page,
                        threads_per_page > 0,
                ;
            }
            page * threads_per_page
        };
        self.get_threads_page(threads_per_page, offset)
    }
}

} // verus!

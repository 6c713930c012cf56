//! The plain records handed to rendering: thread summaries for the listing,
//! the thread page, the post form and the error page.
use vstd::prelude::*;
use vstd::string::*;
use crate::media::RejectReason;
use crate::paging::{page_count, page_of, page_offset, per_page_of};
use crate::pipeline::PostError;
use crate::store::{has_thread, index_of, last_n, replies_of, window, Post, Store, Thread};

verus! {

/// Characters of a message shown in a listing preview.
pub const PREVIEW_CHARS: usize = 250;

/// Replies shown under each thread of a listing.
pub const RECENT_REPLIES: usize = 3;

/// A text cut to `limit` characters, with an ellipsis when something was cut.
pub open spec fn preview_text(s: Seq<char>, limit: nat) -> Seq<char> {
    if s.len() > limit {
        s.subrange(0, limit as int) + "…"@
    } else {
        s
    }
}

/// Cuts a text for a preview, on character boundaries.
pub fn preview(s: &str, limit: usize) -> (r: String)
    ensures
        r@ == preview_text(s@, limit as nat),
{
    if s.unicode_len() > limit {
        let mut out = String::from_str(s.substring_char(0, limit));
        out.append("…");
        out
    } else {
        String::from_str(s)
    }
}

/// The stored name of an attachment, or an empty text when there is none.
pub open spec fn name_or_empty(m: Option<String>) -> Seq<char> {
    match m {
        Some(s) => s@,
        None => Seq::empty(),
    }
}

pub fn media_name(m: &Option<String>) -> (r: String)
    ensures
        r@ == name_or_empty(*m),
{
    match m {
        Some(s) => s.clone(),
        None => String::new(),
    }
}

/// One thread as a listing shows it.
#[derive(Debug)]
pub struct ThreadInfo {
    pub id: u64,
    pub subject: String,
    pub message: String,
    /// The message cut to `PREVIEW_CHARS` characters.
    pub preview: String,
    /// Stored name of the attachment, or empty.
    pub filename: String,
    pub reply_count: usize,
    /// The latest replies, oldest of them first.
    pub recent: Vec<Post>,
}

/// Whether `i` summarises thread `t` of a board whose replies are `posts`.
pub open spec fn summarises(i: ThreadInfo, t: Thread, posts: Seq<Post>) -> bool {
    &&& i.id == t.id
    &&& i.subject@ == t.subject@
    &&& i.message@ == t.message@
    &&& i.preview@ == preview_text(t.message@, PREVIEW_CHARS as nat)
    &&& i.filename@ == name_or_empty(t.media)
    &&& i.reply_count == replies_of(posts, t.id).len()
    &&& i.recent@ == last_n(replies_of(posts, t.id), RECENT_REPLIES as nat)
}

/// Whether `infos` summarise `threads`, one for one and in order.
pub open spec fn summarise_all(infos: Seq<ThreadInfo>, threads: Seq<Thread>, posts: Seq<Post>) -> bool {
    &&& infos.len() == threads.len()
    &&& forall|i: int| 0 <= i < infos.len() ==> summarises(#[trigger] infos[i], threads[i], posts)
}

/// A board's listing page.
#[derive(Debug)]
pub struct BoardTemplate {
    pub board: String,
    pub threads: Vec<ThreadInfo>,
    pub page: usize,
    pub total_pages: usize,
    pub per_page: usize,
}

/// The listing page of a board that has no slug of its own.
#[derive(Debug)]
pub struct IndexTemplate {
    pub title: String,
    pub threads: Vec<ThreadInfo>,
    pub page: usize,
    pub total_pages: usize,
    pub per_page: usize,
}

/// A thread with all its replies.
#[derive(Debug)]
pub struct ThreadTemplate {
    pub board: String,
    pub id: u64,
    pub subject: String,
    pub message: String,
    pub filename: String,
    /// Reply messages, oldest first.
    pub replies: Vec<String>,
}

/// The form for a new thread.
#[derive(Debug)]
pub struct PostFormTemplate {
    pub board: String,
}

/// A refusal shown to the user, with the way back.
#[derive(Debug)]
pub struct ErrorPage {
    pub message: String,
    pub back_url: String,
}

pub fn post_form(board: &str) -> (r: PostFormTemplate)
    ensures
        r.board@ == board@,
{
    PostFormTemplate { board: String::from_str(board) }
}

/// What the user is told of a refused post.
pub open spec fn refusal_text(e: PostError) -> Seq<char> {
    match e {
        PostError::MissingField => "Subject and message are required."@,
        PostError::MessageTooLong => "Message is too long! (Max 50,000 bytes)"@,
        PostError::MediaRejected(RejectReason::UnsupportedType) =>
            "Upload error: Unsupported file type. Allowed: jpg, png, gif, webp, bmp, mp4."@,
        PostError::MediaRejected(RejectReason::TooLarge) =>
            "Upload error: File too large. Max allowed size: 50MB."@,
        PostError::MediaRejected(RejectReason::IoFailure) => "Upload error: Failed to save file."@,
        PostError::NotFound => "Thread not found."@,
        PostError::Storage => "Something went wrong. Please try again later."@,
    }
}

impl PostError {
    /// What the user is told of this refusal; no internal detail.
    pub fn describe(&self) -> (r: &'static str)
        ensures
            r@ == refusal_text(*self),
    {
        match self {
            PostError::MissingField => "Subject and message are required.",
            PostError::MessageTooLong => "Message is too long! (Max 50,000 bytes)",
            PostError::MediaRejected(RejectReason::UnsupportedType) =>
                "Upload error: Unsupported file type. Allowed: jpg, png, gif, webp, bmp, mp4.",
            PostError::MediaRejected(RejectReason::TooLarge) =>
                "Upload error: File too large. Max allowed size: 50MB.",
            PostError::MediaRejected(RejectReason::IoFailure) => "Upload error: Failed to save file.",
            PostError::NotFound => "Thread not found.",
            PostError::Storage => "Something went wrong. Please try again later.",
        }
    }
}

/// The error page for a refused post.
pub fn error_page(e: PostError, back_url: &str) -> (r: ErrorPage)
    ensures
        r.message@ == refusal_text(e),
        r.back_url@ == back_url@,
{
    ErrorPage { message: String::from_str(e.describe()), back_url: String::from_str(back_url) }
}

impl Store {
    /// The summary of thread `t` on this board.
    pub fn thread_info(&self, t: &Thread) -> (r: ThreadInfo)
        ensures
            summarises(r, *t, self.posts@),
    {
        ThreadInfo {
            id: t.id,
            subject: t.subject.clone(),
            message: t.message.clone(),
            preview: preview(t.message.as_str(), PREVIEW_CHARS),
            filename: media_name(&t.media),
            reply_count: self.get_post_count(t.id),
            recent: self.get_last_n_replies(t.id, RECENT_REPLIES),
        }
    }

    /// Summaries of the given threads, in order.
    pub fn summaries(&self, threads: &Vec<Thread>) -> (r: Vec<ThreadInfo>)
        ensures
            summarise_all(r@, threads@, self.posts@),
    {
        let mut out: Vec<ThreadInfo> = Vec::new();
        let mut i: usize = 0;
        while i < threads.len()
            invariant
                i <= threads@.len(),
                summarise_all(out@, threads@.subrange(0, i as int), self.posts@),
            decreases threads@.len() - i,
        {
            let info = self.thread_info(&threads[i]);
            out.push(info);
            i = i + 1;
            assert forall|j: int| 0 <= j < out@.len() implies summarises(
                #[trigger] out@[j],
                threads@.subrange(0, i as int)[j],
                self.posts@,
            ) by {
                if j < i - 1 {
                    assert(threads@.subrange(0, i - 1)[j] == threads@.subrange(0, i as int)[j]);
                }
            }
        }
        assert(threads@.subrange(0, threads@.len() as int) =~= threads@);
        out
    }

    /// The listing page of board `board`.
    pub fn board_template(&self, board: &str, page: Option<usize>, per_page: Option<usize>) -> (r:
        BoardTemplate)
        ensures
            r.board@ == board@,
            r.page == page_of(page),
            r.per_page == per_page_of(per_page),
            r.total_pages == page_count(self.threads@.len(), r.per_page as nat),
            summarise_all(
                r.threads@,
                window(self.threads@, page_offset(r.page as nat, r.per_page as nat), r.per_page as nat),
                self.posts@,
            ),
    {
        let listing = self.list_page(page, per_page);
        BoardTemplate {
            board: String::from_str(board),
            threads: self.summaries(&listing.threads),
            page: listing.page,
            total_pages: listing.total_pages,
            per_page: listing.per_page,
        }
    }

    /// The listing page of a board titled `title`.
    pub fn index_template(&self, title: &str, page: Option<usize>, per_page: Option<usize>) -> (r:
        IndexTemplate)
        ensures
            r.title@ == title@,
            r.page == page_of(page),
            r.per_page == per_page_of(per_page),
            r.total_pages == page_count(self.threads@.len(), r.per_page as nat),
            summarise_all(
                r.threads@,
                window(self.threads@, page_offset(r.page as nat, r.per_page as nat), r.per_page as nat),
                self.posts@,
            ),
    {
        let listing = self.list_page(page, per_page);
        IndexTemplate {
            title: String::from_str(title),
            threads: self.summaries(&listing.threads),
            page: listing.page,
            total_pages: listing.total_pages,
            per_page: listing.per_page,
        }
    }

    /// The page of thread `id` on board `board`; `None` when there is no such thread.
    pub fn thread_template(&self, board: &str, id: u64) -> (r: Option<ThreadTemplate>)
        requires
            self.wf(),
        ensures
            r is None <==> !has_thread(self.threads@, id),
            r matches Some(v) ==> {
                let t = self.threads@[index_of(self.threads@, id)];
                let ps = replies_of(self.posts@, id);
                &&& v.board@ == board@
                &&& v.id == id
                &&& v.subject@ == t.subject@
                &&& v.message@ == t.message@
                &&& v.filename@ == name_or_empty(t.media)
                &&& v.replies@.len() == ps.len()
                &&& forall|i: int| 0 <= i < ps.len() ==> #[trigger] v.replies@[i]@ == ps[i].message@
            },
    {
        match self.get_thread(id) {
            None => None,
            Some((t, posts)) => {
                let mut replies: Vec<String> = Vec::new();
                let mut i: usize = 0;
                while i < posts.len()
                    invariant
                        i <= posts@.len(),
                        replies@.len() == i,
                        forall|j: int| 0 <= j < i ==> #[trigger] replies@[j]@ == posts@[j].message@,
                    decreases posts@.len() - i,
                {
                    replies.push(posts[i].message.clone());
                    i = i + 1;
                }
                Some(
                    ThreadTemplate {
                        board: String::from_str(board),
                        id: t.id,
                        subject: t.subject,
                        message: t.message,
                        filename: media_name(&t.media),
                        replies,
                    },
                )
            },
        }
    }
}

} // verus!

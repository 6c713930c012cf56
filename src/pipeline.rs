//! The posting pipeline and the board listing: field validation, thread
//! creation, replies, and paged listing over the store.
use vstd::prelude::*;
use vstd::utf8::encode_utf8;
use crate::media::RejectReason;
use crate::paging::{page_count, page_of, page_offset, page_params, per_page_of, total_pages};
use crate::store::{has_thread, index_of, place, bump, window, Store, StoreError, Thread, Post};
use crate::text::{is_blank, is_blank_text};

verus! {

/// Largest accepted message, in UTF-8 bytes.
pub const MAX_MESSAGE_LEN: usize = 50000;

/// Why a thread or a reply was not written.
#[derive(Debug, PartialEq, Eq, Structural, Clone, Copy)]
pub enum PostError {
    /// A required text is empty or only whitespace.
    MissingField,
    /// The message is longer than `MAX_MESSAGE_LEN` bytes.
    MessageTooLong,
    /// The attached file was refused.
    MediaRejected(RejectReason),
    /// The thread replied to does not exist.
    NotFound,
    /// The store could not take the write.
    Storage,
}

/// Size of a text in UTF-8 bytes.
pub open spec fn utf8_len(s: Seq<char>) -> nat {
    encode_utf8(s).len()
}

/// The outcome of validating a new thread's texts, in the fixed order:
/// required fields first, then the length cap.
pub open spec fn check_thread(subject: Seq<char>, message: Seq<char>) -> Result<(), PostError> {
    if is_blank(subject) || is_blank(message) {
        Err(PostError::MissingField)
    } else if utf8_len(message) > MAX_MESSAGE_LEN {
        Err(PostError::MessageTooLong)
    } else {
        Ok(())
    }
}

/// The outcome of validating a reply's message.
pub open spec fn check_reply(message: Seq<char>) -> Result<(), PostError> {
    if is_blank(message) {
        Err(PostError::MissingField)
    } else if utf8_len(message) > MAX_MESSAGE_LEN {
        Err(PostError::MessageTooLong)
    } else {
        Ok(())
    }
}

/// Validates the texts of a new thread.
pub fn validate_thread(subject: &str, message: &str) -> (r: Result<(), PostError>)
    ensures
        r == check_thread(subject@, message@),
{
    if is_blank_text(subject) || is_blank_text(message) {
        Err(PostError::MissingField)
    } else if message.as_bytes().len() > MAX_MESSAGE_LEN {
        Err(PostError::MessageTooLong)
    } else {
        Ok(())
    }
}

/// Validates the message of a reply.
pub fn validate_reply(message: &str) -> (r: Result<(), PostError>)
    ensures
        r == check_reply(message@),
{
    if is_blank_text(message) {
        Err(PostError::MissingField)
    } else if message.as_bytes().len() > MAX_MESSAGE_LEN {
        Err(PostError::MessageTooLong)
    } else {
        Ok(())
    }
}

/// One page of the listing.
#[derive(Debug)]
pub struct Listing {
    pub threads: Vec<Thread>,
    /// The 1-based page shown.
    pub page: usize,
    pub per_page: usize,
    pub total_pages: usize,
}

impl Store {
    /// Opens a thread at time `now` after validating its texts. `media` is the
    /// stored name of an attachment that was already accepted.
    pub fn create_thread(
        &mut self,
        subject: String,
        message: String,
        media: Option<String>,
        now: i64,
    ) -> (r: Result<u64, PostError>)
        requires
            old(self).wf(),
        ensures
            final(self).wf(),
            match check_thread(subject@, message@) {
                Err(e) => r == Err::<u64, PostError>(e) && *final(self) == *old(self),
                Ok(_) => if old(self).next_thread_id == u64::MAX {
                    r == Err::<u64, PostError>(PostError::Storage) && *final(self) == *old(self)
                } else {
                    &&& r == Ok::<u64, PostError>(old(self).next_thread_id)
                    &&& final(self).posts@ == old(self).posts@
                    &&& final(self).threads@ == place(
                        old(self).threads@,
                        Thread { id: old(self).next_thread_id, subject, message, media, bumped: now },
                    )
                },
            },
    {
        match validate_thread(subject.as_str(), message.as_str()) {
            Err(e) => return Err(e),
            Ok(()) => {},
        }
        match self.insert_thread(subject, message, media, now) {
            Some(id) => Ok(id),
            None => Err(PostError::Storage),
        }
    }

    /// Adds a reply to thread `thread_id` at time `now` after validating its
    /// message, and bumps the thread.
    pub fn add_reply(&mut self, thread_id: u64, message: String, media: Option<String>, now: i64) -> (r:
        Result<u64, PostError>)
        requires
            old(self).wf(),
        ensures
            final(self).wf(),
            r is Err ==> *final(self) == *old(self),
            match check_reply(message@) {
                Err(e) => r == Err::<u64, PostError>(e),
                Ok(_) => if !has_thread(old(self).threads@, thread_id) {
                    r == Err::<u64, PostError>(PostError::NotFound)
                } else if old(self).next_post_id == u64::MAX {
                    r == Err::<u64, PostError>(PostError::Storage)
                } else {
                    &&& r == Ok::<u64, PostError>(old(self).next_post_id)
                    &&& final(self).posts@ == old(self).posts@.push(
                        Post { id: old(self).next_post_id, thread_id, message, media },
                    )
                    &&& final(self).threads@ == bump(
                        old(self).threads@,
                        index_of(old(self).threads@, thread_id),
                        now,
                    )
                },
            },
    {
        match validate_reply(message.as_str()) {
            Err(e) => return Err(e),
            Ok(()) => {},
        }
        match self.insert_post(thread_id, message, media, now) {
            Ok(id) => Ok(id),
            Err(StoreError::NotFound) => Err(PostError::NotFound),
            Err(StoreError::Exhausted) => Err(PostError::Storage),
        }
    }

    /// The requested page of the listing (1-based; 10, 25 or 50 threads a
    /// page, 10 otherwise). A page past the end is empty, not an error.
    pub fn list_page(&self, page: Option<usize>, per_page: Option<usize>) -> (r: Listing)
        ensures
            r.page == page_of(page),
            r.per_page == per_page_of(per_page),
            r.total_pages == page_count(self.threads@.len(), r.per_page as nat),
            r.threads@ == window(
                self.threads@,
                page_offset(r.page as nat, r.per_page as nat),
                r.per_page as nat,
            ),
    {
        let (p, per, offset) = page_params(page, per_page);
        let threads = self.get_threads_page(per, offset);
        Listing {
            threads,
            page: p,
            per_page: per,
            total_pages: total_pages(self.get_total_thread_count(), per),
        }
    }
}

} // verus!

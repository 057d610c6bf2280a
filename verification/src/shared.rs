//! A line buffer shared between the one runner that fills it and the
//! renderer that samples it. All access goes through a lock, so an append and
//! a snapshot never overlap.

use crate::buffer::{lemma_tail_len, LineBuffer};
use std::sync::Arc;
use vstd::prelude::*;
use vstd::rwlock::{RwLock, RwLockPredicate};

verus! {

/// What the lock guarantees of the buffer inside it, whoever looks and
/// whenever: it keeps the limit it was made with and never holds more lines.
pub struct WithinLimit {
    pub limit: usize,
}

impl RwLockPredicate<LineBuffer> for WithinLimit {
    open spec fn inv(self, buffer: LineBuffer) -> bool {
        &&& buffer.spec_limit() == self.limit
        &&& buffer@.len() <= self.limit
    }
}

/// `Arc::clone` of std: the new pointer leads to the same value as the one
/// it was cloned from.
#[verifier::external_body]
fn another<T>(pointer: &Arc<T>) -> (other: Arc<T>)
    ensures
        other == *pointer,
{
    Arc::clone(pointer)
}

/// A handle to one session's buffer. Handles made by `share` lead to the same
/// buffer; only `append` and `snapshot` reach it.
pub struct SharedLineBuffer {
    lock: Arc<RwLock<LineBuffer, WithinLimit>>,
}

impl SharedLineBuffer {
    /// The maximum number of lines the buffer behind this handle keeps.
    pub closed spec fn spec_limit(&self) -> nat {
        self.lock.pred().limit as nat
    }

    /// Whether `buffer` is a state that the buffer behind this handle can be
    /// in: it keeps the limit of this handle and holds no more lines.
    pub open spec fn admits(&self, buffer: LineBuffer) -> bool {
        &&& buffer.spec_limit() == self.spec_limit()
        &&& buffer@.len() <= self.spec_limit()
    }

    /// A handle to a new, empty buffer that keeps at most `limit` lines.
    pub fn new(limit: usize) -> (shared: SharedLineBuffer)
        ensures
            shared.spec_limit() == limit,
    {
        let buffer = LineBuffer::new(limit);
        let lock = RwLock::new(buffer, Ghost(WithinLimit { limit }));
        SharedLineBuffer { lock: Arc::new(lock) }
    }

    /// Another handle to the same buffer.
    pub fn share(&self) -> (other: SharedLineBuffer)
        ensures
            other == *self,
    {
        SharedLineBuffer { lock: another(&self.lock) }
    }

    /// Appends `line` while holding the lock for writing. What the buffer
    /// holds afterwards is `LineBuffer::append` applied to whatever it held
    /// when the lock was taken; other handles may have appended in between.
    pub fn append(&self, line: String) {
        let (mut buffer, handle) = self.lock.acquire_write();
        proof {
            lemma_tail_len(buffer@.push(line@), buffer.spec_limit());
        }
        buffer.append(line);
        handle.release_write(buffer);
    }

    /// The lines held at the moment the lock was taken for reading, oldest
    /// first: exactly what the buffer under the lock held then, and that
    /// buffer was in a state the lock admits. Which state it was depends on
    /// what the other handles have appended so far.
    pub fn snapshot(&self) -> (lines: Vec<String>)
        ensures
            exists|held: LineBuffer| #[trigger] self.admits(held) && lines.deep_view() == held@,
            lines.len() <= self.spec_limit(),
    {
        let handle = self.lock.acquire_read();
        let ghost held = handle.view();
        let lines = handle.borrow().snapshot();
        proof {
            assert(self.admits(held) && lines.deep_view() == held@);
        }
        handle.release_read();
        lines
    }
}

} // verus!

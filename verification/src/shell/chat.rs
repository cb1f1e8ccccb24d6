//! The chat state the shell reads: the thread list and the active thread.

use vstd::prelude::*;

verus! {

/// Per-thread chat settings (none that the shell reads).
#[derive(Clone, Debug, Default)]
pub struct ThreadSettings {}

/// A chat thread as listed in the shell.
#[derive(Clone, Debug)]
pub struct ThreadInfo {
    pub id: i64,
    pub title: Option<String>,
    pub created_at: String,
    pub model_id: String,
}

/// The chat state shared with the shell chrome.
#[derive(Clone, Debug)]
pub struct ChatShellContext {
    pub active_thread_id: Option<i64>,
    pub active_thread_title: String,
    pub threads: Vec<ThreadInfo>,
    pub thread_settings: ThreadSettings,
    pub is_streaming: bool,
    pub credentials_missing: bool,
}

/// The first thread at or after index `i` with id `id`.
pub open spec fn thread_index_from(threads: Seq<ThreadInfo>, id: i64, i: int) -> Option<int>
    decreases threads.len() - i,
{
    if 0 <= i < threads.len() {
        if threads[i].id == id {
            Some(i)
        } else {
            thread_index_from(threads, id, i + 1)
        }
    } else {
        None
    }
}

/// The first thread with id `id` (`threads.iter().find(|t| t.id == id)`).
pub open spec fn thread_by_id(threads: Seq<ThreadInfo>, id: i64) -> Option<ThreadInfo> {
    match thread_index_from(threads, id, 0) {
        Some(k) => Some(threads[k]),
        None => None,
    }
}

/// The title of the active thread as listed, if the active thread is listed
/// and titled.
pub open spec fn listed_active_title(ctx: ChatShellContext) -> Option<String> {
    match ctx.active_thread_id {
        Some(id) => match thread_by_id(ctx.threads@, id) {
            Some(t) => t.title,
            None => None,
        },
        None => None,
    }
}

/// The index of the first thread with id `id`.
pub fn find_thread(threads: &Vec<ThreadInfo>, id: i64) -> (r: Option<usize>)
    ensures
        match r {
            Some(k) => k < threads.len() && thread_index_from(threads@, id, 0) == Some(k as int),
            None => thread_index_from(threads@, id, 0) is None,
        },
{
    let mut i: usize = 0;
    while i < threads.len()
        invariant
            i <= threads.len(),
            thread_index_from(threads@, id, 0) == thread_index_from(threads@, id, i as int),
        decreases threads.len() - i,
    {
        if threads[i].id == id {
            return Some(i);
        }
        i = i + 1;
    }
    None
}

} // verus!

//! Top-bar conversation context label derived from shell-readable chat state.

use vstd::prelude::*;

use super::chat::{find_thread, listed_active_title, ChatShellContext};
use crate::text::{is_blank, trim, trim_str};

verus! {

pub const UNTITLED_LABEL: &'static str = "New conversation";

/// The label: the active thread's listed title, trimmed, or "New
/// conversation" when there is no active thread, it is not listed, or its
/// title is missing or blank.
pub open spec fn active_label(ctx: ChatShellContext) -> Seq<char> {
    match listed_active_title(ctx) {
        Some(t) => if is_blank(t@) {
            UNTITLED_LABEL@
        } else {
            trim(t@)
        },
        None => UNTITLED_LABEL@,
    }
}

/// Resolves the top-bar context label for the active thread.
pub fn active_context_label(context: &ChatShellContext) -> (r: String)
    ensures
        r@ == active_label(*context),
{
    let thread_id = match context.active_thread_id {
        Some(id) => id,
        None => {
            return UNTITLED_LABEL.to_owned();
        },
    };
    match find_thread(&context.threads, thread_id) {
        Some(k) => match &context.threads[k].title {
            Some(title) => {
                let trimmed = trim_str(title.as_str());
                if trimmed.unicode_len() == 0 {
                    UNTITLED_LABEL.to_owned()
                } else {
                    trimmed.to_owned()
                }
            },
            None => UNTITLED_LABEL.to_owned(),
        },
        None => UNTITLED_LABEL.to_owned(),
    }
}

} // verus!

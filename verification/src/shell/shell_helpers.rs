//! Pure shell helpers (**Strategy** inputs for workspace chrome).

use vstd::prelude::*;

use super::chat::{find_thread, listed_active_title, ChatShellContext};
use crate::text::{is_blank, str_eq, str_is_blank};

verus! {

/// Fallback label when a conversation has no title.
pub const UNTITLED_CONVERSATION_LABEL: &'static str = "New conversation";

/// The title as given when it is not blank, else the untitled label.
pub open spec fn title_or_untitled(title: Option<Seq<char>>) -> Seq<char> {
    match title {
        Some(t) => if is_blank(t) {
            UNTITLED_CONVERSATION_LABEL@
        } else {
            t
        },
        None => UNTITLED_CONVERSATION_LABEL@,
    }
}

/// The label from shell context: the listed title of the active thread; else
/// the context's own active title, where "New Chat" counts as untitled.
pub open spec fn shell_context_label(ctx: ChatShellContext) -> Seq<char> {
    match listed_active_title(ctx) {
        Some(t) => title_or_untitled(Some(t@)),
        None => if ctx.active_thread_title@ == "New Chat"@ {
            title_or_untitled(None)
        } else {
            title_or_untitled(Some(ctx.active_thread_title@))
        },
    }
}

/// Resolves the top-bar context label from an optional thread title.
pub fn thread_context_label(title: Option<&str>) -> (r: &str)
    ensures
        r@ == title_or_untitled(
            match title {
                Some(t) => Some(t@),
                None => None,
            },
        ),
{
    match title {
        Some(t) => if str_is_blank(t) {
            UNTITLED_CONVERSATION_LABEL
        } else {
            t
        },
        None => UNTITLED_CONVERSATION_LABEL,
    }
}

/// Reads the active thread title from shell context for top-bar display.
pub fn context_label_from_shell_context(ctx: &ChatShellContext) -> (r: &str)
    ensures
        r@ == shell_context_label(*ctx),
{
    let from_thread_list: Option<&str> = match ctx.active_thread_id {
        Some(id) => match find_thread(&ctx.threads, id) {
            Some(k) => match &ctx.threads[k].title {
                Some(t) => Some(t.as_str()),
                None => None,
            },
            None => None,
        },
        None => None,
    };
    if let Some(title) = from_thread_list {
        return thread_context_label(Some(title));
    }
    let fallback = ctx.active_thread_title.as_str();
    if str_eq(fallback, "New Chat") {
        thread_context_label(None)
    } else {
        thread_context_label(Some(fallback))
    }
}

} // verus!

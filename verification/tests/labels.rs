use opencore_rustroops::shell::chat::{ChatShellContext, ThreadInfo};
use opencore_rustroops::shell::context_label::active_context_label;
use opencore_rustroops::shell::shell_helpers::{
    context_label_from_shell_context, thread_context_label,
};

fn context_with_threads(threads: Vec<ThreadInfo>, active_id: Option<i64>) -> ChatShellContext {
    ChatShellContext {
        active_thread_id: active_id,
        active_thread_title: String::new(),
        threads,
        thread_settings: Default::default(),
        is_streaming: false,
        credentials_missing: false,
    }
}

#[test]
fn untitled_thread_shows_new_conversation() {
    let context = context_with_threads(
        vec![ThreadInfo {
            id: 1,
            title: None,
            created_at: String::new(),
            model_id: String::new(),
        }],
        Some(1),
    );
    assert_eq!(active_context_label(&context), "New conversation");
}

#[test]
fn titled_thread_shows_title() {
    let context = context_with_threads(
        vec![ThreadInfo {
            id: 2,
            title: Some("Rust workspace".into()),
            created_at: String::new(),
            model_id: String::new(),
        }],
        Some(2),
    );
    assert_eq!(active_context_label(&context), "Rust workspace");
}

#[test]
fn label_uses_active_thread_not_first_in_list() {
    let context = context_with_threads(
        vec![
            ThreadInfo {
                id: 1,
                title: Some("First".into()),
                created_at: String::new(),
                model_id: String::new(),
            },
            ThreadInfo {
                id: 2,
                title: Some("Active".into()),
                created_at: String::new(),
                model_id: String::new(),
            },
        ],
        Some(2),
    );
    assert_eq!(active_context_label(&context), "Active");
}

#[test]
fn missing_active_thread_shows_new_conversation() {
    let context = context_with_threads(vec![], None);
    assert_eq!(active_context_label(&context), "New conversation");
}

#[test]
fn active_context_label_trims_and_rejects_blank_titles() {
    let padded = context_with_threads(
        vec![ThreadInfo {
            id: 3,
            title: Some("  Padded  ".into()),
            created_at: String::new(),
            model_id: String::new(),
        }],
        Some(3),
    );
    assert_eq!(active_context_label(&padded), "Padded");
    let blank = context_with_threads(
        vec![ThreadInfo {
            id: 3,
            title: Some(" \t ".into()),
            created_at: String::new(),
            model_id: String::new(),
        }],
        Some(3),
    );
    assert_eq!(active_context_label(&blank), "New conversation");
    let unlisted = context_with_threads(vec![], Some(9));
    assert_eq!(active_context_label(&unlisted), "New conversation");
}

#[test]
fn thread_context_label_uses_new_conversation_when_title_missing() {
    assert_eq!(thread_context_label(None), "New conversation");
}

#[test]
fn thread_context_label_uses_new_conversation_when_title_blank() {
    assert_eq!(thread_context_label(Some("")), "New conversation");
    assert_eq!(thread_context_label(Some("   ")), "New conversation");
}

#[test]
fn thread_context_label_preserves_non_empty_title() {
    assert_eq!(thread_context_label(Some("Design review")), "Design review");
}

#[test]
fn thread_context_label_keeps_untrimmed_title() {
    assert_eq!(thread_context_label(Some(" Design ")), " Design ");
}

#[test]
fn context_label_from_shell_context_uses_active_thread_title_fallback() {
    let ctx = ChatShellContext {
        active_thread_id: Some(1),
        active_thread_title: "Renamed thread".into(),
        threads: vec![],
        thread_settings: Default::default(),
        is_streaming: false,
        credentials_missing: false,
    };
    assert_eq!(context_label_from_shell_context(&ctx), "Renamed thread");
}

#[test]
fn context_label_from_shell_context_uses_active_thread_title() {
    let ctx = ChatShellContext {
        active_thread_id: Some(2),
        active_thread_title: "ignored".into(),
        threads: vec![
            ThreadInfo {
                id: 1,
                title: Some("First".into()),
                created_at: "2026-01-01".into(),
                model_id: "model".into(),
            },
            ThreadInfo {
                id: 2,
                title: Some("Active".into()),
                created_at: "2026-01-02".into(),
                model_id: "model".into(),
            },
        ],
        thread_settings: Default::default(),
        is_streaming: false,
        credentials_missing: false,
    };
    assert_eq!(context_label_from_shell_context(&ctx), "Active");
}

#[test]
fn context_label_from_shell_context_falls_back_when_untitled() {
    let ctx = ChatShellContext {
        active_thread_id: Some(1),
        active_thread_title: "New Chat".into(),
        threads: vec![ThreadInfo {
            id: 1,
            title: None,
            created_at: "2026-01-01".into(),
            model_id: "model".into(),
        }],
        thread_settings: Default::default(),
        is_streaming: false,
        credentials_missing: false,
    };
    assert_eq!(context_label_from_shell_context(&ctx), "New conversation");
}

#[test]
fn context_label_from_shell_context_blank_listed_title_is_untitled() {
    let ctx = ChatShellContext {
        active_thread_id: Some(1),
        active_thread_title: "Fallback".into(),
        threads: vec![ThreadInfo {
            id: 1,
            title: Some("  ".into()),
            created_at: String::new(),
            model_id: String::new(),
        }],
        thread_settings: Default::default(),
        is_streaming: false,
        credentials_missing: false,
    };
    assert_eq!(context_label_from_shell_context(&ctx), "New conversation");
}

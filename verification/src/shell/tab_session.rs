//! The tab strip with its rename session: which tab is being renamed, and
//! whether leaving the rename field commits it.

use vstd::prelude::*;

use super::tabs::{tab_ids, TabModel};
use crate::id_list::{first_index, lemma_first_index};
use crate::text::str_eq;

verus! {

broadcast use vstd::seq_lib::group_seq_properties;

/// What the rename field reports.
#[derive(Debug, Clone, Copy, PartialEq, Eq, Structural)]
pub enum RenameInputEvent {
    Change,
    PressEnter,
    Blur,
}

/// The tab strip and its rename session.
#[derive(Debug, Clone, PartialEq)]
pub struct TabStrip {
    pub tab_model: TabModel,
    pub renaming_tab_id: Option<String>,
    pub rename_commit_on_blur: bool,
}

impl TabStrip {
    /// A rename session names a tab of the strip.
    pub open spec fn session_is_valid(self) -> bool {
        self.renaming_tab_id matches Some(id) ==> tab_ids(self.tab_model.tabs@).contains(id@)
    }

    /// The strip with no rename session and blur commits disarmed.
    pub open spec fn without_session(self) -> Self {
        TabStrip { renaming_tab_id: None, rename_commit_on_blur: false, ..self }
    }

    /// A strip with no rename session.
    pub fn new(tab_model: TabModel) -> (r: Self)
        ensures
            r == (TabStrip { tab_model, renaming_tab_id: None, rename_commit_on_blur: false }),
    {
        TabStrip { tab_model, renaming_tab_id: None, rename_commit_on_blur: false }
    }

    /// Ends the rename session and disarms blur commits.
    pub fn clear_rename_session(&mut self)
        ensures
            *final(self) == old(self).without_session(),
    {
        self.renaming_tab_id = None;
        self.rename_commit_on_blur = false;
    }

    /// Activates tab `id` if the strip has it.
    pub fn select_tab(&mut self, id: &str)
        ensures
            old(self).tab_model.selected(final(self).tab_model, id@),
            final(self).renaming_tab_id == old(self).renaming_tab_id,
            final(self).rename_commit_on_blur == old(self).rename_commit_on_blur,
    {
        self.tab_model.select(id);
    }

    /// Closes tab `id`, ending the rename session first when that tab is
    /// being renamed.
    pub fn close_tab(&mut self, id: &str)
        ensures
            (if old(self).renaming_tab_id matches Some(r) && r@ == id@ {
                old(self).without_session()
            } else {
                *old(self)
            }).tab_model.closed(final(self).tab_model, id@),
            (final(self).renaming_tab_id, final(self).rename_commit_on_blur) == if old(
                self,
            ).renaming_tab_id matches Some(r) && r@ == id@ {
                (None, false)
            } else {
                (old(self).renaming_tab_id, old(self).rename_commit_on_blur)
            },
    {
        let renaming = match &self.renaming_tab_id {
            Some(r) => str_eq(r.as_str(), id),
            None => false,
        };
        if renaming {
            self.clear_rename_session();
        }
        self.tab_model.close(id);
    }

    /// Adds a stub tab (see [`TabModel::add_stub`]).
    pub fn add_stub_tab(&mut self) -> (r: String)
        requires
            old(self).tab_model.tabs.len() < usize::MAX / 2,
        ensures
            old(self).tab_model.stub_added(final(self).tab_model, r@),
            final(self).renaming_tab_id == old(self).renaming_tab_id,
            final(self).rename_commit_on_blur == old(self).rename_commit_on_blur,
    {
        self.tab_model.add_stub()
    }

    /// Moves a tab (see [`TabModel::reorder`]).
    pub fn reorder_tab(&mut self, from: usize, to: usize)
        ensures
            old(self).tab_model.reordered(final(self).tab_model, from as int, to as int),
            final(self).renaming_tab_id == old(self).renaming_tab_id,
            final(self).rename_commit_on_blur == old(self).rename_commit_on_blur,
    {
        self.tab_model.reorder(from, to);
    }

    /// Starts renaming tab `id`: selects it, opens a disarmed session, and
    /// returns its current title to seed the rename field. An unknown id
    /// changes nothing and returns `None`.
    pub fn begin_rename(&mut self, id: &str) -> (r: Option<String>)
        ensures
            match first_index(tab_ids(old(self).tab_model.tabs@), id@) {
                None => r is None && *final(self) == *old(self),
                Some(i) => {
                    &&& r matches Some(t) && t@ == old(self).tab_model.tabs@[i].title@
                    &&& old(self).tab_model.selected(final(self).tab_model, id@)
                    &&& final(self).renaming_tab_id matches Some(s) && s@ == id@
                    &&& !final(self).rename_commit_on_blur
                },
            },
    {
        let mut i: usize = 0;
        let ghost ids = tab_ids(self.tab_model.tabs@);
        while i < self.tab_model.tabs.len()
            invariant
                *self == *old(self),
                ids == tab_ids(self.tab_model.tabs@),
                i <= self.tab_model.tabs.len(),
                first_index(ids, id@) == crate::id_list::first_index_from(ids, id@, i as int),
            decreases self.tab_model.tabs.len() - i,
        {
            if str_eq(self.tab_model.tabs[i].id.as_str(), id) {
                proof {
                    assert(ids[i as int] == id@);
                }
                let title = self.tab_model.tabs[i].title.clone();
                self.tab_model.select(id);
                self.renaming_tab_id = Some(id.to_owned());
                self.rename_commit_on_blur = false;
                return Some(title);
            }
            i = i + 1;
        }
        None
    }

    /// Arms blur commits once the rename field has focus.
    pub fn arm_blur_commit(&mut self)
        ensures
            *final(self) == (TabStrip { rename_commit_on_blur: true, ..*old(self) }),
    {
        self.rename_commit_on_blur = true;
    }

    /// Commits the rename field's `value` to the renamed tab and ends the
    /// session; with no session or no field, only the session ends.
    pub fn commit_rename(&mut self, value: Option<&str>)
        ensures
            match (old(self).renaming_tab_id, value) {
                (Some(id), Some(v)) => old(self).tab_model.renamed(final(self).tab_model, id@, v@),
                _ => final(self).tab_model == old(self).tab_model,
            },
            final(self).renaming_tab_id is None,
            !final(self).rename_commit_on_blur,
    {
        match (&self.renaming_tab_id, value) {
            (Some(id), Some(v)) => {
                let id = id.clone();
                self.tab_model.rename(id.as_str(), v);
            },
            _ => {},
        }
        self.clear_rename_session();
    }

    /// Drops the rename session without renaming.
    pub fn cancel_rename(&mut self)
        ensures
            *final(self) == old(self).without_session(),
    {
        self.clear_rename_session();
    }

    /// Reacts to the rename field: Enter commits, a blur commits only once
    /// armed, edits change nothing here.
    pub fn handle_rename_event(&mut self, event: RenameInputEvent, value: &str)
        ensures
            match event {
                RenameInputEvent::Change => *final(self) == *old(self),
                RenameInputEvent::Blur if !old(self).rename_commit_on_blur => *final(self) == *old(
                    self,
                ),
                _ => {
                    &&& match old(self).renaming_tab_id {
                        Some(id) => old(self).tab_model.renamed(final(self).tab_model, id@, value@),
                        None => final(self).tab_model == old(self).tab_model,
                    }
                    &&& final(self).renaming_tab_id is None
                    &&& !final(self).rename_commit_on_blur
                },
            },
    {
        match event {
            RenameInputEvent::Change => {},
            RenameInputEvent::PressEnter => self.commit_rename(Some(value)),
            RenameInputEvent::Blur => {
                if self.rename_commit_on_blur {
                    self.commit_rename(Some(value));
                }
            },
        }
    }
}

/// Closing a tab never leaves a rename session on a tab that is gone: a
/// valid session stays valid.
pub proof fn law_close_keeps_session_valid(s: TabStrip, t: TabStrip, id: Seq<char>)
    requires
        s.session_is_valid(),
        (if s.renaming_tab_id matches Some(r) && r@ == id {
            s.without_session()
        } else {
            s
        }).tab_model.closed(t.tab_model, id),
        t.renaming_tab_id == if s.renaming_tab_id matches Some(r) && r@ == id {
            None
        } else {
            s.renaming_tab_id
        },
    ensures
        t.session_is_valid(),
{
    if let Some(r) = t.renaming_tab_id {
        let before = tab_ids(s.tab_model.tabs@);
        lemma_first_index(before, id);
        match first_index(before, id) {
            None => {},
            Some(i) => {
                let after = tab_ids(t.tab_model.tabs@);
                assert(after =~= before.remove(i));
                let j = choose|j: int| 0 <= j < before.len() && before[j] == r@;
                assert(r@ != id);
                assert(j != i);
                if j < i {
                    assert(after[j] == r@);
                } else {
                    assert(after[j - 1] == r@);
                }
            },
        }
    }
}

/// Beginning a rename opens a session on an existing tab.
pub proof fn law_begin_rename_opens_valid_session(s: TabStrip, t: TabStrip, id: Seq<char>)
    requires
        first_index(tab_ids(s.tab_model.tabs@), id) is Some,
        s.tab_model.selected(t.tab_model, id),
        t.renaming_tab_id matches Some(r) && r@ == id,
    ensures
        t.session_is_valid(),
        t.tab_model.active_id@ == id,
{
    lemma_first_index(tab_ids(s.tab_model.tabs@), id);
}

} // verus!

use vstd::prelude::*;

use crate::id_list::views;
use crate::text::{decimal, decimal_string};

verus! {

/// Index of the tab to select after closing tab `closed`, when `len_after`
/// tabs remain: `None` once the strip is empty, otherwise the previously
/// active tab (shifted left when it sat after the closed one), capped at the
/// last remaining index.
pub open spec fn spec_next_active_after_close(active: int, closed: int, len_after: int) -> Option<int> {
    if len_after == 0 {
        None
    } else {
        let shifted = if active <= closed { if active < closed { active } else { closed } } else { active - 1 };
        Some(if shifted < len_after - 1 { shifted } else { len_after - 1 })
    }
}

/// Returns the tab index to select after closing `closed` when `len_after`
/// tabs remain; it always names a remaining tab.
pub fn next_active_after_close(active: usize, closed: usize, len_after: usize) -> (r: Option<usize>)
    ensures
        r matches Some(i) ==> spec_next_active_after_close(active as int, closed as int, len_after as int) == Some(i as int),
        r is None <==> len_after == 0,
        r matches Some(i) ==> i < len_after,
{
    if len_after == 0 {
        return None;
    }
    if active < closed {
        Some(if active < len_after - 1 { active } else { len_after - 1 })
    } else if active == closed {
        Some(if closed < len_after - 1 { closed } else { len_after - 1 })
    } else {
        let prev = active - 1;
        Some(if prev < len_after - 1 { prev } else { len_after - 1 })
    }
}


/// An active index over `count` tabs names a tab, or is zero when there
/// are none.
pub open spec fn index_valid(active: int, count: int) -> bool {
    if count == 0 {
        active == 0
    } else {
        0 <= active < count
    }
}

/// The title of the host's first tab.
pub open spec fn main_tab_title() -> Seq<char> {
    "MAIN"@
}

/// The title of the `n`th tab, once the host holds more than one: `MAIN n`.
pub open spec fn numbered_tab_title(n: nat) -> Seq<char> {
    "MAIN "@ + decimal(n)
}

/// The title a tab added as the `n`th one gets.
pub fn numbered_tab_title_string(n: usize) -> (r: String)
    ensures
        r@ == numbered_tab_title(n as nat),
{
    let mut s = String::from_str("MAIN ");
    let digits = decimal_string(n);
    s.append(digits.as_str());
    s
}

/// Copies of a list of titles.
fn copy_titles(v: &Vec<String>) -> (r: Vec<String>)
    ensures
        views(r@) == views(v@),
{
    let mut out: Vec<String> = Vec::new();
    let mut i: usize = 0;
    while i < v.len()
        invariant
            i <= v.len(),
            views(out@) == views(v@.take(i as int)),
        decreases v.len() - i,
    {
        let ghost before = out@;
        let c = v[i].clone();
        out.push(c);
        proof {
            assert(out@ == before.push(c));
            assert(v@.take(i + 1) =~= v@.take(i as int).push(v@[i as int]));
            assert(views(out@) =~= views(before).push(c@));
            assert(views(out@) =~= views(v@.take(i + 1)));
        }
        i = i + 1;
    }
    proof {
        assert(v@.take(i as int) =~= v@);
    }
    out
}

/// The tabs of the center stub host, by title, and which one is active. The
/// tab panels themselves live with the UI.
#[derive(Debug, Clone, PartialEq, Eq)]
pub struct CenterStubHost {
    pub active_ix: usize,
    pub titles: Vec<String>,
}

impl CenterStubHost {
    /// The active index names a tab, or is zero when there are none.
    pub open spec fn active_is_valid(self) -> bool {
        index_valid(self.active_ix as int, self.titles.len() as int)
    }

    /// A host with its one initial tab, titled `MAIN`, active.
    pub fn with_initial_tab() -> (r: Self)
        ensures
            r.active_ix == 0,
            views(r.titles@) == seq![main_tab_title()],
    {
        let mut titles: Vec<String> = Vec::new();
        titles.push(String::from_str("MAIN"));
        proof {
            assert(views(titles@) =~= seq![main_tab_title()]);
        }
        CenterStubHost { active_ix: 0, titles }
    }

    /// A host restored from a saved active index over the restored tabs'
    /// titles: with none restored it starts over with one `MAIN` tab; the
    /// saved index is capped at the last tab.
    pub fn from_panel_state(active: usize, restored_titles: Vec<String>) -> (r: Self)
        ensures
            views(r.titles@) == if restored_titles@.len() == 0 {
                seq![main_tab_title()]
            } else {
                views(restored_titles@)
            },
            r.active_ix == if active < r.titles.len() {
                active
            } else {
                (r.titles.len() - 1) as usize
            },
            r.active_is_valid(),
    {
        let titles = if restored_titles.len() == 0 {
            let mut fresh: Vec<String> = Vec::new();
            fresh.push(String::from_str("MAIN"));
            proof {
                assert(views(fresh@) =~= seq![main_tab_title()]);
            }
            fresh
        } else {
            restored_titles
        };
        let active_ix = if active < titles.len() {
            active
        } else {
            titles.len() - 1
        };
        CenterStubHost { active_ix, titles }
    }

    /// How many tabs the host holds.
    pub fn tab_count(&self) -> (r: usize)
        ensures
            r == self.titles.len(),
    {
        self.titles.len()
    }

    /// The tabs' titles, in order.
    pub fn tab_titles(&self) -> (r: Vec<String>)
        ensures
            views(r@) == views(self.titles@),
    {
        copy_titles(&self.titles)
    }

    /// Activates tab `ix` if there is one.
    pub fn select(&mut self, ix: usize)
        ensures
            final(self).titles@ == old(self).titles@,
            final(self).active_ix == if ix < old(self).titles.len() {
                ix
            } else {
                old(self).active_ix
            },
    {
        if ix < self.titles.len() {
            self.active_ix = ix;
        }
    }

    /// Appends a tab titled `MAIN n`, where `n` is the new tab count, and
    /// activates it.
    pub fn add_tab(&mut self)
        requires
            old(self).titles.len() < usize::MAX,
        ensures
            views(final(self).titles@) == views(old(self).titles@).push(
                numbered_tab_title((old(self).titles.len() + 1) as nat),
            ),
            final(self).active_ix == old(self).titles.len(),
    {
        let n = self.titles.len() + 1;
        let title = numbered_tab_title_string(n);
        self.titles.push(title);
        proof {
            assert(views(self.titles@) =~= views(old(self).titles@).push(
                numbered_tab_title(n as nat),
            ));
        }
        self.active_ix = self.titles.len() - 1;
    }

    /// Closes tab `ix`; the active tab follows
    /// [`spec_next_active_after_close`], or zero once none are left.
    pub fn close_tab(&mut self, ix: usize)
        ensures
            ix >= old(self).titles.len() ==> *final(self) == *old(self),
            ix < old(self).titles.len() ==> {
                &&& final(self).titles@ == old(self).titles@.remove(ix as int)
                &&& final(self).active_ix == match spec_next_active_after_close(
                    old(self).active_ix as int,
                    ix as int,
                    old(self).titles.len() - 1,
                ) {
                    Some(i) => i as usize,
                    None => 0,
                }
            },
    {
        if ix >= self.titles.len() {
            return;
        }
        self.titles.remove(ix);
        self.active_ix = match next_active_after_close(self.active_ix, ix, self.titles.len()) {
            Some(i) => i,
            None => 0,
        };
    }
}

/// Every host operation keeps the active index naming a tab: selecting,
/// adding (the new last tab becomes active) and closing.
pub proof fn law_center_host_keeps_active_valid(active: int, count: int, ix: int)
    requires
        count >= 0,
        index_valid(active, count),
    ensures
        index_valid(if 0 <= ix < count { ix } else { active }, count),
        index_valid(count, count + 1),
        0 <= ix < count ==> index_valid(
            match spec_next_active_after_close(active, ix, count - 1) {
                Some(i) => i,
                None => 0,
            },
            count - 1,
        ),
{
}

/// Closing a tab keeps the same tab active when another one closed; when
/// the active tab itself closed, the tab that took its place becomes active,
/// or the new last tab when it was the last. Closing the only tab leaves no
/// active tab.
pub proof fn law_close_keeps_or_follows_active<A>(s: Seq<A>, active: int, closed: int)
    requires
        0 <= active < s.len(),
        0 <= closed < s.len(),
    ensures
        s.len() == 1 ==> spec_next_active_after_close(active, closed, 0) is None,
        s.len() > 1 ==> match spec_next_active_after_close(active, closed, s.len() - 1) {
            Some(i) => {
                &&& 0 <= i < s.len() - 1
                &&& active != closed ==> s.remove(closed)[i] == s[active]
                &&& active == closed ==> s.remove(closed)[i] == if closed + 1 < s.len() {
                    s[closed + 1]
                } else {
                    s[closed - 1]
                }
            },
            None => false,
        },
{
}

} // verus!

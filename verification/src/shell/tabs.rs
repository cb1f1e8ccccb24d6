//! The titlebar tab strip: which tabs exist, in what order, and which is active.

use vstd::prelude::*;

use crate::id_list::{first_index, lemma_first_index, move_entry};
use crate::text::{decimal, decimal_string, lemma_decimal_injective, str_eq, trim, trim_str};

verus! {

broadcast use vstd::seq_lib::group_seq_properties;

/// A persisted titlebar tab.
#[derive(Debug, Clone, PartialEq, Eq)]
pub struct ShellTabRecord {
    pub id: String,
    pub title: String,
}

/// The tab strip: its tabs in order and the id of the active one.
#[derive(Debug, Clone, PartialEq)]
pub struct TabModel {
    pub tabs: Vec<ShellTabRecord>,
    pub active_id: String,
}

/// The ids of a list of tabs.
pub open spec fn tab_ids(tabs: Seq<ShellTabRecord>) -> Seq<Seq<char>> {
    tabs.map_values(|t: ShellTabRecord| t.id@)
}

/// The ids and titles of a list of tabs.
pub open spec fn tab_views(tabs: Seq<ShellTabRecord>) -> Seq<(Seq<char>, Seq<char>)> {
    tabs.map_values(|t: ShellTabRecord| (t.id@, t.title@))
}

/// The id a new tab numbered `n` gets: `tab-n`.
pub open spec fn stub_id(n: nat) -> Seq<char> {
    "tab-"@ + decimal(n)
}

/// Whether `n` is the first number from `ids.len() + 1` on whose stub id is
/// not taken.
pub open spec fn is_first_free_stub(ids: Seq<Seq<char>>, n: nat) -> bool {
    &&& ids.len() + 1 <= n
    &&& !ids.contains(stub_id(n))
    &&& forall|m: nat| ids.len() + 1 <= m < n ==> ids.contains(#[trigger] stub_id(m))
}

/// The title of a freshly added tab.
pub open spec fn new_tab_title() -> Seq<char> {
    "New Tab"@
}

/// Whether `r` copies `tabs` record for record.
pub open spec fn copies(r: Seq<ShellTabRecord>, tabs: Seq<ShellTabRecord>) -> bool {
    tab_views(r) == tab_views(tabs)
}

/// The index whose tab becomes active when the active tab at `index` closes
/// and `len_after` tabs remain: the same index, or the last one.
pub open spec fn neighbor_index(index: int, len_after: int) -> int {
    if index < len_after - 1 {
        index
    } else {
        len_after - 1
    }
}

impl TabModel {
    /// The strip is consistent: the active id names a tab, or the strip and
    /// the active id are both empty.
    pub open spec fn active_is_valid(self) -> bool {
        if self.tabs@.len() == 0 {
            self.active_id@.len() == 0
        } else {
            tab_ids(self.tabs@).contains(self.active_id@)
        }
    }

    /// The strip after selecting `id`: active when some tab has that id.
    pub open spec fn selected(self, after: Self, id: Seq<char>) -> bool {
        &&& after.tabs == self.tabs
        &&& after.active_id@ == if tab_ids(self.tabs@).contains(id) {
            id
        } else {
            self.active_id@
        }
    }

    /// The strip after closing `id`: the tab leaves; the strip empties out,
    /// or a closed active tab hands over to the tab now at its index (or the
    /// last one).
    pub open spec fn closed(self, after: Self, id: Seq<char>) -> bool {
        match first_index(tab_ids(self.tabs@), id) {
            None => after == self,
            Some(i) => {
                &&& after.tabs@ == self.tabs@.remove(i)
                &&& after.active_id@ == if after.tabs@.len() == 0 {
                    Seq::<char>::empty()
                } else if self.active_id@ == id {
                    tab_ids(after.tabs@)[neighbor_index(i, after.tabs@.len() as int)]
                } else {
                    self.active_id@
                }
            },
        }
    }

    /// The strip after moving the tab at `from` to index `to`, when both are
    /// valid, different indices.
    pub open spec fn reordered(self, after: Self, from: int, to: int) -> bool {
        &&& after.active_id == self.active_id
        &&& after.tabs@ == if 0 <= from < self.tabs@.len() && 0 <= to < self.tabs@.len() && from
            != to {
            move_entry(self.tabs@, from, to)
        } else {
            self.tabs@
        }
    }

    /// The strip after renaming tab `id` to `title`: the first tab with that
    /// id takes the trimmed title unless it is blank.
    pub open spec fn renamed(self, after: Self, id: Seq<char>, title: Seq<char>) -> bool {
        &&& after.active_id == self.active_id
        &&& match first_index(tab_ids(self.tabs@), id) {
            Some(i) if trim(title).len() > 0 => {
                &&& after.tabs@.len() == self.tabs@.len()
                &&& forall|j: int| 0 <= j < self.tabs@.len() && j != i ==> after.tabs@[j] == self.tabs@[j]
                &&& after.tabs@[i].id == self.tabs@[i].id
                &&& after.tabs@[i].title@ == trim(title)
            },
            _ => after.tabs == self.tabs,
        }
    }

    /// The strip after adding a stub tab with id `new_id`: the first free
    /// `tab-n` from one past the tab count, titled "New Tab", last and active.
    pub open spec fn stub_added(self, after: Self, new_id: Seq<char>) -> bool {
        &&& exists|n: nat| #[trigger] is_first_free_stub(tab_ids(self.tabs@), n) && new_id == stub_id(n)
        &&& tab_views(after.tabs@) == tab_views(self.tabs@).push((new_id, new_tab_title()))
        &&& after.active_id@ == new_id
    }
}


/// Selecting a tab keeps the active id naming a tab.
pub proof fn law_select_keeps_active_valid(s: TabModel, t: TabModel, id: Seq<char>)
    requires
        s.active_is_valid(),
        s.selected(t, id),
    ensures
        t.active_is_valid(),
{
    if s.tabs@.len() == 0 {
        assert(!tab_ids(s.tabs@).contains(id));
    }
}

/// Closing a tab keeps the active id naming a tab, or empties both.
pub proof fn law_close_keeps_active_valid(s: TabModel, t: TabModel, id: Seq<char>)
    requires
        s.active_is_valid(),
        s.closed(t, id),
    ensures
        t.active_is_valid(),
{
    lemma_first_index(tab_ids(s.tabs@), id);
    match first_index(tab_ids(s.tabs@), id) {
        None => {},
        Some(i) => {
            let before = tab_ids(s.tabs@);
            let after = tab_ids(t.tabs@);
            assert(after =~= before.remove(i));
            if t.tabs@.len() > 0 {
                if s.active_id@ == id {
                    let k = neighbor_index(i, t.tabs@.len() as int);
                    assert(after[k] == t.active_id@);
                } else {
                    let j = choose|j: int| 0 <= j < before.len() && before[j] == s.active_id@;
                    assert(j != i);
                    if j < i {
                        assert(after[j] == s.active_id@);
                    } else {
                        assert(after[j - 1] == s.active_id@);
                    }
                }
            }
        },
    }
}

/// Moving a tab keeps the same tabs, so the active id still names one.
pub proof fn law_reorder_keeps_active_valid(s: TabModel, t: TabModel, from: int, to: int)
    requires
        s.active_is_valid(),
        s.reordered(t, from, to),
    ensures
        t.active_is_valid(),
        t.tabs@.to_multiset() == s.tabs@.to_multiset(),
{
    if 0 <= from < s.tabs@.len() && 0 <= to < s.tabs@.len() && from != to {
        crate::id_list::lemma_move_entry_permutes(s.tabs@, from, to);
        let before = tab_ids(s.tabs@);
        let j = choose|j: int| 0 <= j < before.len() && before[j] == s.active_id@;
        let rec = s.tabs@[j];
        assert(s.tabs@.contains(rec));
        assert(s.tabs@.to_multiset().count(rec) > 0);
        assert(t.tabs@.contains(rec));
        let k = choose|k: int| 0 <= k < t.tabs@.len() && t.tabs@[k] == rec;
        assert(tab_ids(t.tabs@)[k] == s.active_id@);
    }
}

/// Renaming a tab keeps its id, so the active id still names a tab.
pub proof fn law_rename_keeps_active_valid(s: TabModel, t: TabModel, id: Seq<char>, title: Seq<char>)
    requires
        s.active_is_valid(),
        s.renamed(t, id, title),
    ensures
        t.active_is_valid(),
        tab_ids(t.tabs@) == tab_ids(s.tabs@),
{
    assert(tab_ids(t.tabs@) =~= tab_ids(s.tabs@));
}

/// A stub tab gets an id no other tab has, and it becomes the active tab.
pub proof fn law_stub_id_is_fresh(s: TabModel, t: TabModel, new_id: Seq<char>)
    requires
        s.stub_added(t, new_id),
    ensures
        !tab_ids(s.tabs@).contains(new_id),
        tab_ids(t.tabs@) == tab_ids(s.tabs@).push(new_id),
        tab_ids(s.tabs@).no_duplicates() ==> tab_ids(t.tabs@).no_duplicates(),
        t.active_is_valid(),
{
    let n = choose|n: nat| #[trigger] is_first_free_stub(tab_ids(s.tabs@), n) && new_id == stub_id(n);
    assert(tab_ids(t.tabs@).len() == tab_views(t.tabs@).len());
    assert forall|k: int| 0 <= k < tab_ids(t.tabs@).len() implies tab_ids(t.tabs@)[k] == tab_ids(
        s.tabs@,
    ).push(new_id)[k] by {
        assert(tab_views(t.tabs@)[k].0 == tab_ids(t.tabs@)[k]);
        if k < s.tabs@.len() {
            assert(tab_views(s.tabs@)[k].0 == tab_ids(s.tabs@)[k]);
        }
    }
    assert(tab_ids(t.tabs@) =~= tab_ids(s.tabs@).push(new_id));
    assert(tab_ids(t.tabs@).last() == new_id);
}

/// Moving a tab from `from` to `to` and back restores the strip.
pub proof fn law_reorder_back_restores(s: TabModel, t: TabModel, u: TabModel, from: int, to: int)
    requires
        s.reordered(t, from, to),
        t.reordered(u, to, from),
    ensures
        u.tabs@ == s.tabs@,
        u.active_id == s.active_id,
{
    if 0 <= from < s.tabs@.len() && 0 <= to < s.tabs@.len() && from != to {
        let m = move_entry(s.tabs@, from, to);
        assert(m.remove(to) =~= s.tabs@.remove(from));
        assert(s.tabs@.remove(from).insert(from, s.tabs@[from]) =~= s.tabs@);
        assert(u.tabs@ =~= s.tabs@);
    }
}

fn copy_record(r: &ShellTabRecord) -> (c: ShellTabRecord)
    ensures
        c.id@ == r.id@,
        c.title@ == r.title@,
{
    ShellTabRecord { id: r.id.clone(), title: r.title.clone() }
}

fn copy_tabs(tabs: &Vec<ShellTabRecord>) -> (r: Vec<ShellTabRecord>)
    ensures
        copies(r@, tabs@),
{
    let mut out: Vec<ShellTabRecord> = Vec::new();
    let mut i: usize = 0;
    while i < tabs.len()
        invariant
            i <= tabs.len(),
            tab_views(out@) == tab_views(tabs@.take(i as int)),
        decreases tabs.len() - i,
    {
        let ghost before = out@;
        let c = copy_record(&tabs[i]);
        out.push(c);
        proof {
            assert(out@ == before.push(c));
            assert(tabs@.take(i + 1) =~= tabs@.take(i as int).push(tabs@[i as int]));
            assert(tab_views(out@) =~= tab_views(before).push((c.id@, c.title@)));
            assert(tab_views(out@) =~= tab_views(tabs@.take(i + 1)));
        }
        i = i + 1;
    }
    proof {
        assert(tabs@.take(i as int) =~= tabs@);
    }
    out
}

fn tab_position(tabs: &Vec<ShellTabRecord>, id: &str) -> (r: Option<usize>)
    ensures
        match r {
            Some(k) => first_index(tab_ids(tabs@), id@) == Some(k as int) && k < tabs.len(),
            None => first_index(tab_ids(tabs@), id@) is None,
        },
{
    let ghost ids = tab_ids(tabs@);
    let mut i: usize = 0;
    while i < tabs.len()
        invariant
            i <= tabs.len(),
            ids == tab_ids(tabs@),
            first_index(ids, id@) == crate::id_list::first_index_from(ids, id@, i as int),
        decreases tabs.len() - i,
    {
        if str_eq(tabs[i].id.as_str(), id) {
            proof {
                assert(ids[i as int] == id@);
            }
            return Some(i);
        }
        i = i + 1;
    }
    None
}

/// `tab-n`.
fn stub_id_string(n: usize) -> (r: String)
    ensures
        r@ == stub_id(n as nat),
{
    let mut s = String::from_str("tab-");
    let digits = decimal_string(n);
    s.append(digits.as_str());
    s
}

/// The stub ids of the numbers `lo..hi`.
spec fn stub_span(lo: nat, hi: nat) -> Set<Seq<char>> {
    Set::new(|x: Seq<char>| exists|n: nat| lo <= n < hi && x == stub_id(n))
}

proof fn lemma_stub_id_injective(a: nat, b: nat)
    requires
        stub_id(a) == stub_id(b),
    ensures
        a == b,
{
    let pre = "tab-"@;
    assert(stub_id(a).subrange(pre.len() as int, stub_id(a).len() as int) =~= decimal(a));
    assert(stub_id(b).subrange(pre.len() as int, stub_id(b).len() as int) =~= decimal(b));
    lemma_decimal_injective(a, b);
}

proof fn lemma_stub_span_len(lo: nat, hi: nat)
    requires
        lo <= hi,
    ensures
        stub_span(lo, hi).finite(),
        stub_span(lo, hi).len() == hi - lo,
    decreases hi - lo,
{
    if lo == hi {
        assert(stub_span(lo, hi) =~= Set::<Seq<char>>::empty());
    } else {
        let prev = (hi - 1) as nat;
        lemma_stub_span_len(lo, prev);
        assert(stub_span(lo, hi) =~= stub_span(lo, prev).insert(stub_id(prev)));
        if stub_span(lo, prev).contains(stub_id(prev)) {
            let n = choose|n: nat| lo <= n < prev && stub_id(prev) == stub_id(n);
            lemma_stub_id_injective(prev, n);
        }
    }
}

/// Among the `len + 1` numbers from `len + 1` on, some stub id is not taken
/// by a list of `len` ids.
proof fn lemma_some_stub_free(ids: Seq<Seq<char>>)
    ensures
        exists|n: nat|
            ids.len() + 1 <= n <= 2 * ids.len() + 1 && !ids.contains(#[trigger] stub_id(n)),
{
    let len = ids.len();
    if forall|n: nat| len + 1 <= n <= 2 * len + 1 ==> ids.contains(#[trigger] stub_id(n)) {
        let span = stub_span(len + 1, 2 * len + 2);
        lemma_stub_span_len(len + 1, 2 * len + 2);
        assert(span.subset_of(ids.to_set())) by {
            assert forall|x: Seq<char>| span.contains(x) implies ids.to_set().contains(x) by {
                let n = choose|n: nat| len + 1 <= n < 2 * len + 2 && x == stub_id(n);
                assert(ids.contains(stub_id(n)));
            }
        }
        ids.lemma_cardinality_of_set();
        vstd::set_lib::lemma_len_subset(span, ids.to_set());
        assert(false);
    }
}

impl TabModel {
    /// A strip holding copies of `tabs` with `active_tab_id` active.
    pub fn from_chrome(tabs: &Vec<ShellTabRecord>, active_tab_id: &str) -> (r: Self)
        ensures
            copies(r.tabs@, tabs@),
            r.active_id@ == active_tab_id@,
    {
        TabModel { tabs: copy_tabs(tabs), active_id: active_tab_id.to_owned() }
    }

    /// Activates tab `id` if the strip has it.
    pub fn select(&mut self, id: &str)
        ensures
            old(self).selected(*final(self), id@),
    {
        let found = tab_position(&self.tabs, id);
        proof {
            lemma_first_index(tab_ids(self.tabs@), id@);
        }
        if found.is_some() {
            self.active_id = id.to_owned();
        }
    }

    /// Renames tab `id` to `title`, trimmed; a blank title changes nothing.
    pub fn rename(&mut self, id: &str, title: &str)
        ensures
            old(self).renamed(*final(self), id@, title@),
    {
        let trimmed = trim_str(title);
        if trimmed.unicode_len() == 0 {
            return;
        }
        let found = tab_position(&self.tabs, id);
        match found {
            Some(i) => {
                let record = ShellTabRecord { id: self.tabs[i].id.clone(), title: trimmed.to_owned() };
                self.tabs.set(i, record);
            },
            None => {},
        }
    }

    /// Closes tab `id`; a closed active tab hands over to its neighbour.
    pub fn close(&mut self, id: &str)
        ensures
            old(self).closed(*final(self), id@),
    {
        let found = tab_position(&self.tabs, id);
        let index = match found {
            Some(i) => i,
            None => {
                return;
            },
        };
        let was_active = str_eq(self.active_id.as_str(), id);
        self.tabs.remove(index);
        if self.tabs.len() == 0 {
            self.active_id = String::new();
            return;
        }
        if was_active {
            let neighbor_index = if index < self.tabs.len() - 1 {
                index
            } else {
                self.tabs.len() - 1
            };
            self.active_id = self.tabs[neighbor_index].id.clone();
        }
    }

    /// Moves the tab at `from` to index `to`; out-of-range or equal indices
    /// change nothing.
    pub fn reorder(&mut self, from: usize, to: usize)
        ensures
            old(self).reordered(*final(self), from as int, to as int),
    {
        if from >= self.tabs.len() || to >= self.tabs.len() || from == to {
            return;
        }
        let tab = self.tabs.remove(from);
        self.tabs.insert(to, tab);
        proof {
            assert(self.tabs@ =~= move_entry(old(self).tabs@, from as int, to as int));
        }
    }

    /// Appends an untitled tab with a fresh `tab-n` id, activates it, and
    /// returns its id.
    pub fn add_stub(&mut self) -> (r: String)
        requires
            old(self).tabs.len() < usize::MAX / 2,
        ensures
            old(self).stub_added(*final(self), r@),
    {
        let ghost ids = tab_ids(self.tabs@);
        proof {
            lemma_some_stub_free(ids);
        }
        let mut number = self.tabs.len() + 1;
        loop
            invariant
                ids == tab_ids(self.tabs@),
                *self == *old(self),
                self.tabs.len() < usize::MAX / 2,
                ids.len() + 1 <= number <= 2 * ids.len() + 1,
                forall|m: nat| ids.len() + 1 <= m < number ==> ids.contains(#[trigger] stub_id(m)),
                exists|n: nat|
                    number <= n <= 2 * ids.len() + 1 && !ids.contains(#[trigger] stub_id(n)),
            decreases 2 * ids.len() + 1 - number,
        {
            let id = stub_id_string(number);
            let taken = tab_position(&self.tabs, id.as_str());
            proof {
                lemma_first_index(ids, id@);
            }
            if taken.is_none() {
                proof {
                    assert(is_first_free_stub(ids, number as nat));
                }
                let record = ShellTabRecord { id: id.clone(), title: String::from_str("New Tab") };
                self.tabs.push(record);
                self.active_id = id.clone();
                proof {
                    assert(tab_views(self.tabs@) =~= tab_views(old(self).tabs@).push(
                        (id@, new_tab_title()),
                    ));
                }
                return id;
            }
            proof {
                let n = choose|n: nat|
                    number <= n <= 2 * ids.len() + 1 && !ids.contains(#[trigger] stub_id(n));
                assert(n != number);
            }
            number = number + 1;
        }
    }

    /// Copies of the tabs and the active id, for persisting.
    pub fn to_chrome_tabs(&self) -> (r: (Vec<ShellTabRecord>, String))
        ensures
            copies(r.0@, self.tabs@),
            r.1@ == self.active_id@,
    {
        (copy_tabs(&self.tabs), self.active_id.clone())
    }
}

} // verus!

//! The registry of open tabs: each tab's identifier and the address it was
//! opened with, the active tab, and the counter from which new identifiers are
//! drawn ("tab-1", "tab-2", ...).

use crate::text::{append_decimal, decimal, lemma_decimal_injective};
use vstd::prelude::*;

verus! {

/// The identifier of the tab drawn as the `n`-th: `tab-` followed by `n` in decimal.
pub open spec fn tab_label(n: nat) -> Seq<char> {
    seq!['t', 'a', 'b', '-'] + decimal(n)
}

/// What a registry holds: how many identifiers were drawn, the open tabs (identifier
/// to address) and the identifier of the active tab.
pub struct TabsModel {
    pub counter: nat,
    pub tabs: Map<Seq<char>, Seq<char>>,
    pub active: Seq<char>,
}

impl TabsModel {
    /// `id` is one of the identifiers drawn so far.
    pub open spec fn is_issued(self, id: Seq<char>) -> bool {
        exists|n: nat| 1 <= n <= self.counter && id == #[trigger] tab_label(n)
    }

    /// Every open tab carries an identifier that was drawn from the counter.
    pub open spec fn only_issued_ids(self) -> bool {
        forall|k: Seq<char>| #[trigger] self.tabs.dom().contains(k) ==> self.is_issued(k)
    }
}

/// Tab identifiers drawn with distinct counter values differ.
pub proof fn lemma_tab_labels_distinct(a: nat, b: nat)
    requires
        a != b,
    ensures
        tab_label(a) != tab_label(b),
{
    if tab_label(a) == tab_label(b) {
        assert(tab_label(a).subrange(4, tab_label(a).len() as int) =~= decimal(a));
        assert(tab_label(b).subrange(4, tab_label(b).len() as int) =~= decimal(b));
        lemma_decimal_injective(a, b);
    }
}

/// When every open tab carries a drawn identifier, the next identifier to be
/// drawn names no open tab.
pub proof fn lemma_reserved_id_is_fresh(m: TabsModel)
    requires
        m.only_issued_ids(),
    ensures
        !m.tabs.dom().contains(tab_label(m.counter + 1)),
{
    if m.tabs.dom().contains(tab_label(m.counter + 1)) {
        let n = choose|n: nat| 1 <= n <= m.counter && tab_label(m.counter + 1) == #[trigger] tab_label(n);
        lemma_tab_labels_distinct(n, m.counter + 1);
    }
}

/// The character sequences of a sequence of strings.
pub open spec fn string_views(v: Seq<String>) -> Seq<Seq<char>> {
    v.map_values(|s: String| s@)
}

spec fn key_seq(es: Seq<(String, String)>) -> Seq<Seq<char>> {
    es.map_values(|e: (String, String)| e.0@)
}

spec fn entries_map(es: Seq<(String, String)>) -> Map<Seq<char>, Seq<char>> {
    Map::new(
        |k: Seq<char>| key_seq(es).contains(k),
        |k: Seq<char>| es[key_seq(es).index_of(k)].1@,
    )
}

proof fn lemma_entries_map_at(es: Seq<(String, String)>, i: int)
    requires
        key_seq(es).no_duplicates(),
        0 <= i < es.len(),
    ensures
        entries_map(es).dom().contains(es[i].0@),
        entries_map(es)[es[i].0@] == es[i].1@,
{
    let ks = key_seq(es);
    assert(ks[i] == es[i].0@);
    assert(ks.contains(es[i].0@));
    let j = ks.index_of(es[i].0@);
    assert(ks[j] == es[i].0@);
}

proof fn lemma_entries_map_push(es: Seq<(String, String)>, e: (String, String))
    requires
        key_seq(es).no_duplicates(),
        !key_seq(es).contains(e.0@),
    ensures
        key_seq(es.push(e)) == key_seq(es).push(e.0@),
        key_seq(es.push(e)).no_duplicates(),
        entries_map(es.push(e)) == entries_map(es).insert(e.0@, e.1@),
{
    let es2 = es.push(e);
    assert(key_seq(es2) =~= key_seq(es).push(e.0@));
    let ks = key_seq(es);
    let ks2 = key_seq(es2);
    assert forall|a: int, b: int| 0 <= a < b < ks2.len() implies ks2[a] != ks2[b] by {
        if b == ks.len() {
            assert(ks[a] == ks2[a]);
        }
    }
    let m1 = entries_map(es2);
    let m2 = entries_map(es).insert(e.0@, e.1@);
    assert forall|k: Seq<char>| m1.dom().contains(k) <==> m2.dom().contains(k) by {
        if ks2.contains(k) {
            let j = choose|j: int| 0 <= j < ks2.len() && ks2[j] == k;
            if j < ks.len() {
                assert(ks[j] == k);
            }
        }
        if ks.contains(k) {
            let j = choose|j: int| 0 <= j < ks.len() && ks[j] == k;
            assert(ks2[j] == k);
        }
        assert(ks2[ks.len() as int] == e.0@);
    }
    assert forall|k: Seq<char>| #[trigger] m1.dom().contains(k) implies m1[k] == m2[k] by {
        let j = choose|j: int| 0 <= j < ks2.len() && ks2[j] == k;
        lemma_entries_map_at(es2, j);
        if j < ks.len() {
            assert(ks[j] == k);
            assert(es2[j] == es[j]);
            lemma_entries_map_at(es, j);
        } else {
            assert(ks2[j] == e.0@);
        }
    }
    assert(m1 =~= m2);
}

proof fn lemma_entries_map_update(es: Seq<(String, String)>, i: int, e: (String, String))
    requires
        key_seq(es).no_duplicates(),
        0 <= i < es.len(),
        es[i].0@ == e.0@,
    ensures
        key_seq(es.update(i, e)) == key_seq(es),
        entries_map(es.update(i, e)) == entries_map(es).insert(e.0@, e.1@),
{
    let es2 = es.update(i, e);
    let ks = key_seq(es);
    assert(key_seq(es2) =~= ks);
    let m1 = entries_map(es2);
    let m2 = entries_map(es).insert(e.0@, e.1@);
    assert forall|k: Seq<char>| m1.dom().contains(k) <==> m2.dom().contains(k) by {
        assert(ks[i] == e.0@);
    }
    assert forall|k: Seq<char>| #[trigger] m1.dom().contains(k) implies m1[k] == m2[k] by {
        let j = choose|j: int| 0 <= j < ks.len() && ks[j] == k;
        assert(key_seq(es2)[j] == k);
        lemma_entries_map_at(es2, j);
        if j != i {
            assert(ks[j] != ks[i]);
            assert(es2[j] == es[j]);
            lemma_entries_map_at(es, j);
        } else {
            assert(es2[j] == e);
        }
    }
    assert(m1 =~= m2);
}

proof fn lemma_entries_map_remove(es: Seq<(String, String)>, i: int)
    requires
        key_seq(es).no_duplicates(),
        0 <= i < es.len(),
    ensures
        key_seq(es.remove(i)) == key_seq(es).remove(i),
        key_seq(es.remove(i)).no_duplicates(),
        entries_map(es.remove(i)) == entries_map(es).remove(es[i].0@),
{
    let es2 = es.remove(i);
    let ks = key_seq(es);
    let ks2 = key_seq(es2);
    assert(ks2 =~= ks.remove(i));
    assert forall|a: int, b: int| 0 <= a < b < ks2.len() implies ks2[a] != ks2[b] by {
        let a0 = if a < i { a } else { a + 1 };
        let b0 = if b < i { b } else { b + 1 };
        assert(ks2[a] == ks[a0]);
        assert(ks2[b] == ks[b0]);
    }
    let m1 = entries_map(es2);
    let m2 = entries_map(es).remove(es[i].0@);
    assert forall|k: Seq<char>| m1.dom().contains(k) <==> m2.dom().contains(k) by {
        assert(ks[i] == es[i].0@);
        if ks2.contains(k) {
            let j = choose|j: int| 0 <= j < ks2.len() && ks2[j] == k;
            let j0 = if j < i { j } else { j + 1 };
            assert(ks[j0] == k);
        }
        if ks.contains(k) && k != es[i].0@ {
            let j = choose|j: int| 0 <= j < ks.len() && ks[j] == k;
            let j2 = if j < i { j } else { j - 1 };
            assert(ks2[j2] == k);
        }
    }
    assert forall|k: Seq<char>| #[trigger] m1.dom().contains(k) implies m1[k] == m2[k] by {
        let j = choose|j: int| 0 <= j < ks2.len() && ks2[j] == k;
        let j0 = if j < i { j } else { j + 1 };
        lemma_entries_map_at(es2, j);
        lemma_entries_map_at(es, j0);
    }
    assert(m1 =~= m2);
}

/// The open tabs of the browser window, the active one and the identifier counter.
pub struct TabRegistry {
    counter: u32,
    entries: Vec<(String, String)>,
    active: String,
}

impl View for TabRegistry {
    type V = TabsModel;

    closed spec fn view(&self) -> TabsModel {
        TabsModel { counter: self.counter as nat, tabs: entries_map(self.entries@), active: self.active@ }
    }
}

impl TabRegistry {
    #[verifier::type_invariant]
    spec fn keys_unique(self) -> bool {
        key_seq(self.entries@).no_duplicates()
    }

    /// A registry with no tabs, no active tab (the empty identifier) and a counter
    /// at zero.
    pub fn new() -> (r: Self)
        ensures
            r@.counter == 0,
            r@.tabs == Map::<Seq<char>, Seq<char>>::empty(),
            r@.active == Seq::<char>::empty(),
    {
        let r = TabRegistry { counter: 0, entries: Vec::new(), active: String::new() };
        assert(entries_map(r.entries@) =~= Map::<Seq<char>, Seq<char>>::empty());
        r
    }

    /// How many identifiers have been drawn.
    pub fn tab_counter(&self) -> (n: u32)
        ensures
            n == self@.counter,
    {
        self.counter
    }

    /// The identifier of the active tab.
    pub fn active_tab(&self) -> (id: String)
        ensures
            id@ == self@.active,
    {
        self.active.clone()
    }

    fn position_of(&self, id: &String) -> (r: Option<usize>)
        ensures
            match r {
                Some(i) => i < self.entries@.len() && self.entries@[i as int].0@ == id@,
                None => !key_seq(self.entries@).contains(id@),
            },
    {
        let n = self.entries.len();
        let mut i: usize = 0;
        while i < n
            invariant
                n == self.entries@.len(),
                i <= n,
                forall|j: int| 0 <= j < i ==> self.entries@[j].0@ != id@,
            decreases n - i,
        {
            if self.entries[i].0 == *id {
                return Some(i);
            }
            i = i + 1;
        }
        proof {
            let ks = key_seq(self.entries@);
            if ks.contains(id@) {
                let j = choose|j: int| 0 <= j < ks.len() && ks[j] == id@;
                assert(self.entries@[j].0@ == id@);
            }
        }
        None
    }

    /// The address the tab `id` was opened with, if it is open.
    pub fn url_of(&self, id: &String) -> (r: Option<String>)
        ensures
            match r {
                Some(u) => self@.tabs.dom().contains(id@) && self@.tabs[id@] == u@,
                None => !self@.tabs.dom().contains(id@),
            },
    {
        proof { use_type_invariant(self); }
        match self.position_of(id) {
            Some(i) => {
                proof { lemma_entries_map_at(self.entries@, i as int); }
                Some(self.entries[i].1.clone())
            },
            None => None,
        }
    }

    /// The identifiers of all open tabs, each once.
    pub fn tab_ids(&self) -> (ids: Vec<String>)
        ensures
            string_views(ids@).no_duplicates(),
            forall|k: Seq<char>|
                self@.tabs.dom().contains(k) <==> string_views(ids@).contains(k),
    {
        proof { use_type_invariant(self); }
        let ghost ks = key_seq(self.entries@);
        let n = self.entries.len();
        let mut ids: Vec<String> = Vec::new();
        let mut i: usize = 0;
        while i < n
            invariant
                n == self.entries@.len(),
                ks == key_seq(self.entries@),
                i <= n,
                ids@.len() == i,
                string_views(ids@) == ks.take(i as int),
            decreases n - i,
        {
            assert(ks[i as int] == self.entries@[i as int].0@);
            let ghost prev = ids@;
            let k = self.entries[i].0.clone();
            ids.push(k);
            assert forall|j: int| 0 <= j < i implies string_views(ids@)[j] == ks[j] by {
                assert(string_views(prev)[j] == ks.take(i as int)[j]);
                assert(ids@[j] == prev[j]);
            }
            assert(string_views(ids@) =~= ks.take(i + 1));
            i = i + 1;
        }
        assert(ks.take(n as int) =~= ks);
        ids
    }

    /// Draws the next tab identifier: the counter goes up by one and the identifier
    /// is `tab-` followed by its new value.
    pub fn reserve_tab_id(&mut self) -> (id: String)
        requires
            old(self)@.counter < u32::MAX,
        ensures
            final(self)@.counter == old(self)@.counter + 1,
            final(self)@.tabs == old(self)@.tabs,
            final(self)@.active == old(self)@.active,
            id@ == tab_label(final(self)@.counter),
            final(self)@.is_issued(id@),
            old(self)@.only_issued_ids() ==> final(self)@.only_issued_ids(),
            old(self)@.only_issued_ids() ==> !final(self)@.tabs.dom().contains(id@),
    {
        proof { use_type_invariant(&*self); }
        self.counter = self.counter + 1;
        let id = tab_id_for(self.counter);
        proof {
            let m0 = old(self)@;
            let m1 = self@;
            assert(m1.is_issued(id@)) by {
                assert(id@ == tab_label(m1.counter));
            }
            if m0.only_issued_ids() {
                assert forall|k: Seq<char>| #[trigger] m1.tabs.dom().contains(k) implies m1.is_issued(k) by {
                    assert(m1.tabs == m0.tabs);
                    assert(m0.tabs.dom().contains(k));
                    assert(m0.is_issued(k));
                    let n = choose|n: nat| 1 <= n <= m0.counter && k == #[trigger] tab_label(n);
                    assert(tab_label(n) == k);
                }
                lemma_reserved_id_is_fresh(m0);
            }
        }
        id
    }

    fn insert_tab(&mut self, id: String, url: String)
        ensures
            final(self)@.tabs == old(self)@.tabs.insert(id@, url@),
            final(self)@.counter == old(self)@.counter,
            final(self)@.active == old(self)@.active,
    {
        proof { use_type_invariant(&*self); }
        let ghost e = (id, url);
        let pos = self.position_of(&id);
        let mut es: Vec<(String, String)> = Vec::new();
        std::mem::swap(&mut es, &mut self.entries);
        match pos {
            Some(i) => {
                proof { lemma_entries_map_update(es@, i as int, e); }
                es.set(i, (id, url));
            },
            None => {
                proof { lemma_entries_map_push(es@, e); }
                es.push((id, url));
            },
        }
        self.entries = es;
    }

    /// Settles a tab whose identifier was drawn and whose view was being created:
    /// when creation succeeded the tab is recorded with its address, becomes active
    /// and its identifier is returned; when it failed the registry is unchanged and
    /// the failure is returned.
    pub fn complete_new_tab(&mut self, id: String, url: String, created: Result<(), String>) -> (r: Result<String, String>)
        ensures
            final(self)@.counter == old(self)@.counter,
            match created {
                Ok(()) => {
                    &&& r == Ok::<String, String>(id)
                    &&& final(self)@.tabs == old(self)@.tabs.insert(id@, url@)
                    &&& final(self)@.active == id@
                },
                Err(e) => {
                    &&& r == Err::<String, String>(e)
                    &&& final(self)@ == old(self)@
                },
            },
            old(self)@.only_issued_ids() && old(self)@.is_issued(id@) ==> final(self)@.only_issued_ids(),
    {
        match created {
            Ok(()) => {
                self.insert_tab(id.clone(), url);
                proof { use_type_invariant(&*self); }
                self.active = id.clone();
                proof {
                    let m0 = old(self)@;
                    let m1 = self@;
                    if m0.only_issued_ids() && m0.is_issued(id@) {
                        assert forall|k: Seq<char>| #[trigger] m1.tabs.dom().contains(k) implies m1.is_issued(k) by {
                            if k != id@ {
                                assert(m0.tabs.dom().contains(k));
                            }
                        }
                    }
                }
                Ok(id)
            },
            Err(e) => Err(e),
        }
    }

    /// Forgets the tab `id`; the active tab and the counter are left as they were.
    pub fn remove_tab(&mut self, id: &String)
        ensures
            final(self)@.tabs == old(self)@.tabs.remove(id@),
            final(self)@.counter == old(self)@.counter,
            final(self)@.active == old(self)@.active,
            old(self)@.only_issued_ids() ==> final(self)@.only_issued_ids(),
    {
        proof { use_type_invariant(&*self); }
        match self.position_of(id) {
            Some(i) => {
                let mut es: Vec<(String, String)> = Vec::new();
                std::mem::swap(&mut es, &mut self.entries);
                proof { lemma_entries_map_remove(es@, i as int); }
                let _ = es.remove(i);
                self.entries = es;
            },
            None => {
                proof {
                    assert(entries_map(self.entries@).remove(id@) =~= entries_map(self.entries@));
                }
            },
        }
        proof {
            let m0 = old(self)@;
            let m1 = self@;
            if m0.only_issued_ids() {
                assert forall|k: Seq<char>| #[trigger] m1.tabs.dom().contains(k) implies m1.is_issued(k) by {
                    assert(m0.tabs.dom().contains(k));
                }
            }
        }
    }

    /// Makes `id` the active tab; the open tabs and the counter are unchanged.
    pub fn set_active(&mut self, id: String)
        ensures
            final(self)@.active == id@,
            final(self)@.tabs == old(self)@.tabs,
            final(self)@.counter == old(self)@.counter,
    {
        proof { use_type_invariant(&*self); }
        self.active = id;
    }
}

/// The identifier `tab-` followed by `n` in decimal.
pub fn tab_id_for(n: u32) -> (id: String)
    ensures
        id@ == tab_label(n as nat),
{
    let mut id = String::from_str("tab-");
    proof { reveal_strlit("tab-"); }
    assert(id@ =~= seq!['t', 'a', 'b', '-']);
    append_decimal(&mut id, n);
    id
}

} // verus!

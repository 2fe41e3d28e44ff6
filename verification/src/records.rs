//! The records kept in the local database: visited pages, bookmarks and the tabs
//! saved for the next start, with the row form of a saved tab and the rule that
//! unreadable rows are left out of a listing.

use vstd::prelude::*;

verus! {

/// A visited page.
#[derive(Clone, Debug)]
pub struct HistoryItem {
    pub id: i64,
    pub url: String,
    pub title: String,
    pub visited_at: i64,
}

/// A bookmarked page.
#[derive(Clone, Debug)]
pub struct Bookmark {
    pub id: i64,
    pub url: String,
    pub title: String,
    pub created_at: i64,
}

/// A tab saved for the next start: its place in the tab strip, address, title and
/// whether it was the active one.
#[derive(Clone, Debug)]
pub struct SavedTab {
    pub position: i32,
    pub url: String,
    pub title: String,
    pub active: bool,
}

/// A saved tab as a database row, where the active flag is an integer.
#[derive(Clone, Debug)]
pub struct SavedTabRow {
    pub position: i32,
    pub url: String,
    pub title: String,
    pub active: i32,
}

/// The row written for a saved tab: the flag as 1 or 0.
pub open spec fn row_of(t: SavedTab) -> SavedTabRow {
    SavedTabRow { position: t.position, url: t.url, title: t.title, active: if t.active { 1 } else { 0 } }
}

/// The saved tab read from a row: any nonzero flag counts as active.
pub open spec fn saved_tab_of(r: SavedTabRow) -> SavedTab {
    SavedTab { position: r.position, url: r.url, title: r.title, active: r.active != 0 }
}

impl SavedTab {
    /// The row under which the tab is stored.
    pub fn to_row(&self) -> (r: SavedTabRow)
        ensures
            r == row_of(*self),
    {
        SavedTabRow {
            position: self.position,
            url: self.url.clone(),
            title: self.title.clone(),
            active: if self.active { 1 } else { 0 },
        }
    }

    /// The tab a stored row describes.
    pub fn from_row(row: SavedTabRow) -> (t: SavedTab)
        ensures
            t == saved_tab_of(row),
    {
        SavedTab { position: row.position, url: row.url, title: row.title, active: row.active != 0 }
    }
}

/// Reading back the row written for a saved tab gives the same tab.
pub proof fn lemma_saved_tab_round_trip(t: SavedTab)
    ensures
        saved_tab_of(row_of(t)) == t,
{
}

/// Writing the tab read from a row gives that row back exactly when its flag is
/// 0 or 1.
pub proof fn lemma_saved_row_round_trip(r: SavedTabRow)
    ensures
        row_of(saved_tab_of(r)) == r <==> (r.active == 0 || r.active == 1),
{
}

/// The values of the rows that could be read, in their order.
pub open spec fn readable_rows<T, E>(rows: Seq<Result<T, E>>) -> Seq<T>
    decreases rows.len(),
{
    if rows.len() == 0 {
        Seq::empty()
    } else {
        let rest = readable_rows(rows.drop_last());
        match rows.last() {
            Ok(v) => rest.push(v),
            Err(_) => rest,
        }
    }
}

/// The rows of a query result that could be read, in their order.
pub open spec fn ok_rows<T, E>(rows: Seq<Result<T, E>>) -> Seq<Result<T, E>> {
    rows.filter(|r: Result<T, E>| r is Ok)
}

/// The values carried by rows that could be read.
pub open spec fn values_of<T, E>(rows: Seq<Result<T, E>>) -> Seq<T> {
    rows.map_values(|r: Result<T, E>| r->Ok_0)
}

/// A listing holds the value of every readable row and nothing else, in the rows'
/// order: as many values as there are readable rows, and, when every row could be
/// read, exactly the rows' values.
pub proof fn lemma_listing_keeps_every_readable_row<T, E>(rows: Seq<Result<T, E>>)
    ensures
        readable_rows(rows) == values_of(ok_rows(rows)),
        readable_rows(rows).len() == ok_rows(rows).len(),
        (forall|i: int| 0 <= i < rows.len() ==> #[trigger] rows[i] is Ok) ==> readable_rows(rows) == values_of(rows),
    decreases rows.len(),
{
    reveal(Seq::filter);
    if rows.len() == 0 {
        assert(values_of(ok_rows(rows)) =~= Seq::<T>::empty());
        assert(values_of(rows) =~= Seq::<T>::empty());
    } else {
        let init = rows.drop_last();
        lemma_listing_keeps_every_readable_row(init);
        assert(ok_rows(rows) == if rows.last() is Ok {
            ok_rows(init).push(rows.last())
        } else {
            ok_rows(init)
        });
        if rows.last() is Ok {
            assert(values_of(ok_rows(init).push(rows.last())) =~= values_of(ok_rows(init)).push(rows.last()->Ok_0));
        }
        if forall|i: int| 0 <= i < rows.len() ==> #[trigger] rows[i] is Ok {
            assert forall|i: int| 0 <= i < init.len() implies #[trigger] init[i] is Ok by {
                assert(init[i] == rows[i]);
            }
            assert(rows[rows.len() - 1] is Ok);
            assert(values_of(rows) =~= values_of(init).push(rows.last()->Ok_0));
        }
    }
}

/// A listing from query results: the rows that could be read, in order; the others
/// are left out.
pub fn keep_readable<T, E>(rows: Vec<Result<T, E>>) -> (kept: Vec<T>)
    ensures
        kept@ == readable_rows(rows@),
        kept@ == values_of(ok_rows(rows@)),
        kept@.len() == ok_rows(rows@).len(),
        (forall|i: int| 0 <= i < rows@.len() ==> #[trigger] rows@[i] is Ok) ==> kept@ == values_of(rows@),
{
    proof { lemma_listing_keeps_every_readable_row(rows@); }
    let ghost all = rows@;
    let mut kept: Vec<T> = Vec::new();
    for r in it: rows.into_iter()
        invariant
            it.seq() == all,
            kept@ == readable_rows(all.take(it.index() as int)),
    {
        assert(all.take(it.index() + 1).drop_last() =~= all.take(it.index() as int));
        match r {
            Ok(v) => kept.push(v),
            Err(_) => {},
        }
    }
    assert(all.take(all.len() as int) =~= all);
    kept
}

} // verus!

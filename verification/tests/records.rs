use grokipedia::records::{keep_readable, Bookmark, HistoryItem, SavedTab, SavedTabRow};

fn tab(position: i32, active: bool) -> SavedTab {
    SavedTab { position, url: format!("https://grokipedia.com/{}", position), title: format!("T{}", position), active }
}

#[test]
fn saved_tab_row_flags() {
    let r = tab(2, true).to_row();
    assert_eq!((r.position, r.url.as_str(), r.title.as_str(), r.active), (2, "https://grokipedia.com/2", "T2", 1));
    assert_eq!(tab(0, false).to_row().active, 0);
}

#[test]
fn saved_tab_round_trip() {
    for t in [tab(0, false), tab(1, true), tab(-3, true)] {
        let back = SavedTab::from_row(t.to_row());
        assert_eq!(back.position, t.position);
        assert_eq!(back.url, t.url);
        assert_eq!(back.title, t.title);
        assert_eq!(back.active, t.active);
    }
}

#[test]
fn any_nonzero_flag_is_active() {
    let row = SavedTabRow { position: 4, url: "u".to_string(), title: "t".to_string(), active: 7 };
    let t = SavedTab::from_row(row);
    assert!(t.active);
    assert_eq!(t.to_row().active, 1);
    let row0 = SavedTabRow { position: 4, url: "u".to_string(), title: "t".to_string(), active: 0 };
    assert!(!SavedTab::from_row(row0).active);
}

#[test]
fn unreadable_rows_are_left_out_in_order() {
    let rows: Vec<Result<HistoryItem, String>> = vec![
        Ok(HistoryItem { id: 3, url: "c".to_string(), title: "C".to_string(), visited_at: 30 }),
        Err("invalid column type".to_string()),
        Ok(HistoryItem { id: 1, url: "a".to_string(), title: "A".to_string(), visited_at: 10 }),
        Err("invalid column type".to_string()),
    ];
    let kept = keep_readable(rows);
    assert_eq!(kept.iter().map(|h| h.id).collect::<Vec<_>>(), vec![3, 1]);
}

#[test]
fn readable_rows_of_bookmarks() {
    let rows: Vec<Result<Bookmark, ()>> = vec![
        Ok(Bookmark { id: 5, url: "x".to_string(), title: "X".to_string(), created_at: 1 }),
        Ok(Bookmark { id: 6, url: "y".to_string(), title: "Y".to_string(), created_at: 2 }),
    ];
    let kept = keep_readable(rows);
    assert_eq!(kept.len(), 2);
    assert_eq!(kept[1].url, "y");
    let none: Vec<Result<Bookmark, ()>> = vec![Err(()), Err(())];
    assert!(keep_readable(none).is_empty());
}

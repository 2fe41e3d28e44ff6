use grokipedia::tabs::{tab_id_for, TabRegistry};

#[test]
fn tab_ids_are_drawn_in_sequence() {
    let mut reg = TabRegistry::new();
    assert_eq!(reg.tab_counter(), 0);
    assert_eq!(reg.reserve_tab_id(), "tab-1");
    assert_eq!(reg.reserve_tab_id(), "tab-2");
    assert_eq!(reg.tab_counter(), 2);
    assert!(reg.tab_ids().is_empty());
}

#[test]
fn tab_id_rendering() {
    assert_eq!(tab_id_for(0), "tab-0");
    assert_eq!(tab_id_for(7), "tab-7");
    assert_eq!(tab_id_for(10), "tab-10");
    assert_eq!(tab_id_for(305), "tab-305");
    assert_eq!(tab_id_for(u32::MAX), "tab-4294967295");
}

#[test]
fn distinct_counters_give_distinct_ids() {
    let ids: Vec<String> = (1..=120).map(tab_id_for).collect();
    for i in 0..ids.len() {
        for j in (i + 1)..ids.len() {
            assert_ne!(ids[i], ids[j]);
        }
    }
}

#[test]
fn new_tab_success_registers_and_activates() {
    let mut reg = TabRegistry::new();
    let id = reg.reserve_tab_id();
    let r = reg.complete_new_tab(id.clone(), "https://grokipedia.com/".to_string(), Ok(()));
    assert_eq!(r, Ok("tab-1".to_string()));
    assert_eq!(reg.active_tab(), "tab-1");
    assert_eq!(reg.url_of(&id), Some("https://grokipedia.com/".to_string()));
    assert_eq!(reg.tab_ids(), vec!["tab-1".to_string()]);
}

#[test]
fn new_tab_failure_leaves_tabs_unchanged_but_counter_advanced() {
    let mut reg = TabRegistry::new();
    let id = reg.reserve_tab_id();
    let r = reg.complete_new_tab(id.clone(), "bad url".to_string(), Err("relative URL without a base".to_string()));
    assert_eq!(r, Err("relative URL without a base".to_string()));
    assert!(reg.tab_ids().is_empty());
    assert_eq!(reg.active_tab(), "");
    assert_eq!(reg.tab_counter(), 1);
    assert_eq!(reg.reserve_tab_id(), "tab-2");
}

#[test]
fn reserved_id_is_never_an_open_tab() {
    let mut reg = TabRegistry::new();
    for _ in 0..5 {
        let id = reg.reserve_tab_id();
        assert_eq!(reg.url_of(&id), None);
        reg.complete_new_tab(id, "https://grokipedia.com/".to_string(), Ok(())).unwrap();
    }
    let closed = "tab-3".to_string();
    reg.remove_tab(&closed);
    let next = reg.reserve_tab_id();
    assert_eq!(next, "tab-6");
    assert!(!reg.tab_ids().contains(&next));
}

#[test]
fn registering_an_open_id_again_replaces_its_address() {
    let mut reg = TabRegistry::new();
    let id = reg.reserve_tab_id();
    reg.complete_new_tab(id.clone(), "https://a.example/".to_string(), Ok(())).unwrap();
    reg.complete_new_tab(id.clone(), "https://b.example/".to_string(), Ok(())).unwrap();
    assert_eq!(reg.tab_ids().len(), 1);
    assert_eq!(reg.url_of(&id), Some("https://b.example/".to_string()));
}

#[test]
fn closing_a_tab_keeps_the_others_and_the_active_tab() {
    let mut reg = TabRegistry::new();
    for url in ["https://a.example/", "https://b.example/", "https://c.example/"] {
        let id = reg.reserve_tab_id();
        reg.complete_new_tab(id, url.to_string(), Ok(())).unwrap();
    }
    reg.remove_tab(&"tab-3".to_string());
    let mut ids = reg.tab_ids();
    ids.sort();
    assert_eq!(ids, vec!["tab-1".to_string(), "tab-2".to_string()]);
    assert_eq!(reg.url_of(&"tab-1".to_string()), Some("https://a.example/".to_string()));
    assert_eq!(reg.url_of(&"tab-3".to_string()), None);
    assert_eq!(reg.active_tab(), "tab-3");
    assert_eq!(reg.tab_counter(), 3);
}

#[test]
fn closing_an_unknown_tab_changes_nothing() {
    let mut reg = TabRegistry::new();
    let id = reg.reserve_tab_id();
    reg.complete_new_tab(id, "https://a.example/".to_string(), Ok(())).unwrap();
    reg.remove_tab(&"tab-9".to_string());
    assert_eq!(reg.tab_ids(), vec!["tab-1".to_string()]);
}

#[test]
fn switching_sets_the_active_tab_only() {
    let mut reg = TabRegistry::new();
    for _ in 0..2 {
        let id = reg.reserve_tab_id();
        reg.complete_new_tab(id, "https://grokipedia.com/".to_string(), Ok(())).unwrap();
    }
    assert_eq!(reg.active_tab(), "tab-2");
    reg.set_active("tab-1".to_string());
    assert_eq!(reg.active_tab(), "tab-1");
    assert_eq!(reg.tab_ids().len(), 2);
    assert_eq!(reg.tab_counter(), 2);
}

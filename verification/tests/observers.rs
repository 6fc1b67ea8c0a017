use store_bridge::observer::{
    applicable_changes, changelist_entry_at, dispatch, store_register_observer,
    store_unregister_observer, tx_change_list_entry_at, CommittedTx, ObserverRegistry,
};

fn tx(txid: i64, changes: Vec<i64>, attributes: Vec<i64>) -> CommittedTx {
    CommittedTx { txid, changes, attributes }
}

#[test]
fn observer_on_a_is_not_invoked_by_a_change_to_b_only() {
    let mut obs = ObserverRegistry::new();
    store_register_observer(&mut obs, "watcher", vec![100]);
    let batch = vec![tx(1000, vec![200], vec![101])];
    let plan = dispatch(&obs, &batch);
    assert!(plan.is_empty());
}

#[test]
fn observer_on_a_is_invoked_exactly_once_by_a_change_to_a() {
    let mut obs = ObserverRegistry::new();
    store_register_observer(&mut obs, "watcher", vec![100]);
    let batch = vec![tx(1000, vec![200, 201], vec![100, 101])];
    let plan = dispatch(&obs, &batch);
    assert_eq!(plan.len(), 1);
    assert_eq!(plan[0].0, "watcher");
    let list = &plan[0].1;
    assert_eq!(list.reports.len(), 1);
    let entry = tx_change_list_entry_at(list, 0).unwrap();
    assert_eq!(entry.txid, 1000);
    assert_eq!(entry.changes, vec![200, 201]);
    assert_eq!(changelist_entry_at(entry, 0), Some(200));
    assert_eq!(changelist_entry_at(entry, 2), None);
    assert!(tx_change_list_entry_at(list, 1).is_none());
}

#[test]
fn dispatch_filters_per_observer_and_keeps_batch_order() {
    let mut obs = ObserverRegistry::new();
    store_register_observer(&mut obs, "first", vec![1]);
    store_register_observer(&mut obs, "second", vec![2]);
    let batch = vec![
        tx(10, vec![500], vec![1]),
        tx(11, vec![501], vec![2]),
        tx(12, vec![502], vec![1, 2]),
    ];
    let plan = dispatch(&obs, &batch);
    assert_eq!(plan.len(), 2);
    assert_eq!(plan[0].0, "first");
    assert_eq!(plan[0].1.reports.len(), 2);
    assert_eq!(plan[0].1.reports[0].txid, 10);
    assert_eq!(plan[0].1.reports[1].txid, 12);
    assert_eq!(plan[1].0, "second");
    assert_eq!(plan[1].1.reports.len(), 2);
    assert_eq!(plan[1].1.reports[0].txid, 11);
    assert_eq!(plan[1].1.reports[1].txid, 12);
}

#[test]
fn applicable_changes_reshapes_only_touching_transactions() {
    let watched = vec![7i64];
    let batch = vec![
        tx(1, vec![30], vec![7]),
        tx(2, vec![31], vec![8]),
        tx(3, vec![32, 33], vec![8, 7]),
    ];
    let list = applicable_changes(&watched, &batch);
    assert_eq!(list.reports.len(), 2);
    assert_eq!(list.reports[0].txid, 1);
    assert_eq!(list.reports[0].changes, vec![30]);
    assert_eq!(list.reports[1].txid, 3);
    assert_eq!(list.reports[1].changes, vec![32, 33]);
}

#[test]
fn reregistering_a_key_replaces_the_subscription() {
    let mut obs = ObserverRegistry::new();
    store_register_observer(&mut obs, "w", vec![1]);
    store_register_observer(&mut obs, "w", vec![2]);
    let batch = vec![tx(5, vec![9], vec![1])];
    assert!(dispatch(&obs, &batch).is_empty());
    let batch2 = vec![tx(6, vec![9], vec![2])];
    let plan = dispatch(&obs, &batch2);
    assert_eq!(plan.len(), 1);
    assert_eq!(plan[0].0, "w");
}

#[test]
fn unregistering_an_unknown_key_is_silent_and_keeps_others() {
    let mut obs = ObserverRegistry::new();
    store_register_observer(&mut obs, "kept", vec![4]);
    store_unregister_observer(&mut obs, "never registered");
    let batch = vec![tx(8, vec![44], vec![4])];
    let plan = dispatch(&obs, &batch);
    assert_eq!(plan.len(), 1);
    assert_eq!(plan[0].0, "kept");
}

#[test]
fn unregistering_removes_only_that_observer() {
    let mut obs = ObserverRegistry::new();
    store_register_observer(&mut obs, "a", vec![1]);
    store_register_observer(&mut obs, "b", vec![1]);
    store_unregister_observer(&mut obs, "a");
    let batch = vec![tx(9, vec![50], vec![1])];
    let plan = dispatch(&obs, &batch);
    assert_eq!(plan.len(), 1);
    assert_eq!(plan[0].0, "b");
}

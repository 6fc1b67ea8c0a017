use store_bridge::envelope::{store_sync, store_transact};
use store_bridge::registry::{tx_report_destroy, Registry};
use store_bridge::report::{
    tx_report_entity_for_temp_id, tx_report_get_entid, tx_report_get_tx_instant, TxReport,
};

#[test]
fn report_accessors_read_id_and_instant() {
    let rep = TxReport::new(268435456, 1523440800, vec![]);
    assert_eq!(rep.get_entid(), 268435456);
    assert_eq!(rep.get_tx_instant(), 1523440800);
}

#[test]
fn tempid_map_resolves_every_referenced_id_and_no_others() {
    let rep = TxReport::new(
        100,
        0,
        vec![
            ("alice".to_string(), 65537),
            ("bob".to_string(), 65538),
            ("carol".to_string(), 65539),
        ],
    );
    assert_eq!(rep.entity_for_temp_id("alice"), Some(65537));
    assert_eq!(rep.entity_for_temp_id("bob"), Some(65538));
    assert_eq!(rep.entity_for_temp_id("carol"), Some(65539));
    assert_eq!(rep.entity_for_temp_id("dave"), None);
    assert_eq!(rep.entity_for_temp_id(""), None);
}

#[test]
fn tempid_map_takes_the_last_resolution_of_a_repeated_id() {
    let rep = TxReport::new(
        100,
        0,
        vec![("x".to_string(), 1), ("x".to_string(), 2)],
    );
    assert_eq!(rep.entity_for_temp_id("x"), Some(2));
}

#[test]
fn transact_success_hands_out_a_report_handle() {
    let mut reg = Registry::new();
    let rep = TxReport::new(7, 99, vec![("t".to_string(), 11)]);
    let r = store_transact(&mut reg, Ok(rep));
    assert!(r.err.is_none());
    assert_eq!(tx_report_get_entid(&reg, r.ok), Some(7));
    assert_eq!(tx_report_get_tx_instant(&reg, r.ok), Some(99));
    assert_eq!(tx_report_entity_for_temp_id(&reg, r.ok, "t"), Some(11));
    assert_eq!(tx_report_entity_for_temp_id(&reg, r.ok, "u"), None);
    assert!(tx_report_destroy(&mut reg, r.ok));
    assert_eq!(tx_report_get_entid(&reg, r.ok), None);
}

#[test]
fn transact_failure_carries_the_engine_message() {
    let mut reg = Registry::new();
    let r = store_transact(&mut reg, Err("conflict".to_string()));
    assert_eq!(r.ok, 0);
    assert_eq!(r.err.as_deref(), Some("conflict"));
}

#[test]
fn sync_outcomes_are_wrapped_like_any_result() {
    let mut reg = Registry::new();
    let ok = store_sync(&mut reg, Ok("synced".to_string()));
    assert!(ok.err.is_none());
    assert!(ok.ok != 0);
    let err = store_sync(&mut reg, Err("server unreachable".to_string()));
    assert_eq!(err.ok, 0);
    assert_eq!(err.err.as_deref(), Some("server unreachable"));
}

#[test]
fn report_clone_preserves_the_map() {
    let rep = TxReport::new(1, 2, vec![("a".to_string(), 3)]);
    let copy = rep.clone();
    assert_eq!(copy.get_entid(), 1);
    assert_eq!(copy.entity_for_temp_id("a"), Some(3));
}

use cozo::ids::{ColId, TableId};

#[test]
fn table_id_new_keeps_fields() {
    let t = TableId::new(true, 42);
    assert!(t.in_root);
    assert_eq!(t.id, 42);
    assert!(t.is_valid());
}

#[test]
fn default_table_id_is_invalid() {
    let t = TableId::default();
    assert!(!t.in_root);
    assert_eq!(t.id, -1);
    assert!(!t.is_valid());
    assert!(TableId::new(false, 0).is_valid());
}

#[test]
fn table_id_from_pair() {
    assert_eq!(TableId::from((true, 7i64)), TableId::new(true, 7));
    assert_eq!(ColId::from((false, 3i64)), ColId::new(false, 3));
    assert_eq!(TableId::from((false, 12usize)), TableId::new(false, 12));
    assert_eq!(ColId::from((true, 0usize)), ColId::new(true, 0));
}

#[test]
fn local_ids_precede_root_ids() {
    assert!(TableId::new(false, 1000) < TableId::new(true, 0));
    assert!(TableId::new(false, 5) < TableId::new(true, -3));
    assert!(TableId::new(true, 0) > TableId::new(false, 1000));
}

#[test]
fn same_scope_orders_by_id() {
    assert!(TableId::new(false, 1) < TableId::new(false, 2));
    assert!(TableId::new(true, -1) < TableId::new(true, 0));
    assert!(!(TableId::new(true, 3) < TableId::new(true, 3)));
    assert_eq!(
        TableId::new(true, 3).partial_cmp(&TableId::new(true, 3)),
        Some(std::cmp::Ordering::Equal)
    );
}

#[test]
fn col_id_orders_value_columns_first() {
    assert!(ColId::new(false, 9) < ColId::new(true, 0));
    assert!(ColId::new(true, 1) < ColId::new(true, 2));
}

#[test]
fn text_forms_of_identities() {
    assert_eq!(TableId::new(true, 42).debug_string(), "#G42");
    assert_eq!(TableId::new(false, 0).debug_string(), "#L0");
    assert_eq!(TableId::default().debug_string(), "#L-1");
    assert_eq!(TableId::new(true, i64::MIN).debug_string(), "#G-9223372036854775808");
    assert_eq!(ColId::new(true, 3).debug_string(), ".K3");
    assert_eq!(ColId::new(false, 1907).debug_string(), ".D1907");
}

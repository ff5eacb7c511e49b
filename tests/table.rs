use cozo::catalog::{Attachment, Field, RawRow, Session};
use cozo::ids::{DataKind, TableId};
use cozo::table::{CatalogError, SchemaFault};

fn s(x: &str) -> String {
    x.to_string()
}

fn text(x: &str) -> Field {
    Field::Text(s(x))
}

fn node_row(in_root: bool, id: i64, keys: &str, vals: &str) -> RawRow {
    RawRow {
        kind: DataKind::Node,
        fields: vec![Field::Bool(in_root), Field::Int(id), text(keys), text(vals)],
        data: vec![1, 2, 3],
    }
}

fn edge_row(id: i64, src: (bool, i64), dst: (bool, i64), keys: &str, vals: &str) -> RawRow {
    RawRow {
        kind: DataKind::Edge,
        fields: vec![
            Field::Bool(true),
            Field::Int(id),
            Field::Bool(src.0),
            Field::Int(src.1),
            Field::Bool(dst.0),
            Field::Int(dst.1),
            text(keys),
            text(vals),
        ],
        data: vec![9, 9],
    }
}

fn assoc_row(in_root: bool, id: i64, vals: &str) -> RawRow {
    RawRow {
        kind: DataKind::Assoc,
        fields: vec![Field::Bool(in_root), Field::Int(id), Field::Null, Field::Null, text(vals)],
        data: vec![7],
    }
}

fn attach(owner: &str, name: &str, row: RawRow) -> Attachment {
    Attachment { owner: s(owner), name: s(name), row }
}

fn cols(v: &[(&str, &str)]) -> Vec<(String, String)> {
    v.iter().map(|(a, b)| (s(a), s(b))).collect()
}

fn graph() -> Session {
    Session {
        tables: vec![
            (s("A"), node_row(true, 1, "{a: Int}", "{x: Str}")),
            (s("B"), node_row(false, 2, "{b: Str}", "{}")),
            (s("E"), edge_row(3, (true, 1), (false, 2), "{w: Int}", "{since: Int, note: Str}")),
        ],
        related: vec![],
    }
}

#[test]
fn unknown_name_is_undefined_table() {
    assert_eq!(graph().get_table_info("Z").unwrap_err(), CatalogError::UndefinedTable(s("Z")));
    let empty = Session { tables: vec![], related: vec![] };
    assert_eq!(empty.get_table_info("").unwrap_err(), CatalogError::UndefinedTable(s("")));
}

#[test]
fn resolves_node_table() {
    let sess = Session {
        tables: vec![(s("person"), node_row(true, 10, "{id: Int}", "{name: Str}"))],
        related: vec![],
    };
    let t = sess.get_table_info("person").unwrap();
    assert_eq!(t.kind, DataKind::Node);
    assert_eq!(t.table_id, TableId::new(true, 10));
    assert_eq!(t.data_keys, vec![s("name")]);
    assert_eq!(t.key_typing, cols(&[("id", "Int")]));
    assert_eq!(t.val_typing, cols(&[("name", "Str")]));
    assert_eq!(t.src_table_id, TableId::default());
    assert_eq!(t.dst_table_id, TableId::default());
    assert!(!t.src_table_id.is_valid());
    assert!(t.src_key_typing.is_empty());
    assert!(t.dst_key_typing.is_empty());
    assert!(t.associates.is_empty());
}

#[test]
fn edge_inherits_endpoint_key_typings() {
    let t = graph().get_table_info("E").unwrap();
    assert_eq!(t.kind, DataKind::Edge);
    assert_eq!(t.table_id, TableId::new(true, 3));
    assert_eq!(t.src_table_id, TableId::new(true, 1));
    assert_eq!(t.dst_table_id, TableId::new(false, 2));
    assert_eq!(t.src_key_typing, cols(&[("a", "Int")]));
    assert_eq!(t.dst_key_typing, cols(&[("b", "Str")]));
    assert_eq!(t.key_typing, cols(&[("w", "Int")]));
    assert_eq!(t.val_typing, cols(&[("since", "Int"), ("note", "Str")]));
    assert_eq!(t.data_keys, vec![s("since"), s("note")]);
}

#[test]
fn dangling_source_is_corrupt_schema() {
    let mut sess = graph();
    sess.tables[2].1 = edge_row(3, (true, 99), (false, 2), "{w: Int}", "{}");
    assert_eq!(
        sess.get_table_info("E").unwrap_err(),
        CatalogError::CorruptSchema(SchemaFault::DanglingSrc)
    );
}

#[test]
fn dangling_destination_is_corrupt_schema() {
    let mut sess = graph();
    sess.tables[2].1 = edge_row(3, (true, 1), (true, 2), "{w: Int}", "{}");
    assert_eq!(
        sess.get_table_info("E").unwrap_err(),
        CatalogError::CorruptSchema(SchemaFault::DanglingDst)
    );
}

#[test]
fn endpoint_that_is_not_a_node_is_dangling() {
    let mut sess = graph();
    sess.tables[2].1 = edge_row(3, (true, 3), (false, 2), "{w: Int}", "{}");
    assert_eq!(
        sess.get_table_info("E").unwrap_err(),
        CatalogError::CorruptSchema(SchemaFault::DanglingSrc)
    );
}

#[test]
fn non_table_kinds_are_unsupported() {
    let mut sess = graph();
    sess.tables.push((s("X"), assoc_row(true, 5, "{v: Int}")));
    sess.tables.push((
        s("I"),
        RawRow { kind: DataKind::Index, fields: vec![], data: vec![] },
    ));
    assert_eq!(
        sess.get_table_info("X").unwrap_err(),
        CatalogError::UnsupportedKind(DataKind::Assoc)
    );
    assert_eq!(
        sess.get_table_info("I").unwrap_err(),
        CatalogError::UnsupportedKind(DataKind::Index)
    );
}

#[test]
fn associates_kept_in_catalog_order() {
    let mut sess = graph();
    sess.related = vec![
        attach("A", "a2", assoc_row(true, 21, "{p: Int, q: Str}")),
        attach("B", "b1", assoc_row(false, 30, "{z: Int}")),
        attach("A", "a1", assoc_row(false, 20, "{r: Bool}")),
    ];
    let t = sess.get_table_info("A").unwrap();
    assert_eq!(t.associates.len(), 2);
    let first = &t.associates[0];
    assert_eq!(first.kind, DataKind::Assoc);
    assert_eq!(first.table_id, TableId::new(true, 21));
    assert_eq!(first.val_typing, cols(&[("p", "Int"), ("q", "Str")]));
    assert_eq!(first.data_keys, vec![s("p"), s("q")]);
    assert!(first.key_typing.is_empty());
    assert_eq!(first.src_table_id, TableId::default());
    assert!(first.associates.is_empty());
    let second = &t.associates[1];
    assert_eq!(second.table_id, TableId::new(false, 20));
    assert_eq!(second.data_keys, vec![s("r")]);
    assert_eq!(sess.get_table_info("B").unwrap().associates.len(), 1);
    assert_eq!(sess.get_table_info("E").unwrap().associates.len(), 0);
}

#[test]
fn nested_associates_are_refused() {
    let mut sess = graph();
    sess.related = vec![
        attach("A", "a1", assoc_row(true, 21, "{p: Int}")),
        attach("a1", "deep", assoc_row(true, 22, "{q: Int}")),
    ];
    assert_eq!(
        sess.get_table_info("A").unwrap_err(),
        CatalogError::CorruptSchema(SchemaFault::NestedAssociates)
    );
}

#[test]
fn data_keys_match_value_names() {
    let t = graph().get_table_info("A").unwrap();
    assert_eq!(t.data_keys, vec![s("x")]);
    let b = graph().get_table_info("B").unwrap();
    assert!(b.data_keys.is_empty());
    assert!(b.val_typing.is_empty());
}

#[test]
fn missing_text_is_bad_data_format() {
    let mut row = node_row(true, 1, "{a: Int}", "{}");
    row.fields[3] = Field::Int(5);
    let sess = Session { tables: vec![(s("A"), row)], related: vec![] };
    assert_eq!(sess.get_table_info("A").unwrap_err(), CatalogError::BadDataFormat(vec![1, 2, 3]));
}

#[test]
fn missing_in_root_is_corrupt_schema() {
    let mut row = node_row(true, 1, "{a: Int}", "{}");
    row.fields[0] = Field::Null;
    let sess = Session { tables: vec![(s("A"), row)], related: vec![] };
    assert_eq!(
        sess.get_table_info("A").unwrap_err(),
        CatalogError::CorruptSchema(SchemaFault::MissingInRoot)
    );
}

#[test]
fn missing_edge_endpoint_is_corrupt_schema() {
    let mut sess = graph();
    sess.tables[2].1.fields[5] = Field::Null;
    assert_eq!(
        sess.get_table_info("E").unwrap_err(),
        CatalogError::CorruptSchema(SchemaFault::MissingDstId)
    );
}

#[test]
fn malformed_typing_is_type_expression_error() {
    let sess = Session {
        tables: vec![(s("A"), node_row(true, 1, "{a Int}", "{}"))],
        related: vec![],
    };
    match sess.get_table_info("A").unwrap_err() {
        CatalogError::TypeExpression(e) => assert_eq!(e.text, s("{a Int}")),
        other => panic!("unexpected {:?}", other),
    }
}

#[test]
fn primitive_typing_is_not_named_tuple() {
    let sess = Session {
        tables: vec![(s("A"), node_row(true, 1, "Int", "{}"))],
        related: vec![],
    };
    assert_eq!(
        sess.get_table_info("A").unwrap_err(),
        CatalogError::CorruptSchema(SchemaFault::NotNamedTuple)
    );
}

#[test]
fn associate_without_typing_is_corrupt_schema() {
    let mut sess = graph();
    let mut row = assoc_row(true, 21, "{p: Int}");
    row.fields.truncate(4);
    sess.related = vec![attach("A", "a1", row)];
    assert_eq!(
        sess.get_table_info("A").unwrap_err(),
        CatalogError::CorruptSchema(SchemaFault::MissingAssocTyping)
    );
}

#[test]
fn lookups_by_name_and_identity() {
    let sess = graph();
    assert_eq!(sess.resolve("B").unwrap().kind, DataKind::Node);
    assert!(sess.resolve("nope").is_none());
    assert_eq!(sess.table_data(3, true).unwrap().kind, DataKind::Edge);
    assert!(sess.table_data(3, false).is_none());
    let row = sess.resolve("A").unwrap();
    assert_eq!(row.get_bool(0), Some(true));
    assert_eq!(row.get_int(1), Some(1));
    assert_eq!(row.get_text(2), Some(&s("{a: Int}")));
    assert_eq!(row.get_int(0), None);
    assert_eq!(row.get_text(9), None);
}

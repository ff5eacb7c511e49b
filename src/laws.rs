use vstd::prelude::*;
use crate::catalog::{find_identity, find_named, Attachment, RawRow, Session};
use crate::ids::{DataKind, TableId};
use crate::table::{
    assoc_spec, assocs_spec, bad_format, decode_cols, decode_endpoint, decode_identity,
    endpoint_keys, main_spec, table_info_spec, ErrorModel, SchemaFault, TableModel,
};
use crate::typing::names_of;

verus! {

pub open spec fn owned_by(name: Seq<char>) -> spec_fn(Attachment) -> bool {
    |x: Attachment| x.owner@ == name
}

/// The attachments of the table named `name`, in catalog order.
pub open spec fn attached(sess: Session, name: Seq<char>) -> Seq<Attachment> {
    sess.related@.filter(owned_by(name))
}

/// Whether no Node row of `sess` carries the identity `t`.
pub open spec fn no_node_with(sess: Session, t: TableId) -> bool {
    forall|k: int|
        0 <= k < sess.tables@.len() ==> !((#[trigger] sess.tables@[k]).1.has_identity(
            t.in_root,
            t.id,
        ) && sess.tables@[k].1.kind == DataKind::Node)
}

proof fn lemma_find_named_none(rows: Seq<(String, RawRow)>, name: Seq<char>, i: int)
    requires
        forall|k: int| 0 <= k < rows.len() ==> (#[trigger] rows[k]).0@ != name,
    ensures
        find_named(rows, name, i) is None,
    decreases rows.len() - i,
{
    if 0 <= i < rows.len() {
        lemma_find_named_none(rows, name, i + 1);
    }
}

proof fn lemma_find_identity_found(rows: Seq<(String, RawRow)>, in_root: bool, id: i64, i: int)
    requires
        find_identity(rows, in_root, id, i) is Some,
    ensures
        0 <= find_identity(rows, in_root, id, i)->Some_0 < rows.len(),
        rows[find_identity(rows, in_root, id, i)->Some_0].1.has_identity(in_root, id),
    decreases rows.len() - i,
{
    if 0 <= i < rows.len() && !rows[i].1.has_identity(in_root, id) {
        lemma_find_identity_found(rows, in_root, id, i + 1);
    }
}

/// A name that no catalog row carries resolves to `UndefinedTable`.
pub proof fn lemma_undefined_table(sess: Session, name: Seq<char>)
    requires
        forall|k: int| 0 <= k < sess.tables@.len() ==> (#[trigger] sess.tables@[k]).0@ != name,
    ensures
        table_info_spec(sess, name) == Err::<(TableModel, Seq<TableModel>), ErrorModel>(
            ErrorModel::UndefinedTable(name),
        ),
{
    lemma_find_named_none(sess.tables@, name, 0);
}

/// A row that is neither a Node nor an Edge is not resolvable as a table.
pub proof fn lemma_unsupported_kind(sess: Session, name: Seq<char>)
    requires
        sess.spec_resolve(name) is Some,
        sess.spec_resolve(name)->Some_0.kind != DataKind::Node,
        sess.spec_resolve(name)->Some_0.kind != DataKind::Edge,
    ensures
        table_info_spec(sess, name) == Err::<(TableModel, Seq<TableModel>), ErrorModel>(
            ErrorModel::UnsupportedKind(sess.spec_resolve(name)->Some_0.kind),
        ),
{
}

/// An edge takes the key typings of its endpoint Node tables verbatim.
pub proof fn lemma_edge_endpoint_keys(sess: Session, name: Seq<char>)
    requires
        table_info_spec(sess, name) is Ok,
        sess.spec_resolve(name)->Some_0.kind == DataKind::Edge,
    ensures
        ({
            let m = table_info_spec(sess, name)->Ok_0.0;
            let s = sess.spec_table_data(m.src_table_id.id, m.src_table_id.in_root);
            let d = sess.spec_table_data(m.dst_table_id.id, m.dst_table_id.in_root);
            &&& m.kind == DataKind::Edge
            &&& s is Some && s->Some_0.kind == DataKind::Node
            &&& decode_cols(s->Some_0, 2, bad_format(s->Some_0)) == Ok::<
                Seq<(Seq<char>, Seq<char>)>,
                ErrorModel,
            >(m.src_key_typing)
            &&& d is Some && d->Some_0.kind == DataKind::Node
            &&& decode_cols(d->Some_0, 2, bad_format(d->Some_0)) == Ok::<
                Seq<(Seq<char>, Seq<char>)>,
                ErrorModel,
            >(m.dst_key_typing)
        }),
{
}

/// An edge whose source identity names no Node row fails as a corrupt schema.
pub proof fn lemma_dangling_src(sess: Session, name: Seq<char>)
    requires
        sess.spec_resolve(name) is Some,
        ({
            let row = sess.spec_resolve(name)->Some_0;
            &&& row.kind == DataKind::Edge
            &&& decode_cols(row, 6, bad_format(row)) is Ok
            &&& decode_cols(row, 7, bad_format(row)) is Ok
            &&& decode_endpoint(row, 2, SchemaFault::MissingSrcInRoot, SchemaFault::MissingSrcId) is Ok
            &&& decode_endpoint(row, 4, SchemaFault::MissingDstInRoot, SchemaFault::MissingDstId) is Ok
            &&& no_node_with(
                sess,
                decode_endpoint(row, 2, SchemaFault::MissingSrcInRoot, SchemaFault::MissingSrcId)->Ok_0,
            )
        }),
    ensures
        table_info_spec(sess, name) == Err::<(TableModel, Seq<TableModel>), ErrorModel>(
            ErrorModel::CorruptSchema(SchemaFault::DanglingSrc),
        ),
{
    let row = sess.spec_resolve(name)->Some_0;
    let t = decode_endpoint(row, 2, SchemaFault::MissingSrcInRoot, SchemaFault::MissingSrcId)->Ok_0;
    if find_identity(sess.tables@, t.in_root, t.id, 0) is Some {
        lemma_find_identity_found(sess.tables@, t.in_root, t.id, 0);
        let k = find_identity(sess.tables@, t.in_root, t.id, 0)->Some_0;
        assert(!(sess.tables@[k].1.has_identity(t.in_root, t.id) && sess.tables@[k].1.kind
            == DataKind::Node));
    }
    assert(endpoint_keys(sess, t, SchemaFault::DanglingSrc) == Err::<
        Seq<(Seq<char>, Seq<char>)>,
        ErrorModel,
    >(ErrorModel::CorruptSchema(SchemaFault::DanglingSrc)));
}

/// An edge whose source resolves but whose destination identity names no
/// Node row fails as a corrupt schema.
pub proof fn lemma_dangling_dst(sess: Session, name: Seq<char>)
    requires
        sess.spec_resolve(name) is Some,
        ({
            let row = sess.spec_resolve(name)->Some_0;
            &&& row.kind == DataKind::Edge
            &&& decode_cols(row, 6, bad_format(row)) is Ok
            &&& decode_cols(row, 7, bad_format(row)) is Ok
            &&& decode_endpoint(row, 2, SchemaFault::MissingSrcInRoot, SchemaFault::MissingSrcId) is Ok
            &&& decode_endpoint(row, 4, SchemaFault::MissingDstInRoot, SchemaFault::MissingDstId) is Ok
            &&& endpoint_keys(
                sess,
                decode_endpoint(row, 2, SchemaFault::MissingSrcInRoot, SchemaFault::MissingSrcId)->Ok_0,
                SchemaFault::DanglingSrc,
            ) is Ok
            &&& no_node_with(
                sess,
                decode_endpoint(row, 4, SchemaFault::MissingDstInRoot, SchemaFault::MissingDstId)->Ok_0,
            )
        }),
    ensures
        table_info_spec(sess, name) == Err::<(TableModel, Seq<TableModel>), ErrorModel>(
            ErrorModel::CorruptSchema(SchemaFault::DanglingDst),
        ),
{
    let row = sess.spec_resolve(name)->Some_0;
    let t = decode_endpoint(row, 4, SchemaFault::MissingDstInRoot, SchemaFault::MissingDstId)->Ok_0;
    if find_identity(sess.tables@, t.in_root, t.id, 0) is Some {
        lemma_find_identity_found(sess.tables@, t.in_root, t.id, 0);
        let k = find_identity(sess.tables@, t.in_root, t.id, 0)->Some_0;
        assert(!(sess.tables@[k].1.has_identity(t.in_root, t.id) && sess.tables@[k].1.kind
            == DataKind::Node));
    }
    assert(endpoint_keys(sess, t, SchemaFault::DanglingDst) == Err::<
        Seq<(Seq<char>, Seq<char>)>,
        ErrorModel,
    >(ErrorModel::CorruptSchema(SchemaFault::DanglingDst)));
}

proof fn lemma_assocs_prefix(sess: Session, name: Seq<char>, n: int)
    requires
        0 <= n <= sess.related@.len(),
        assocs_spec(sess, name, n) is Ok,
    ensures
        ({
            let a = assocs_spec(sess, name, n)->Ok_0;
            let owned = sess.related@.take(n).filter(owned_by(name));
            &&& a.len() == owned.len()
            &&& forall|j: int|
                0 <= j < a.len() ==> assoc_spec(sess, #[trigger] owned[j]) == Ok::<
                    TableModel,
                    ErrorModel,
                >(a[j])
        }),
    decreases n,
{
    if n == 0 {
        assert(sess.related@.take(0) =~= Seq::<Attachment>::empty());
        assert(Seq::<Attachment>::empty().filter(owned_by(name)) =~= Seq::<Attachment>::empty())
            by {
            Seq::<Attachment>::empty().lemma_filter_len(owned_by(name));
        }
    } else {
        lemma_assocs_prefix(sess, name, n - 1);
        let x = sess.related@[n - 1];
        assert(sess.related@.take(n) =~= sess.related@.take(n - 1).push(x));
        sess.related@.take(n - 1).lemma_filter_push(x, owned_by(name));
    }
}

/// The associates of a resolved table are, one for one and in catalog order,
/// the associate rows attached to it: each of kind Assoc, with the identity
/// and value typing of its own row.
pub proof fn lemma_associates_in_catalog_order(sess: Session, name: Seq<char>)
    requires
        table_info_spec(sess, name) is Ok,
    ensures
        ({
            let a = table_info_spec(sess, name)->Ok_0.1;
            let owned = attached(sess, name);
            &&& a.len() == owned.len()
            &&& forall|j: int|
                0 <= j < a.len() ==> {
                    &&& (#[trigger] a[j]).kind == DataKind::Assoc
                    &&& decode_identity(owned[j].row) == Ok::<TableId, ErrorModel>(a[j].table_id)
                    &&& decode_cols(
                        owned[j].row,
                        4,
                        ErrorModel::CorruptSchema(SchemaFault::MissingAssocTyping),
                    ) == Ok::<Seq<(Seq<char>, Seq<char>)>, ErrorModel>(a[j].val_typing)
                    &&& a[j].data_keys == names_of(a[j].val_typing)
                }
        }),
{
    let n = sess.related@.len() as int;
    lemma_assocs_prefix(sess, name, n);
    assert(sess.related@.take(n) =~= sess.related@);
    let a = table_info_spec(sess, name)->Ok_0.1;
    let owned = attached(sess, name);
    assert forall|j: int| 0 <= j < a.len() implies (#[trigger] a[j]).kind == DataKind::Assoc
        && decode_identity(owned[j].row) == Ok::<TableId, ErrorModel>(a[j].table_id) && decode_cols(
        owned[j].row,
        4,
        ErrorModel::CorruptSchema(SchemaFault::MissingAssocTyping),
    ) == Ok::<Seq<(Seq<char>, Seq<char>)>, ErrorModel>(a[j].val_typing) && a[j].data_keys
        == names_of(a[j].val_typing) by {
        assert(assoc_spec(sess, owned[j]) == Ok::<TableModel, ErrorModel>(a[j]));
    }
}

/// The data keys of every description produced, main table and associates
/// alike, are exactly the names of its value typing.
pub proof fn lemma_data_keys_are_value_names(sess: Session, name: Seq<char>)
    requires
        table_info_spec(sess, name) is Ok,
    ensures
        ({
            let (m, a) = table_info_spec(sess, name)->Ok_0;
            &&& m.data_keys.to_set() == names_of(m.val_typing).to_set()
            &&& forall|j: int|
                0 <= j < a.len() ==> (#[trigger] a[j]).data_keys.to_set() == names_of(
                    a[j].val_typing,
                ).to_set()
        }),
{
    lemma_associates_in_catalog_order(sess, name);
    let row = sess.spec_resolve(name)->Some_0;
    assert(main_spec(sess, row) is Ok);
}

} // verus!

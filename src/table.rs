use vstd::prelude::*;
use crate::catalog::{Attachment, RawRow, Session};
use crate::ids::{DataKind, TableId};
use crate::typing::{
    cols_view, names_of, strs_view, typing_of, Typing, TypingError, TypingModel,
};

verus! {

/// Which expected part of a catalog entry was missing or inconsistent.
#[derive(Clone, Copy, Debug, PartialEq, Eq, Structural)]
pub enum SchemaFault {
    MissingInRoot,
    MissingTableId,
    MissingSrcInRoot,
    MissingSrcId,
    MissingDstInRoot,
    MissingDstId,
    NotNamedTuple,
    DanglingSrc,
    DanglingDst,
    MissingAssocTyping,
    NestedAssociates,
}

/// Why a table could not be resolved.
#[derive(Clone, Debug, PartialEq, Eq)]
pub enum CatalogError {
    UndefinedTable(String),
    BadDataFormat(Vec<u8>),
    CorruptSchema(SchemaFault),
    UnsupportedKind(DataKind),
    TypeExpression(TypingError),
}

pub enum ErrorModel {
    UndefinedTable(Seq<char>),
    BadDataFormat(Seq<u8>),
    CorruptSchema(SchemaFault),
    UnsupportedKind(DataKind),
    TypeExpression(Seq<char>),
}

impl View for CatalogError {
    type V = ErrorModel;

    open spec fn view(&self) -> ErrorModel {
        match self {
            CatalogError::UndefinedTable(s) => ErrorModel::UndefinedTable(s@),
            CatalogError::BadDataFormat(b) => ErrorModel::BadDataFormat(b@),
            CatalogError::CorruptSchema(f) => ErrorModel::CorruptSchema(*f),
            CatalogError::UnsupportedKind(k) => ErrorModel::UnsupportedKind(*k),
            CatalogError::TypeExpression(e) => ErrorModel::TypeExpression(e.text@),
        }
    }
}

pub type Cols = Seq<(Seq<char>, Seq<char>)>;

/// Abstract value of one table description, without its associates.
pub struct TableModel {
    pub kind: DataKind,
    pub table_id: TableId,
    pub src_table_id: TableId,
    pub dst_table_id: TableId,
    pub data_keys: Seq<Seq<char>>,
    pub key_typing: Cols,
    pub val_typing: Cols,
    pub src_key_typing: Cols,
    pub dst_key_typing: Cols,
}

/// The typed description of a table, with the associate tables attached to it.
#[derive(Debug, PartialEq, Eq)]
pub struct TableInfo {
    pub kind: DataKind,
    pub table_id: TableId,
    pub src_table_id: TableId,
    pub dst_table_id: TableId,
    pub data_keys: Vec<String>,
    pub key_typing: Vec<(String, String)>,
    pub val_typing: Vec<(String, String)>,
    pub src_key_typing: Vec<(String, String)>,
    pub dst_key_typing: Vec<(String, String)>,
    pub associates: Vec<TableInfo>,
}

impl TableInfo {
    pub open spec fn flat(&self) -> TableModel {
        TableModel {
            kind: self.kind,
            table_id: self.table_id,
            src_table_id: self.src_table_id,
            dst_table_id: self.dst_table_id,
            data_keys: strs_view(self.data_keys@),
            key_typing: cols_view(self.key_typing@),
            val_typing: cols_view(self.val_typing@),
            src_key_typing: cols_view(self.src_key_typing@),
            dst_key_typing: cols_view(self.dst_key_typing@),
        }
    }

    /// This value is `m` with one flat level of associates.
    pub open spec fn models(&self, m: (TableModel, Seq<TableModel>)) -> bool {
        &&& self.flat() == m.0
        &&& self.associates@.len() == m.1.len()
        &&& forall|i: int|
            0 <= i < m.1.len() ==> (#[trigger] self.associates@[i]).flat() == m.1[i]
                && self.associates@[i].associates@.len() == 0
    }
}

/// The named columns held as type text at `pos` of `row`; `missing` when no
/// text stands there.
pub open spec fn decode_cols(row: RawRow, pos: int, missing: ErrorModel) -> Result<Cols, ErrorModel> {
    match row.text_at(pos) {
        None => Err(missing),
        Some(t) => match typing_of(t) {
            None => Err(ErrorModel::TypeExpression(t)),
            Some(TypingModel::Prim(_)) => Err(ErrorModel::CorruptSchema(SchemaFault::NotNamedTuple)),
            Some(TypingModel::Tuple(c)) => Ok(c),
        },
    }
}

pub open spec fn decode_bool(row: RawRow, pos: int, fault: SchemaFault) -> Result<bool, ErrorModel> {
    match row.bool_at(pos) {
        Some(b) => Ok(b),
        None => Err(ErrorModel::CorruptSchema(fault)),
    }
}

pub open spec fn decode_int(row: RawRow, pos: int, fault: SchemaFault) -> Result<i64, ErrorModel> {
    match row.int_at(pos) {
        Some(n) => Ok(n),
        None => Err(ErrorModel::CorruptSchema(fault)),
    }
}

/// The row's own identity, from positions 0 and 1.
pub open spec fn decode_identity(row: RawRow) -> Result<TableId, ErrorModel> {
    match decode_bool(row, 0, SchemaFault::MissingInRoot) {
        Err(e) => Err(e),
        Ok(r) => match decode_int(row, 1, SchemaFault::MissingTableId) {
            Err(e) => Err(e),
            Ok(id) => Ok(TableId { in_root: r, id }),
        },
    }
}

pub open spec fn bad_format(row: RawRow) -> ErrorModel {
    ErrorModel::BadDataFormat(row.data@)
}

fn typing_error(e: TypingError) -> (r: CatalogError)
    ensures
        r@ == ErrorModel::TypeExpression(e.text@),
{
    CatalogError::TypeExpression(e)
}

fn bad_data(row: &RawRow) -> (r: CatalogError)
    ensures
        r@ == bad_format(*row),
{
    CatalogError::BadDataFormat(row.data.clone())
}

/// Decodes the named columns held as type text at `pos` of `row`.
fn get_cols(row: &RawRow, pos: usize, missing: CatalogError) -> (r: Result<
    Vec<(String, String)>,
    CatalogError,
>)
    ensures
        match r {
            Ok(v) => decode_cols(*row, pos as int, missing@) == Ok::<Cols, ErrorModel>(cols_view(v@)),
            Err(e) => decode_cols(*row, pos as int, missing@) == Err::<Cols, ErrorModel>(e@),
        },
{
    match row.get_text(pos) {
        None => Err(missing),
        Some(t) => match Typing::parse(t.as_str()) {
            Err(e) => Err(typing_error(e)),
            Ok(ty) => match ty.extract_named_tuple() {
                None => Err(CatalogError::CorruptSchema(SchemaFault::NotNamedTuple)),
                Some(cols) => Ok(cols),
            },
        },
    }
}

fn get_bool(row: &RawRow, pos: usize, fault: SchemaFault) -> (r: Result<bool, CatalogError>)
    ensures
        match r {
            Ok(b) => decode_bool(*row, pos as int, fault) == Ok::<bool, ErrorModel>(b),
            Err(e) => decode_bool(*row, pos as int, fault) == Err::<bool, ErrorModel>(e@),
        },
{
    match row.get_bool(pos) {
        Some(b) => Ok(b),
        None => Err(CatalogError::CorruptSchema(fault)),
    }
}

fn get_int(row: &RawRow, pos: usize, fault: SchemaFault) -> (r: Result<i64, CatalogError>)
    ensures
        match r {
            Ok(n) => decode_int(*row, pos as int, fault) == Ok::<i64, ErrorModel>(n),
            Err(e) => decode_int(*row, pos as int, fault) == Err::<i64, ErrorModel>(e@),
        },
{
    match row.get_int(pos) {
        Some(n) => Ok(n),
        None => Err(CatalogError::CorruptSchema(fault)),
    }
}

fn get_identity(row: &RawRow) -> (r: Result<TableId, CatalogError>)
    ensures
        match r {
            Ok(t) => decode_identity(*row) == Ok::<TableId, ErrorModel>(t),
            Err(e) => decode_identity(*row) == Err::<TableId, ErrorModel>(e@),
        },
{
    let in_root = match get_bool(row, 0, SchemaFault::MissingInRoot) {
        Ok(b) => b,
        Err(e) => return Err(e),
    };
    let id = match get_int(row, 1, SchemaFault::MissingTableId) {
        Ok(n) => n,
        Err(e) => return Err(e),
    };
    Ok(TableId::new(in_root, id))
}

/// The names of `cols`, in order.
fn column_names(cols: &Vec<(String, String)>) -> (r: Vec<String>)
    ensures
        strs_view(r@) == names_of(cols_view(cols@)),
{
    let mut r: Vec<String> = Vec::new();
    let mut i: usize = 0;
    while i < cols.len()
        invariant
            i <= cols.len(),
            strs_view(r@) == names_of(cols_view(cols@)).take(i as int),
        decreases cols.len() - i,
    {
        let nm = cols[i].0.clone();
        assert(nm@ == names_of(cols_view(cols@))[i as int]);
        let ghost prev = r@;
        r.push(nm);
        assert(strs_view(r@) =~= strs_view(prev).push(nm@));
        assert(names_of(cols_view(cols@)).take(i + 1) =~= names_of(cols_view(cols@)).take(
            i as int,
        ).push(nm@));
        i = i + 1;
    }
    assert(names_of(cols_view(cols@)).take(i as int) =~= names_of(cols_view(cols@)));
    r
}

/// The description of a Node row: key typing at 2, value typing at 3.
pub open spec fn node_spec(row: RawRow) -> Result<TableModel, ErrorModel> {
    match decode_cols(row, 2, bad_format(row)) {
        Err(e) => Err(e),
        Ok(k) => match decode_cols(row, 3, bad_format(row)) {
            Err(e) => Err(e),
            Ok(v) => match decode_identity(row) {
                Err(e) => Err(e),
                Ok(tid) => Ok(
                    TableModel {
                        kind: DataKind::Node,
                        table_id: tid,
                        src_table_id: TableId::invalid(),
                        dst_table_id: TableId::invalid(),
                        data_keys: names_of(v),
                        key_typing: k,
                        val_typing: v,
                        src_key_typing: Seq::empty(),
                        dst_key_typing: Seq::empty(),
                    },
                ),
            },
        },
    }
}

/// The key typing of the Node table that an edge points to; `dangling` when
/// no Node row carries that identity.
pub open spec fn endpoint_keys(sess: Session, t: TableId, dangling: SchemaFault) -> Result<Cols, ErrorModel> {
    match sess.spec_table_data(t.id, t.in_root) {
        None => Err(ErrorModel::CorruptSchema(dangling)),
        Some(r) => if r.kind != DataKind::Node {
            Err(ErrorModel::CorruptSchema(dangling))
        } else {
            decode_cols(r, 2, bad_format(r))
        },
    }
}

/// The endpoint identity at positions `pos` and `pos + 1` of an Edge row.
pub open spec fn decode_endpoint(row: RawRow, pos: int, f_root: SchemaFault, f_id: SchemaFault) -> Result<TableId, ErrorModel> {
    match decode_bool(row, pos, f_root) {
        Err(e) => Err(e),
        Ok(r) => match decode_int(row, pos + 1, f_id) {
            Err(e) => Err(e),
            Ok(id) => Ok(TableId { in_root: r, id }),
        },
    }
}

/// The description of an Edge row: endpoints at 2..5, own key typing at 6,
/// value typing at 7, and the key typings of both endpoint Node tables.
pub open spec fn edge_spec(sess: Session, row: RawRow) -> Result<TableModel, ErrorModel> {
    match decode_cols(row, 6, bad_format(row)) {
        Err(e) => Err(e),
        Ok(k) => match decode_cols(row, 7, bad_format(row)) {
            Err(e) => Err(e),
            Ok(v) => match decode_endpoint(row, 2, SchemaFault::MissingSrcInRoot, SchemaFault::MissingSrcId) {
                Err(e) => Err(e),
                Ok(src) => match decode_endpoint(row, 4, SchemaFault::MissingDstInRoot, SchemaFault::MissingDstId) {
                    Err(e) => Err(e),
                    Ok(dst) => match endpoint_keys(sess, src, SchemaFault::DanglingSrc) {
                        Err(e) => Err(e),
                        Ok(sk) => match endpoint_keys(sess, dst, SchemaFault::DanglingDst) {
                            Err(e) => Err(e),
                            Ok(dk) => match decode_identity(row) {
                                Err(e) => Err(e),
                                Ok(tid) => Ok(
                                    TableModel {
                                        kind: DataKind::Edge,
                                        table_id: tid,
                                        src_table_id: src,
                                        dst_table_id: dst,
                                        data_keys: names_of(v),
                                        key_typing: k,
                                        val_typing: v,
                                        src_key_typing: sk,
                                        dst_key_typing: dk,
                                    },
                                ),
                            },
                        },
                    },
                },
            },
        },
    }
}

fn node_info(row: &RawRow) -> (r: Result<TableInfo, CatalogError>)
    ensures
        match r {
            Ok(t) => node_spec(*row) == Ok::<TableModel, ErrorModel>(t.flat()) && t.associates@.len() == 0,
            Err(e) => node_spec(*row) == Err::<TableModel, ErrorModel>(e@),
        },
{
    let key_typing = match get_cols(row, 2, bad_data(row)) {
        Ok(c) => c,
        Err(e) => return Err(e),
    };
    let val_typing = match get_cols(row, 3, bad_data(row)) {
        Ok(c) => c,
        Err(e) => return Err(e),
    };
    let table_id = match get_identity(row) {
        Ok(t) => t,
        Err(e) => return Err(e),
    };
    let data_keys = column_names(&val_typing);
    let src_key_typing: Vec<(String, String)> = Vec::new();
    let dst_key_typing: Vec<(String, String)> = Vec::new();
    let r = TableInfo {
        kind: DataKind::Node,
        table_id,
        src_table_id: TableId::default(),
        dst_table_id: TableId::default(),
        data_keys,
        key_typing,
        val_typing,
        src_key_typing,
        dst_key_typing,
        associates: Vec::new(),
    };
    assert(cols_view(r.src_key_typing@) =~= Seq::empty());
    assert(cols_view(r.dst_key_typing@) =~= Seq::empty());
    Ok(r)
}

fn get_endpoint(row: &RawRow, pos: usize, f_root: SchemaFault, f_id: SchemaFault) -> (r: Result<TableId, CatalogError>)
    requires
        pos < 8,
    ensures
        match r {
            Ok(t) => decode_endpoint(*row, pos as int, f_root, f_id) == Ok::<TableId, ErrorModel>(t),
            Err(e) => decode_endpoint(*row, pos as int, f_root, f_id) == Err::<TableId, ErrorModel>(e@),
        },
{
    let in_root = match get_bool(row, pos, f_root) {
        Ok(b) => b,
        Err(e) => return Err(e),
    };
    let id = match get_int(row, pos + 1, f_id) {
        Ok(n) => n,
        Err(e) => return Err(e),
    };
    Ok(TableId::new(in_root, id))
}

fn get_endpoint_keys(sess: &Session, t: TableId, dangling: SchemaFault) -> (r: Result<Vec<(String, String)>, CatalogError>)
    ensures
        match r {
            Ok(v) => endpoint_keys(*sess, t, dangling) == Ok::<Cols, ErrorModel>(cols_view(v@)),
            Err(e) => endpoint_keys(*sess, t, dangling) == Err::<Cols, ErrorModel>(e@),
        },
{
    match sess.table_data(t.id, t.in_root) {
        None => Err(CatalogError::CorruptSchema(dangling)),
        Some(r) => {
            if r.data_kind() != DataKind::Node {
                Err(CatalogError::CorruptSchema(dangling))
            } else {
                get_cols(r, 2, bad_data(r))
            }
        },
    }
}

fn edge_info(sess: &Session, row: &RawRow) -> (r: Result<TableInfo, CatalogError>)
    ensures
        match r {
            Ok(t) => edge_spec(*sess, *row) == Ok::<TableModel, ErrorModel>(t.flat()) && t.associates@.len() == 0,
            Err(e) => edge_spec(*sess, *row) == Err::<TableModel, ErrorModel>(e@),
        },
{
    let key_typing = match get_cols(row, 6, bad_data(row)) {
        Ok(c) => c,
        Err(e) => return Err(e),
    };
    let val_typing = match get_cols(row, 7, bad_data(row)) {
        Ok(c) => c,
        Err(e) => return Err(e),
    };
    let src_table_id = match get_endpoint(row, 2, SchemaFault::MissingSrcInRoot, SchemaFault::MissingSrcId) {
        Ok(t) => t,
        Err(e) => return Err(e),
    };
    let dst_table_id = match get_endpoint(row, 4, SchemaFault::MissingDstInRoot, SchemaFault::MissingDstId) {
        Ok(t) => t,
        Err(e) => return Err(e),
    };
    let src_key_typing = match get_endpoint_keys(sess, src_table_id, SchemaFault::DanglingSrc) {
        Ok(c) => c,
        Err(e) => return Err(e),
    };
    let dst_key_typing = match get_endpoint_keys(sess, dst_table_id, SchemaFault::DanglingDst) {
        Ok(c) => c,
        Err(e) => return Err(e),
    };
    let table_id = match get_identity(row) {
        Ok(t) => t,
        Err(e) => return Err(e),
    };
    let data_keys = column_names(&val_typing);
    Ok(TableInfo {
        kind: DataKind::Edge,
        table_id,
        src_table_id,
        dst_table_id,
        data_keys,
        key_typing,
        val_typing,
        src_key_typing,
        dst_key_typing,
        associates: Vec::new(),
    })
}

/// The description of an associate row: value typing at 4 and its own
/// identity; an associate that has associates of its own is refused.
pub open spec fn assoc_spec(sess: Session, a: Attachment) -> Result<TableModel, ErrorModel> {
    match decode_cols(a.row, 4, ErrorModel::CorruptSchema(SchemaFault::MissingAssocTyping)) {
        Err(e) => Err(e),
        Ok(v) => match decode_identity(a.row) {
            Err(e) => Err(e),
            Ok(tid) => if sess.has_related(a.name@) {
                Err(ErrorModel::CorruptSchema(SchemaFault::NestedAssociates))
            } else {
                Ok(
                    TableModel {
                        kind: DataKind::Assoc,
                        table_id: tid,
                        src_table_id: TableId::invalid(),
                        dst_table_id: TableId::invalid(),
                        data_keys: names_of(v),
                        key_typing: Seq::empty(),
                        val_typing: v,
                        src_key_typing: Seq::empty(),
                        dst_key_typing: Seq::empty(),
                    },
                )
            },
        },
    }
}

/// The associates of `name` among the first `n` attachments, in catalog order.
pub open spec fn assocs_spec(sess: Session, name: Seq<char>, n: int) -> Result<Seq<TableModel>, ErrorModel>
    decreases n,
{
    if n <= 0 {
        Ok(Seq::empty())
    } else {
        match assocs_spec(sess, name, n - 1) {
            Err(e) => Err(e),
            Ok(prev) => if sess.related@[n - 1].owner@ != name {
                Ok(prev)
            } else {
                match assoc_spec(sess, sess.related@[n - 1]) {
                    Err(e) => Err(e),
                    Ok(a) => Ok(prev.push(a)),
                }
            },
        }
    }
}

/// The main description of the row named `name`, by its kind.
pub open spec fn main_spec(sess: Session, row: RawRow) -> Result<TableModel, ErrorModel> {
    if row.kind == DataKind::Node {
        node_spec(row)
    } else if row.kind == DataKind::Edge {
        edge_spec(sess, row)
    } else {
        Err(ErrorModel::UnsupportedKind(row.kind))
    }
}

/// What resolving `name` in `sess` yields: the table's description and its
/// associates, or the first failure met.
pub open spec fn table_info_spec(sess: Session, name: Seq<char>) -> Result<(TableModel, Seq<TableModel>), ErrorModel> {
    match sess.spec_resolve(name) {
        None => Err(ErrorModel::UndefinedTable(name)),
        Some(row) => match main_spec(sess, row) {
            Err(e) => Err(e),
            Ok(m) => match assocs_spec(sess, name, sess.related@.len() as int) {
                Err(e) => Err(e),
                Ok(a) => Ok((m, a)),
            },
        },
    }
}

/// `r` is the outcome that `s` describes.
pub open spec fn outcome_is(r: Result<TableInfo, CatalogError>, s: Result<(TableModel, Seq<TableModel>), ErrorModel>) -> bool {
    match r {
        Ok(t) => match s {
            Ok(m) => t.models(m),
            Err(_) => false,
        },
        Err(e) => s == Err::<(TableModel, Seq<TableModel>), ErrorModel>(e@),
    }
}

proof fn lemma_assocs_err_sticks(sess: Session, name: Seq<char>, k: int, n: int)
    requires
        k <= n,
        assocs_spec(sess, name, k) is Err,
    ensures
        assocs_spec(sess, name, n) == assocs_spec(sess, name, k),
    decreases n - k,
{
    if k < n {
        lemma_assocs_err_sticks(sess, name, k, n - 1);
    }
}

fn assoc_info(sess: &Session, a: &Attachment) -> (r: Result<TableInfo, CatalogError>)
    ensures
        match r {
            Ok(t) => assoc_spec(*sess, *a) == Ok::<TableModel, ErrorModel>(t.flat()) && t.associates@.len() == 0,
            Err(e) => assoc_spec(*sess, *a) == Err::<TableModel, ErrorModel>(e@),
        },
{
    let val_typing = match get_cols(&a.row, 4, CatalogError::CorruptSchema(SchemaFault::MissingAssocTyping)) {
        Ok(c) => c,
        Err(e) => return Err(e),
    };
    let table_id = match get_identity(&a.row) {
        Ok(t) => t,
        Err(e) => return Err(e),
    };
    if sess.has_related_tables(&a.name) {
        return Err(CatalogError::CorruptSchema(SchemaFault::NestedAssociates));
    }
    let data_keys = column_names(&val_typing);
    let r = TableInfo {
        kind: DataKind::Assoc,
        table_id,
        src_table_id: TableId::default(),
        dst_table_id: TableId::default(),
        data_keys,
        key_typing: Vec::new(),
        val_typing,
        src_key_typing: Vec::new(),
        dst_key_typing: Vec::new(),
        associates: Vec::new(),
    };
    assert(cols_view(r.key_typing@) =~= Seq::empty());
    assert(cols_view(r.src_key_typing@) =~= Seq::empty());
    assert(cols_view(r.dst_key_typing@) =~= Seq::empty());
    Ok(r)
}

impl Session {
    /// Resolves `tbl_name` to its typed description: the row's own columns,
    /// for an edge the key typings of both endpoint node tables, and every
    /// associate table attached to it, in catalog order.
    pub fn get_table_info(&self, tbl_name: &str) -> (r: Result<TableInfo, CatalogError>)
        ensures
            outcome_is(r, table_info_spec(*self, tbl_name@)),
    {
        let row = match self.resolve(tbl_name) {
            None => return Err(CatalogError::UndefinedTable(tbl_name.to_owned())),
            Some(row) => row,
        };
        let kind = row.data_kind();
        let main = if kind == DataKind::Node {
            node_info(row)
        } else if kind == DataKind::Edge {
            edge_info(self, row)
        } else {
            return Err(CatalogError::UnsupportedKind(kind));
        };
        let mut info = match main {
            Ok(t) => t,
            Err(e) => return Err(e),
        };
        let ghost m = info.flat();
        let name = tbl_name.to_owned();
        let mut i: usize = 0;
        while i < self.related.len()
            invariant
                i <= self.related.len(),
                name@ == tbl_name@,
                info.flat() == m,
                self.spec_resolve(tbl_name@) == Some(*row),
                main_spec(*self, *row) == Ok::<TableModel, ErrorModel>(m),
                assocs_spec(*self, tbl_name@, i as int) is Ok,
                info.models((m, assocs_spec(*self, tbl_name@, i as int)->Ok_0)),
            decreases self.related.len() - i,
        {
            let a = &self.related[i];
            if a.owner == name {
                match assoc_info(self, a) {
                    Err(e) => {
                        assert(assocs_spec(*self, tbl_name@, i + 1) == Err::<Seq<TableModel>, ErrorModel>(e@));
                        proof {
                            lemma_assocs_err_sticks(*self, tbl_name@, i + 1, self.related@.len() as int);
                        }
                        return Err(e);
                    },
                    Ok(t) => {
                        info.associates.push(t);
                    },
                }
            }
            i = i + 1;
        }
        Ok(info)
    }
}

} // verus!

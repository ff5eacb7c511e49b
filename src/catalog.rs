use vstd::prelude::*;
use crate::ids::DataKind;

verus! {

/// One positional field of a catalog row.
#[derive(Clone, Debug, PartialEq, Eq)]
pub enum Field {
    Null,
    Bool(bool),
    Int(i64),
    Text(String),
}

/// A persisted catalog row: its kind, its positional fields, and the raw
/// bytes it was read from (kept for diagnostics).
#[derive(Clone, Debug, PartialEq, Eq)]
pub struct RawRow {
    pub kind: DataKind,
    pub fields: Vec<Field>,
    pub data: Vec<u8>,
}

impl RawRow {
    pub open spec fn bool_at(&self, pos: int) -> Option<bool> {
        if 0 <= pos < self.fields@.len() {
            match self.fields@[pos] {
                Field::Bool(b) => Some(b),
                _ => None,
            }
        } else {
            None
        }
    }

    pub open spec fn int_at(&self, pos: int) -> Option<i64> {
        if 0 <= pos < self.fields@.len() {
            match self.fields@[pos] {
                Field::Int(n) => Some(n),
                _ => None,
            }
        } else {
            None
        }
    }

    pub open spec fn text_at(&self, pos: int) -> Option<Seq<char>> {
        if 0 <= pos < self.fields@.len() {
            match self.fields@[pos] {
                Field::Text(s) => Some(s@),
                _ => None,
            }
        } else {
            None
        }
    }

    /// Whether this row carries the identity `(in_root, id)` at its first two positions.
    pub open spec fn has_identity(&self, in_root: bool, id: i64) -> bool {
        self.bool_at(0) == Some(in_root) && self.int_at(1) == Some(id)
    }

    pub fn data_kind(&self) -> (r: DataKind)
        ensures
            r == self.kind,
    {
        self.kind
    }

    pub fn get_bool(&self, pos: usize) -> (r: Option<bool>)
        ensures
            r == self.bool_at(pos as int),
    {
        if pos < self.fields.len() {
            match &self.fields[pos] {
                Field::Bool(b) => Some(*b),
                _ => None,
            }
        } else {
            None
        }
    }

    pub fn get_int(&self, pos: usize) -> (r: Option<i64>)
        ensures
            r == self.int_at(pos as int),
    {
        if pos < self.fields.len() {
            match &self.fields[pos] {
                Field::Int(n) => Some(*n),
                _ => None,
            }
        } else {
            None
        }
    }

    pub fn get_text(&self, pos: usize) -> (r: Option<&String>)
        ensures
            match r {
                Some(s) => self.text_at(pos as int) == Some(s@),
                None => self.text_at(pos as int) is None,
            },
    {
        if pos < self.fields.len() {
            match &self.fields[pos] {
                Field::Text(s) => Some(s),
                _ => None,
            }
        } else {
            None
        }
    }
}

/// Index of the first row at or after `i` named `name`.
pub open spec fn find_named(rows: Seq<(String, RawRow)>, name: Seq<char>, i: int) -> Option<int>
    decreases rows.len() - i,
{
    if i < 0 || i >= rows.len() {
        None
    } else if rows[i].0@ == name {
        Some(i)
    } else {
        find_named(rows, name, i + 1)
    }
}

/// Index of the first row at or after `i` that carries the identity `(in_root, id)`.
pub open spec fn find_identity(rows: Seq<(String, RawRow)>, in_root: bool, id: i64, i: int) -> Option<int>
    decreases rows.len() - i,
{
    if i < 0 || i >= rows.len() {
        None
    } else if rows[i].1.has_identity(in_root, id) {
        Some(i)
    } else {
        find_identity(rows, in_root, id, i + 1)
    }
}

/// An attachment of an associate table to a main table.
#[derive(Clone, Debug, PartialEq, Eq)]
pub struct Attachment {
    pub owner: String,
    pub name: String,
    pub row: RawRow,
}

/// A consistent snapshot of the catalog: named table rows, and the
/// associate rows attached to main tables, in catalog order.
#[derive(Clone, Debug, PartialEq, Eq)]
pub struct Session {
    pub tables: Vec<(String, RawRow)>,
    pub related: Vec<Attachment>,
}

impl Session {
    pub open spec fn spec_resolve(&self, name: Seq<char>) -> Option<RawRow> {
        match find_named(self.tables@, name, 0) {
            Some(i) => Some(self.tables@[i].1),
            None => None,
        }
    }

    pub open spec fn spec_table_data(&self, id: i64, in_root: bool) -> Option<RawRow> {
        match find_identity(self.tables@, in_root, id, 0) {
            Some(i) => Some(self.tables@[i].1),
            None => None,
        }
    }

    /// Whether some associate row is attached to the table named `name`.
    pub open spec fn has_related(&self, name: Seq<char>) -> bool {
        exists|j: int| 0 <= j < self.related@.len() && (#[trigger] self.related@[j]).owner@ == name
    }

    /// The catalog row named `name`.
    pub fn resolve(&self, name: &str) -> (r: Option<&RawRow>)
        ensures
            match r {
                Some(row) => self.spec_resolve(name@) == Some(*row),
                None => self.spec_resolve(name@) is None,
            },
    {
        let key = name.to_owned();
        let mut i: usize = 0;
        while i < self.tables.len()
            invariant
                i <= self.tables.len(),
                key@ == name@,
                find_named(self.tables@, name@, 0) == find_named(self.tables@, name@, i as int),
            decreases self.tables.len() - i,
        {
            if self.tables[i].0 == key {
                return Some(&self.tables[i].1);
            }
            i = i + 1;
        }
        None
    }

    /// The catalog row that carries the identity `(in_root, id)`.
    pub fn table_data(&self, id: i64, in_root: bool) -> (r: Option<&RawRow>)
        ensures
            match r {
                Some(row) => self.spec_table_data(id, in_root) == Some(*row),
                None => self.spec_table_data(id, in_root) is None,
            },
    {
        let mut i: usize = 0;
        while i < self.tables.len()
            invariant
                i <= self.tables.len(),
                find_identity(self.tables@, in_root, id, 0) == find_identity(
                    self.tables@,
                    in_root,
                    id,
                    i as int,
                ),
            decreases self.tables.len() - i,
        {
            let row = &self.tables[i].1;
            if row.get_bool(0) == Some(in_root) && row.get_int(1) == Some(id) {
                return Some(row);
            }
            i = i + 1;
        }
        None
    }

    /// Whether some associate row is attached to the table named `name`.
    pub fn has_related_tables(&self, name: &String) -> (r: bool)
        ensures
            r == self.has_related(name@),
    {
        let mut i: usize = 0;
        while i < self.related.len()
            invariant
                i <= self.related.len(),
                forall|j: int| 0 <= j < i ==> (#[trigger] self.related@[j]).owner@ != name@,
            decreases self.related.len() - i,
        {
            if self.related[i].owner == *name {
                return true;
            }
            i = i + 1;
        }
        false
    }
}

} // verus!

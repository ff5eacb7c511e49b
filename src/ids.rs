use vstd::prelude::*;
use vstd::std_specs::cmp::PartialOrdSpec;
use vstd::string::*;

verus! {

/// Identity of a table: a scope flag and a numeric id within that scope.
#[derive(Clone, Copy, Debug, Hash, PartialEq, Eq, Structural, Ord)]
pub struct TableId {
    pub in_root: bool,
    pub id: i64,
}

/// Lexicographic order over `(in_root, id)`, local scope (`false`) first.
pub open spec fn scoped_cmp(a_flag: bool, a_id: i64, b_flag: bool, b_id: i64) -> core::cmp::Ordering {
    if a_flag != b_flag {
        if !a_flag {
            core::cmp::Ordering::Less
        } else {
            core::cmp::Ordering::Greater
        }
    } else if a_id < b_id {
        core::cmp::Ordering::Less
    } else if a_id > b_id {
        core::cmp::Ordering::Greater
    } else {
        core::cmp::Ordering::Equal
    }
}

fn scoped_compare(a_flag: bool, a_id: i64, b_flag: bool, b_id: i64) -> (r: core::cmp::Ordering)
    ensures
        r == scoped_cmp(a_flag, a_id, b_flag, b_id),
{
    if a_flag != b_flag {
        if !a_flag {
            core::cmp::Ordering::Less
        } else {
            core::cmp::Ordering::Greater
        }
    } else if a_id < b_id {
        core::cmp::Ordering::Less
    } else if a_id > b_id {
        core::cmp::Ordering::Greater
    } else {
        core::cmp::Ordering::Equal
    }
}

pub open spec fn digit_char(d: nat) -> char {
    if d == 0 { '0' } else if d == 1 { '1' } else if d == 2 { '2' } else if d == 3 { '3' }
    else if d == 4 { '4' } else if d == 5 { '5' } else if d == 6 { '6' } else if d == 7 { '7' }
    else if d == 8 { '8' } else { '9' }
}

/// Decimal digits of `n`, most significant first.
pub open spec fn decimal(n: nat) -> Seq<char>
    decreases n,
{
    if n < 10 {
        seq![digit_char(n)]
    } else {
        decimal(n / 10).push(digit_char(n % 10))
    }
}

/// Decimal form of `n`, with a leading `-` when negative.
pub open spec fn signed_decimal(n: int) -> Seq<char> {
    if n < 0 {
        seq!['-'] + decimal((-n) as nat)
    } else {
        decimal(n as nat)
    }
}

fn digit_str(d: u64) -> (r: &'static str)
    requires
        d < 10,
    ensures
        r@ == seq![digit_char(d as nat)],
{
    proof {
        reveal_strlit("0");
        reveal_strlit("1");
        reveal_strlit("2");
        reveal_strlit("3");
        reveal_strlit("4");
        reveal_strlit("5");
        reveal_strlit("6");
        reveal_strlit("7");
        reveal_strlit("8");
        reveal_strlit("9");
    }
    if d == 0 { "0" } else if d == 1 { "1" } else if d == 2 { "2" } else if d == 3 { "3" }
    else if d == 4 { "4" } else if d == 5 { "5" } else if d == 6 { "6" } else if d == 7 { "7" }
    else if d == 8 { "8" } else { "9" }
}

fn push_decimal(out: &mut String, n: u64)
    ensures
        final(out)@ == old(out)@ + decimal(n as nat),
    decreases n,
{
    if n >= 10 {
        push_decimal(out, n / 10);
    }
    out.append(digit_str(n % 10));
    assert(final(out)@ =~= old(out)@ + decimal(n as nat));
}

/// `prefix` followed by the decimal form of `n`.
fn render_id(prefix: &str, n: i64) -> (r: String)
    ensures
        r@ == prefix@ + signed_decimal(n as int),
{
    let mut out = String::from_str(prefix);
    if n < 0 {
        proof {
            reveal_strlit("-");
        }
        out.append("-");
        let m: u64 = (-(n as i128)) as u64;
        push_decimal(&mut out, m);
        assert(out@ =~= prefix@ + signed_decimal(n as int));
    } else {
        push_decimal(&mut out, n as u64);
    }
    out
}

impl TableId {
    pub fn new(in_root: bool, id: i64) -> (r: TableId)
        ensures
            r.in_root == in_root,
            r.id == id,
    {
        TableId { in_root, id }
    }

    pub open spec fn spec_is_valid(&self) -> bool {
        self.id >= 0
    }

    pub fn is_valid(&self) -> (r: bool)
        ensures
            r == self.spec_is_valid(),
    {
        self.id >= 0
    }

    /// Short text form: `#G` (root scope) or `#L` (local scope), then the id.
    pub fn debug_string(&self) -> (r: String)
        ensures
            r@ == seq!['#', if self.in_root { 'G' } else { 'L' }] + signed_decimal(self.id as int),
    {
        if self.in_root {
            proof {
                reveal_strlit("#G");
            }
            render_id("#G", self.id)
        } else {
            proof {
                reveal_strlit("#L");
            }
            render_id("#L", self.id)
        }
    }

    /// The identity that stands for "no table": local scope, id `-1`.
    pub open spec fn invalid() -> TableId {
        TableId { in_root: false, id: -1i64 }
    }
}

impl Default for TableId {
    fn default() -> (r: TableId)
        ensures
            r == TableId::invalid(),
    {
        TableId { in_root: false, id: -1 }
    }
}

impl PartialOrd for TableId {
    fn partial_cmp(&self, other: &TableId) -> (r: Option<core::cmp::Ordering>)
        ensures
            r == Some(scoped_cmp(self.in_root, self.id, other.in_root, other.id)),
    {
        Some(scoped_compare(self.in_root, self.id, other.in_root, other.id))
    }
}

impl vstd::std_specs::cmp::PartialOrdSpecImpl for TableId {
    open spec fn obeys_partial_cmp_spec() -> bool {
        true
    }

    open spec fn partial_cmp_spec(&self, other: &TableId) -> Option<core::cmp::Ordering> {
        Some(scoped_cmp(self.in_root, self.id, other.in_root, other.id))
    }
}

impl From<(bool, i64)> for TableId {
    fn from(p: (bool, i64)) -> (r: TableId) {
        TableId { in_root: p.0, id: p.1 }
    }
}

impl From<(bool, usize)> for TableId {
    fn from(p: (bool, usize)) -> (r: TableId) {
        TableId { in_root: p.0, id: p.1 as i64 }
    }
}

impl vstd::std_specs::convert::FromSpecImpl<(bool, usize)> for TableId {
    open spec fn obeys_from_spec() -> bool {
        true
    }

    open spec fn from_spec(p: (bool, usize)) -> TableId {
        TableId { in_root: p.0, id: p.1 as i64 }
    }
}

impl vstd::std_specs::convert::FromSpecImpl<(bool, i64)> for TableId {
    open spec fn obeys_from_spec() -> bool {
        true
    }

    open spec fn from_spec(p: (bool, i64)) -> TableId {
        TableId { in_root: p.0, id: p.1 }
    }
}

/// Identity of a column: whether it belongs to the key part, and its index.
#[derive(Clone, Copy, Debug, Hash, PartialEq, Eq, Structural, Ord)]
pub struct ColId {
    pub is_key: bool,
    pub id: i64,
}

impl ColId {
    pub fn new(is_key: bool, id: i64) -> (r: ColId)
        ensures
            r.is_key == is_key,
            r.id == id,
    {
        ColId { is_key, id }
    }

    /// Short text form: `.K` (key column) or `.D` (value column), then the id.
    pub fn debug_string(&self) -> (r: String)
        ensures
            r@ == seq!['.', if self.is_key { 'K' } else { 'D' }] + signed_decimal(self.id as int),
    {
        if self.is_key {
            proof {
                reveal_strlit(".K");
            }
            render_id(".K", self.id)
        } else {
            proof {
                reveal_strlit(".D");
            }
            render_id(".D", self.id)
        }
    }
}

impl PartialOrd for ColId {
    fn partial_cmp(&self, other: &ColId) -> (r: Option<core::cmp::Ordering>)
        ensures
            r == Some(scoped_cmp(self.is_key, self.id, other.is_key, other.id)),
    {
        Some(scoped_compare(self.is_key, self.id, other.is_key, other.id))
    }
}

impl vstd::std_specs::cmp::PartialOrdSpecImpl for ColId {
    open spec fn obeys_partial_cmp_spec() -> bool {
        true
    }

    open spec fn partial_cmp_spec(&self, other: &ColId) -> Option<core::cmp::Ordering> {
        Some(scoped_cmp(self.is_key, self.id, other.is_key, other.id))
    }
}

impl From<(bool, i64)> for ColId {
    fn from(p: (bool, i64)) -> (r: ColId) {
        ColId { is_key: p.0, id: p.1 }
    }
}

impl From<(bool, usize)> for ColId {
    fn from(p: (bool, usize)) -> (r: ColId) {
        ColId { is_key: p.0, id: p.1 as i64 }
    }
}

impl vstd::std_specs::convert::FromSpecImpl<(bool, usize)> for ColId {
    open spec fn obeys_from_spec() -> bool {
        true
    }

    open spec fn from_spec(p: (bool, usize)) -> ColId {
        ColId { is_key: p.0, id: p.1 as i64 }
    }
}

impl vstd::std_specs::convert::FromSpecImpl<(bool, i64)> for ColId {
    open spec fn obeys_from_spec() -> bool {
        true
    }

    open spec fn from_spec(p: (bool, i64)) -> ColId {
        ColId { is_key: p.0, id: p.1 }
    }
}

/// What a catalog row describes.
#[derive(Clone, Copy, Debug, Hash, PartialEq, Eq, Structural)]
pub enum DataKind {
    Node,
    Edge,
    Assoc,
    Index,
    Value,
    Type,
}

/// Scope order on table identities: every local id precedes every root id,
/// whatever the numeric ids, and within one scope identities follow their
/// numeric ids.
pub proof fn lemma_table_id_order(x: TableId, y: TableId, z: TableId)
    requires
        !x.in_root,
        !y.in_root,
        z.in_root,
    ensures
        x.partial_cmp_spec(&z) == Some(core::cmp::Ordering::Less),
        z.partial_cmp_spec(&x) == Some(core::cmp::Ordering::Greater),
        (x.partial_cmp_spec(&y) == Some(core::cmp::Ordering::Less)) <==> (x.id < y.id),
        (x.partial_cmp_spec(&y) == Some(core::cmp::Ordering::Equal)) <==> (x.id == y.id),
{
}

} // verus!

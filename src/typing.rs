use vstd::prelude::*;
use vstd::string::*;

verus! {

pub open spec fn is_ws(c: char) -> bool {
    c == ' ' || c == '\t' || c == '\n' || c == '\r'
}

pub open spec fn is_ident_char(c: char) -> bool {
    ('a' <= c && c <= 'z') || ('A' <= c && c <= 'Z') || ('0' <= c && c <= '9') || c == '_'
}

pub open spec fn is_ident(s: Seq<char>) -> bool {
    s.len() > 0 && forall|i: int| 0 <= i < s.len() ==> is_ident_char(#[trigger] s[i])
}

pub open spec fn trim_start(s: Seq<char>) -> Seq<char>
    decreases s.len(),
{
    if s.len() > 0 && is_ws(s[0]) {
        trim_start(s.drop_first())
    } else {
        s
    }
}

pub open spec fn trim_end(s: Seq<char>) -> Seq<char>
    decreases s.len(),
{
    if s.len() > 0 && is_ws(s.last()) {
        trim_end(s.drop_last())
    } else {
        s
    }
}

/// `s` without leading and trailing whitespace.
pub open spec fn trim(s: Seq<char>) -> Seq<char> {
    trim_end(trim_start(s))
}

/// Left-to-right split state: the finished pieces and the piece being read.
pub open spec fn split_acc(s: Seq<char>, sep: char) -> (Seq<Seq<char>>, Seq<char>)
    decreases s.len(),
{
    if s.len() == 0 {
        (Seq::empty(), Seq::empty())
    } else {
        let (done, cur) = split_acc(s.drop_last(), sep);
        if s.last() == sep {
            (done.push(cur), Seq::empty())
        } else {
            (done, cur.push(s.last()))
        }
    }
}

/// The pieces of `s` between occurrences of `sep` (always at least one).
pub open spec fn split(s: Seq<char>, sep: char) -> Seq<Seq<char>> {
    split_acc(s, sep).0.push(split_acc(s, sep).1)
}

/// A column declaration `name : type`, surrounding whitespace allowed.
pub open spec fn column_of(f: Seq<char>) -> Option<(Seq<char>, Seq<char>)> {
    let parts = split(f, ':');
    if parts.len() == 2 && is_ident(trim(parts[0])) && is_ident(trim(parts[1])) {
        Some((trim(parts[0]), trim(parts[1])))
    } else {
        None
    }
}

pub open spec fn names_of(cols: Seq<(Seq<char>, Seq<char>)>) -> Seq<Seq<char>> {
    cols.map_values(|c: (Seq<char>, Seq<char>)| c.0)
}

/// Abstract value of a type expression.
pub enum TypingModel {
    Prim(Seq<char>),
    Tuple(Seq<(Seq<char>, Seq<char>)>),
}

/// The columns of a `{...}` body.
pub open spec fn columns_of(body: Seq<char>) -> Option<Seq<(Seq<char>, Seq<char>)>> {
    if trim(body).len() == 0 {
        Some(Seq::empty())
    } else {
        let parts = split(body, ',');
        let cols = parts.map_values(|f: Seq<char>| column_of(f)->0);
        if (forall|i: int| 0 <= i < parts.len() ==> (#[trigger] column_of(parts[i])) is Some)
            && names_of(cols).no_duplicates() {
            Some(cols)
        } else {
            None
        }
    }
}

/// What a type expression text denotes: a primitive type name, or a named
/// tuple `{n1: T1, n2: T2, ...}` with distinct names; `None` when malformed.
pub open spec fn typing_of(s: Seq<char>) -> Option<TypingModel> {
    let c = trim(s);
    if is_ident(c) {
        Some(TypingModel::Prim(c))
    } else if c.len() >= 2 && c[0] == '{' && c.last() == '}' {
        match columns_of(c.subrange(1, c.len() - 1)) {
            Some(cols) => Some(TypingModel::Tuple(cols)),
            None => None,
        }
    } else {
        None
    }
}

pub open spec fn cols_view(v: Seq<(String, String)>) -> Seq<(Seq<char>, Seq<char>)> {
    v.map_values(|p: (String, String)| (p.0@, p.1@))
}

/// A parsed type expression.
#[derive(Clone, Debug, PartialEq, Eq)]
pub enum Typing {
    Prim(String),
    Tuple(Vec<(String, String)>),
}

impl View for Typing {
    type V = TypingModel;

    open spec fn view(&self) -> TypingModel {
        match self {
            Typing::Prim(s) => TypingModel::Prim(s@),
            Typing::Tuple(v) => TypingModel::Tuple(cols_view(v@)),
        }
    }
}

/// Why a type expression text was refused: the text itself.
#[derive(Clone, Debug, PartialEq, Eq)]
pub struct TypingError {
    pub text: String,
}

proof fn lemma_trim_start_skip(s: Seq<char>, i: int)
    requires
        0 <= i < s.len(),
        is_ws(s[i]),
    ensures
        trim_start(s.subrange(i, s.len() as int)) == trim_start(s.subrange(i + 1, s.len() as int)),
{
    assert(s.subrange(i, s.len() as int).drop_first() =~= s.subrange(i + 1, s.len() as int));
}

proof fn lemma_trim_end_skip(s: Seq<char>, i: int, j: int)
    requires
        0 <= i < j <= s.len(),
        is_ws(s[j - 1]),
    ensures
        trim_end(s.subrange(i, j)) == trim_end(s.subrange(i, j - 1)),
{
    assert(s.subrange(i, j).drop_last() =~= s.subrange(i, j - 1));
}

fn is_ws_char(c: char) -> (r: bool)
    ensures
        r == is_ws(c),
{
    c == ' ' || c == '\t' || c == '\n' || c == '\r'
}

fn is_ident_str(s: &str) -> (r: bool)
    ensures
        r == is_ident(s@),
{
    let n = s.unicode_len();
    if n == 0 {
        return false;
    }
    let mut i: usize = 0;
    while i < n
        invariant
            n == s@.len(),
            i <= n,
            forall|k: int| 0 <= k < i ==> is_ident_char(#[trigger] s@[k]),
        decreases n - i,
    {
        let c = s.get_char(i);
        if !(('a' <= c && c <= 'z') || ('A' <= c && c <= 'Z') || ('0' <= c && c <= '9') || c
            == '_') {
            return false;
        }
        i = i + 1;
    }
    true
}

/// Removes leading and trailing whitespace.
pub fn trim_str(s: &str) -> (r: String)
    ensures
        r@ == trim(s@),
{
    let n = s.unicode_len();
    let mut i: usize = 0;
    assert(s@ =~= s@.subrange(0, n as int));
    while i < n && is_ws_char(s.get_char(i))
        invariant
            n == s@.len(),
            i <= n,
            trim_start(s@) == trim_start(s@.subrange(i as int, n as int)),
        decreases n - i,
    {
        proof {
            lemma_trim_start_skip(s@, i as int);
        }
        i = i + 1;
    }
    let ghost t = s@.subrange(i as int, n as int);
    assert(trim_start(t) == t);
    let mut j: usize = n;
    while j > i && is_ws_char(s.get_char(j - 1))
        invariant
            n == s@.len(),
            i <= j <= n,
            t == s@.subrange(i as int, n as int),
            trim_end(t) == trim_end(s@.subrange(i as int, j as int)),
        decreases j,
    {
        proof {
            lemma_trim_end_skip(s@, i as int, j as int);
        }
        j = j - 1;
    }
    let r = s.substring_char(i, j).to_owned();
    r
}

pub open spec fn strs_view(v: Seq<String>) -> Seq<Seq<char>> {
    v.map_values(|x: String| x@)
}

/// Splits `s` at every occurrence of `sep`.
pub fn split_str(s: &str, sep: char) -> (r: Vec<String>)
    ensures
        strs_view(r@) == split(s@, sep),
{
    let n = s.unicode_len();
    let mut done: Vec<String> = Vec::new();
    let mut start: usize = 0;
    let mut i: usize = 0;
    assert(s@.take(0) =~= Seq::<char>::empty());
    while i < n
        invariant
            n == s@.len(),
            start <= i <= n,
            split_acc(s@.take(i as int), sep) == (
            strs_view(done@),
            s@.subrange(start as int, i as int),
            ),
        decreases n - i,
    {
        let c = s.get_char(i);
        assert(s@.take(i + 1).drop_last() =~= s@.take(i as int));
        assert(s@.take(i + 1).last() == c);
        if c == sep {
            let piece = s.substring_char(start, i).to_owned();
            done.push(piece);
            assert(strs_view(done@) =~= split_acc(s@.take(i as int), sep).0.push(piece@));
            start = i + 1;
            assert(s@.subrange(start as int, i + 1) =~= Seq::<char>::empty());
        } else {
            assert(s@.subrange(start as int, i + 1) =~= s@.subrange(start as int, i as int).push(
                c,
            ));
        }
        i = i + 1;
    }
    let last = s.substring_char(start, n).to_owned();
    done.push(last);
    assert(s@.take(n as int) =~= s@);
    assert(strs_view(done@) =~= split(s@, sep));
    done
}

fn parse_column(f: &str) -> (r: Option<(String, String)>)
    ensures
        match r {
            Some(p) => column_of(f@) == Some((p.0@, p.1@)),
            None => column_of(f@) is None,
        },
{
    let parts = split_str(f, ':');
    if parts.len() != 2 {
        return None;
    }
    assert(parts@[0]@ == split(f@, ':')[0]);
    assert(parts@[1]@ == split(f@, ':')[1]);
    let name = trim_str(parts[0].as_str());
    let ty = trim_str(parts[1].as_str());
    if is_ident_str(name.as_str()) && is_ident_str(ty.as_str()) {
        Some((name, ty))
    } else {
        None
    }
}

fn has_name(cols: &Vec<(String, String)>, name: &String) -> (r: bool)
    ensures
        r == names_of(cols_view(cols@)).contains(name@),
{
    let mut i: usize = 0;
    while i < cols.len()
        invariant
            i <= cols.len(),
            forall|k: int| 0 <= k < i ==> cols@[k].0@ != name@,
        decreases cols.len() - i,
    {
        if cols[i].0 == *name {
            assert(names_of(cols_view(cols@))[i as int] == name@);
            return true;
        }
        i = i + 1;
    }
    assert forall|k: int| 0 <= k < cols@.len() implies names_of(cols_view(cols@))[k]
        != name@ by {}
    false
}

proof fn lemma_push_names(cols: Seq<(String, String)>, c: (String, String))
    requires
        names_of(cols_view(cols)).no_duplicates(),
        !names_of(cols_view(cols)).contains(c.0@),
    ensures
        names_of(cols_view(cols.push(c))).no_duplicates(),
        names_of(cols_view(cols.push(c))) == names_of(cols_view(cols)).push(c.0@),
{
    assert(names_of(cols_view(cols.push(c))) =~= names_of(cols_view(cols)).push(c.0@));
}

/// Parses the inside of a `{...}` named tuple.
fn parse_columns(body: &str) -> (r: Option<Vec<(String, String)>>)
    ensures
        match r {
            Some(v) => columns_of(body@) == Some(cols_view(v@)),
            None => columns_of(body@) is None,
        },
{
    let t = trim_str(body);
    if t.unicode_len() == 0 {
        let v: Vec<(String, String)> = Vec::new();
        assert(cols_view(v@) =~= Seq::empty());
        return Some(v);
    }
    let parts = split_str(body, ',');
    let ghost sp = split(body@, ',');
    let ghost want = sp.map_values(|f: Seq<char>| column_of(f)->0);
    let mut cols: Vec<(String, String)> = Vec::new();
    let mut i: usize = 0;
    while i < parts.len()
        invariant
            i <= parts.len(),
            strs_view(parts@) == sp,
            sp == split(body@, ','),
            trim(body@).len() != 0,
            want == sp.map_values(|f: Seq<char>| column_of(f)->0),
            cols_view(cols@) == want.take(i as int),
            forall|k: int| 0 <= k < i ==> (#[trigger] column_of(sp[k])) is Some,
            names_of(cols_view(cols@)).no_duplicates(),
        decreases parts.len() - i,
    {
        assert(parts@[i as int]@ == sp[i as int]);
        match parse_column(parts[i].as_str()) {
            None => {
                assert(column_of(sp[i as int]) is None);
                assert(columns_of(body@) is None);
                return None;
            },
            Some(c) => {
                assert(want[i as int] == (c.0@, c.1@));
                if has_name(&cols, &c.0) {
                    proof {
                        let k = choose|k: int|
                            0 <= k < names_of(cols_view(cols@)).len() && names_of(
                                cols_view(cols@),
                            )[k] == c.0@;
                        let full = names_of(want);
                        assert(full[k] == c.0@);
                        assert(full[i as int] == c.0@);
                        assert(k != i);
                        assert(!full.no_duplicates());
                        assert(columns_of(body@) is None);
                    }
                    return None;
                }
                proof {
                    lemma_push_names(cols@, c);
                }
                cols.push(c);
                assert(cols_view(cols@) =~= want.take(i + 1));
            },
        }
        i = i + 1;
    }
    assert(want.take(i as int) =~= want);
    Some(cols)
}

impl Typing {
    /// Parses a type expression text.
    pub fn parse(text: &str) -> (r: Result<Typing, TypingError>)
        ensures
            match r {
                Ok(t) => typing_of(text@) == Some(t@),
                Err(e) => typing_of(text@) is None && e.text@ == text@,
            },
    {
        let c = trim_str(text);
        if is_ident_str(c.as_str()) {
            return Ok(Typing::Prim(c));
        }
        let n = c.unicode_len();
        if n >= 2 && c.as_str().get_char(0) == '{' && c.as_str().get_char(n - 1) == '}' {
            let body = c.as_str().substring_char(1, n - 1);
            match parse_columns(body) {
                Some(cols) => Ok(Typing::Tuple(cols)),
                None => Err(TypingError { text: text.to_owned() }),
            }
        } else {
            Err(TypingError { text: text.to_owned() })
        }
    }

    /// The ordered named columns, when this is a named tuple.
    pub fn extract_named_tuple(self) -> (r: Option<Vec<(String, String)>>)
        ensures
            match self@ {
                TypingModel::Tuple(cols) => r is Some && cols_view(r->0@) == cols,
                TypingModel::Prim(_) => r is None,
            },
    {
        match self {
            Typing::Tuple(cols) => Some(cols),
            Typing::Prim(_) => None,
        }
    }
}

} // verus!

use vstd::prelude::*;

verus! {

/// One attribute value as the store holds it.
#[derive(Debug, PartialEq)]
pub enum Value {
    S(String),
    N(String),
    B(Vec<u8>),
    Bool(bool),
    Null,
    L(Vec<Value>),
    M(Vec<(String, Value)>),
    Ss(Vec<String>),
    Ns(Vec<String>),
    Bs(Vec<Vec<u8>>),
}

/// What contracts see of a value: the text of a string or a number, and any
/// other value as it is (the library only carries those).
pub enum AttrView {
    Str(Seq<char>),
    Num(Seq<char>),
    Other(Value),
}

impl View for Value {
    type V = AttrView;

    open spec fn view(&self) -> AttrView {
        match self {
            Value::S(s) => AttrView::Str(s@),
            Value::N(n) => AttrView::Num(n@),
            _ => AttrView::Other(*self),
        }
    }
}

/// The text of a value that has one (a string or a number).
pub open spec fn text_of(v: AttrView) -> Option<Seq<char>> {
    match v {
        AttrView::Str(t) => Some(t),
        AttrView::Num(t) => Some(t),
        AttrView::Other(_) => None,
    }
}

/// A value that can stand in a primary key: a string or a number.
pub open spec fn is_key_value(v: AttrView) -> bool {
    text_of(v) is Some
}

/// A record: attribute names with their values, as an item of the store.
#[derive(Debug, PartialEq)]
pub struct Record {
    pub fields: Vec<(String, Value)>,
}

pub type RecordView = Seq<(Seq<char>, AttrView)>;

impl View for Record {
    type V = RecordView;

    open spec fn view(&self) -> RecordView {
        self.fields@.map_values(|p: (String, Value)| (p.0@, p.1@))
    }
}

/// Index of the first entry named `name` at or after `i`, or -1.
pub open spec fn find_from(r: RecordView, name: Seq<char>, i: int) -> int
    decreases r.len() - i,
{
    if i < 0 || i >= r.len() {
        -1
    } else if r[i].0 == name {
        i
    } else {
        find_from(r, name, i + 1)
    }
}

/// Index of the first entry named `name`, or -1.
pub open spec fn first_index(r: RecordView, name: Seq<char>) -> int {
    find_from(r, name, 0)
}

/// The value of the first entry named `name`.
pub open spec fn lookup(r: RecordView, name: Seq<char>) -> Option<AttrView> {
    let k = first_index(r, name);
    if k < 0 {
        None
    } else {
        Some(r[k].1)
    }
}

/// `r` with the first entry named `name` set to `v`, or with a new entry
/// appended when there is none.
pub open spec fn put(r: RecordView, name: Seq<char>, v: AttrView) -> RecordView {
    let k = first_index(r, name);
    if k < 0 {
        r.push((name, v))
    } else {
        r.update(k, (name, v))
    }
}

proof fn lemma_find_from(r: RecordView, name: Seq<char>, i: int)
    requires
        0 <= i,
    ensures
        find_from(r, name, i) == -1 || i <= find_from(r, name, i) < r.len(),
        find_from(r, name, i) >= 0 ==> r[find_from(r, name, i)].0 == name,
        find_from(r, name, i) >= 0 ==> forall|j: int|
            i <= j < find_from(r, name, i) ==> r[j].0 != name,
        find_from(r, name, i) < 0 ==> forall|j: int| i <= j < r.len() ==> r[j].0 != name,
    decreases r.len() - i,
{
    if i < r.len() && r[i].0 != name {
        lemma_find_from(r, name, i + 1);
    }
}

pub proof fn lemma_first_index(r: RecordView, name: Seq<char>)
    ensures
        -1 <= first_index(r, name) < r.len(),
        first_index(r, name) >= 0 ==> r[first_index(r, name)].0 == name,
        first_index(r, name) >= 0 ==> forall|j: int|
            0 <= j < first_index(r, name) ==> r[j].0 != name,
        first_index(r, name) < 0 ==> forall|j: int| 0 <= j < r.len() ==> r[j].0 != name,
{
    lemma_find_from(r, name, 0);
}

pub proof fn lemma_first_index_exact(r: RecordView, name: Seq<char>, k: int)
    requires
        -1 <= k < r.len(),
        k >= 0 ==> r[k].0 == name,
        forall|j: int| 0 <= j < r.len() && (k < 0 || j < k) ==> r[j].0 != name,
    ensures
        first_index(r, name) == k,
{
    lemma_first_index(r, name);
    let f = first_index(r, name);
    if f >= 0 && k >= 0 {
        assert(f == k) by {
            if f < k {
                assert(r[f].0 != name);
            } else if k < f {
                assert(r[k].0 != name);
            }
        }
    } else if f >= 0 {
        assert(r[f].0 != name);
    } else if k >= 0 {
        assert(r[k].0 != name);
    }
}

/// Whether two strings hold the same characters.
pub fn str_eq(a: &str, b: &str) -> (r: bool)
    ensures
        r == (a@ == b@),
{
    let n = a.unicode_len();
    if n != b.unicode_len() {
        return false;
    }
    let mut i: usize = 0;
    while i < n
        invariant
            n == a@.len(),
            n == b@.len(),
            0 <= i <= n,
            a@.subrange(0, i as int) == b@.subrange(0, i as int),
        decreases n - i,
    {
        if a.get_char(i) != b.get_char(i) {
            assert(a@[i as int] != b@[i as int]);
            return false;
        }
        assert(a@.subrange(0, i + 1) == a@.subrange(0, i as int).push(a@[i as int]));
        assert(b@.subrange(0, i + 1) == b@.subrange(0, i as int).push(b@[i as int]));
        i = i + 1;
    }
    assert(a@ == a@.subrange(0, n as int));
    assert(b@ == b@.subrange(0, n as int));
    true
}

/// Whether `s` begins with `p`.
pub fn starts_with(s: &str, p: &str) -> (r: bool)
    ensures
        r == p@.is_prefix_of(s@),
{
    let n = p.unicode_len();
    if n > s.unicode_len() {
        return false;
    }
    let mut i: usize = 0;
    while i < n
        invariant
            n == p@.len(),
            n <= s@.len(),
            0 <= i <= n,
            p@.subrange(0, i as int) == s@.subrange(0, i as int),
        decreases n - i,
    {
        if p.get_char(i) != s.get_char(i) {
            assert(p@[i as int] != s@[i as int]);
            return false;
        }
        assert(p@.subrange(0, i + 1) == p@.subrange(0, i as int).push(p@[i as int]));
        assert(s@.subrange(0, i + 1) == s@.subrange(0, i as int).push(s@[i as int]));
        i = i + 1;
    }
    assert(p@ == p@.subrange(0, n as int));
    true
}

impl Value {
    /// The text of a string or a number, copied; `None` for other values.
    pub fn text(&self) -> (r: Option<String>)
        ensures
            r matches Some(t) ==> text_of(self@) == Some(t@),
            r is None ==> text_of(self@) is None,
    {
        match self {
            Value::S(s) => Some(s.clone()),
            Value::N(n) => Some(n.clone()),
            _ => None,
        }
    }

    /// Whether this value can stand in a primary key.
    pub fn is_key(&self) -> (r: bool)
        ensures
            r == is_key_value(self@),
    {
        match self {
            Value::S(_) => true,
            Value::N(_) => true,
            _ => false,
        }
    }

    /// A copy of a key value.
    pub fn copy_key(&self) -> (r: Value)
        requires
            is_key_value(self@),
        ensures
            r@ == self@,
    {
        match self {
            Value::S(s) => Value::S(s.clone()),
            Value::N(n) => Value::N(n.clone()),
            _ => Value::Null,
        }
    }
}

impl Record {
    /// Position of the first entry named `name`.
    pub fn position(&self, name: &str) -> (r: Option<usize>)
        ensures
            r matches Some(k) ==> first_index(self@, name@) == k && k < self.fields@.len(),
            r is None ==> first_index(self@, name@) < 0,
    {
        let mut i: usize = 0;
        while i < self.fields.len()
            invariant
                0 <= i <= self.fields@.len(),
                forall|j: int| 0 <= j < i ==> self@[j].0 != name@,
            decreases self.fields@.len() - i,
        {
            if str_eq(self.fields[i].0.as_str(), name) {
                proof {
                    lemma_first_index_exact(self@, name@, i as int);
                }
                return Some(i);
            }
            i = i + 1;
        }
        proof {
            lemma_first_index_exact(self@, name@, -1);
        }
        None
    }

    /// The value of the first entry named `name`.
    pub fn get(&self, name: &str) -> (r: Option<&Value>)
        ensures
            r matches Some(v) ==> lookup(self@, name@) == Some(v@),
            r is None ==> lookup(self@, name@) is None,
    {
        match self.position(name) {
            Some(k) => Some(&self.fields[k].1),
            None => None,
        }
    }

    /// Sets the first entry named `name` to `v`, or appends the entry.
    pub fn put(&mut self, name: &str, v: Value)
        ensures
            final(self)@ == put(old(self)@, name@, v@),
    {
        let ghost before = self@;
        match self.position(name) {
            Some(k) => {
                self.fields.set(k, (String::from_str(name), v));
            },
            None => {
                self.fields.push((String::from_str(name), v));
            },
        }
        assert(self@ =~= put(before, name@, v@));
    }
}

} // verus!

//! Result values and records: what a backend returns for each WMI instance.
//!
//! A `Record` keeps its properties ordered by name, as a `BTreeMap<String, _>` would: names
//! compare character by character by code point (which is byte order of their UTF-8), and each
//! name occurs once.
use vstd::prelude::*;
use crate::text::{chars_of, decimal, extend_str, push_decimal, push_signed_decimal, signed_decimal};

verus! {

/// A property value.
///
/// A floating-point value is held as its decimal text, as Rust's `Display` for `f64` writes it.
#[derive(Debug, PartialEq)]
pub enum Value {
    Null,
    String(String),
    Signed(i64),
    Unsigned(u64),
    Float(String),
    Bool(bool),
    Array(Vec<Value>),
    Object(String),
}

/// A value with text as character sequences and arrays as sequences of item views.
pub enum ValueView {
    Null,
    String(Seq<char>),
    Signed(i64),
    Unsigned(u64),
    Float(Seq<char>),
    Bool(bool),
    Array(Seq<ValueView>),
    Object(Seq<char>),
}

pub open spec fn value_view(v: Value) -> ValueView
    decreases v,
{
    match v {
        Value::Null => ValueView::Null,
        Value::String(s) => ValueView::String(s@),
        Value::Signed(n) => ValueView::Signed(n),
        Value::Unsigned(n) => ValueView::Unsigned(n),
        Value::Float(s) => ValueView::Float(s@),
        Value::Bool(b) => ValueView::Bool(b),
        Value::Array(vs) => ValueView::Array(items_view(vs@)),
        Value::Object(s) => ValueView::Object(s@),
    }
}

pub open spec fn items_view(vs: Seq<Value>) -> Seq<ValueView>
    decreases vs,
{
    if vs.len() == 0 {
        Seq::empty()
    } else {
        items_view(vs.subrange(0, vs.len() - 1)).push(value_view(vs[vs.len() - 1]))
    }
}

impl View for Value {
    type V = ValueView;

    open spec fn view(&self) -> ValueView {
        value_view(*self)
    }
}

/// How WMIC prints a value: nothing for null, `TRUE`/`FALSE` for booleans, decimal numbers,
/// and arrays as `{a; b}`.
pub open spec fn value_text(v: ValueView) -> Seq<char>
    decreases v,
{
    match v {
        ValueView::Null => Seq::empty(),
        ValueView::String(s) => s,
        ValueView::Signed(n) => signed_decimal(n as int),
        ValueView::Unsigned(n) => decimal(n as nat),
        ValueView::Float(s) => s,
        ValueView::Bool(b) => if b {
            "TRUE"@
        } else {
            "FALSE"@
        },
        ValueView::Array(vs) => "{"@ + items_text(vs) + "}"@,
        ValueView::Object(s) => s,
    }
}

/// The texts of array items separated by `; `.
pub open spec fn items_text(vs: Seq<ValueView>) -> Seq<char>
    decreases vs,
{
    if vs.len() == 0 {
        Seq::empty()
    } else if vs.len() == 1 {
        value_text(vs[0])
    } else {
        items_text(vs.subrange(0, vs.len() - 1)) + "; "@ + value_text(vs[vs.len() - 1])
    }
}

pub proof fn lemma_items_view_len(vs: Seq<Value>)
    ensures
        items_view(vs).len() == vs.len(),
    decreases vs.len(),
{
    if vs.len() > 0 {
        lemma_items_view_len(vs.subrange(0, vs.len() - 1));
    }
}

/// Appends the WMIC text of a value.
pub fn push_value_text(out: &mut Vec<char>, v: &Value)
    ensures
        final(out)@ == old(out)@ + value_text(v@),
    decreases v,
{
    match v {
        Value::Null => {
            assert(old(out)@ + value_text(v@) =~= old(out)@);
        },
        Value::String(s) => {
            extend_str(out, s.as_str());
        },
        Value::Signed(n) => {
            push_signed_decimal(out, *n);
        },
        Value::Unsigned(n) => {
            push_decimal(out, *n);
        },
        Value::Float(s) => {
            extend_str(out, s.as_str());
        },
        Value::Bool(b) => {
            if *b {
                extend_str(out, "TRUE");
            } else {
                extend_str(out, "FALSE");
            }
        },
        Value::Array(vs) => {
            extend_str(out, "{");
            let ghost start = out@;
            let mut i: usize = 0;
            assert(vs@.subrange(0, 0) =~= Seq::<Value>::empty());
            while i < vs.len()
                invariant
                    i <= vs.len(),
                    *v == Value::Array(*vs),
                    out@ == start + items_text(items_view(vs@.subrange(0, i as int))),
                decreases vs.len() - i,
            {
                if i > 0 {
                    extend_str(out, "; ");
                }
                assert(decreases_to!(*v => (*v)->Array_0));
                assert(decreases_to!(*vs => vs@));
                assert(decreases_to!(vs@ => vs@[i as int]));
                assert(decreases_to!(*v => vs@[i as int]));
                push_value_text(out, &vs[i]);
                let ghost done = vs@.subrange(0, i + 1);
                assert(done.subrange(0, done.len() - 1) =~= vs@.subrange(0, i as int));
                assert(done[done.len() - 1] == vs@[i as int]);
                proof {
                    lemma_items_view_len(vs@.subrange(0, i as int));
                    lemma_items_view_len(done);
                    let iv = items_view(done);
                    assert(iv.subrange(0, iv.len() - 1) =~= items_view(vs@.subrange(0, i as int)));
                    assert(iv[iv.len() - 1] == vs@[i as int]@);
                    if i == 0 {
                        assert(iv =~= seq![vs@[0]@]);
                    }
                }
                i = i + 1;
            }
            assert(vs@.subrange(0, vs.len() as int) =~= vs@);
            extend_str(out, "}");
        },
        Value::Object(s) => {
            extend_str(out, s.as_str());
        },
    }
}

impl Clone for Value {
    /// A copy of the value, item by item for arrays.
    fn clone(&self) -> (r: Self)
        ensures
            r@ == self@,
        decreases self,
    {
        match self {
            Value::Null => Value::Null,
            Value::String(s) => Value::String(s.clone()),
            Value::Signed(n) => Value::Signed(*n),
            Value::Unsigned(n) => Value::Unsigned(*n),
            Value::Float(s) => Value::Float(s.clone()),
            Value::Bool(b) => Value::Bool(*b),
            Value::Array(vs) => {
                let mut items: Vec<Value> = Vec::new();
                let mut i: usize = 0;
                while i < vs.len()
                    invariant
                        i <= vs.len(),
                        *self == Value::Array(*vs),
                        items_view(items@) == items_view(vs@.subrange(0, i as int)),
                    decreases vs.len() - i,
                {
                    assert(decreases_to!(*self => (*self)->Array_0));
                    assert(decreases_to!(*vs => vs@));
                    assert(decreases_to!(vs@ => vs@[i as int]));
                    let item = vs[i].clone();
                    let ghost before = items@;
                    items.push(item);
                    assert(items@.subrange(0, items@.len() - 1) =~= before);
                    assert(vs@.subrange(0, i + 1).subrange(0, i as int) =~= vs@.subrange(0, i as int));
                    i = i + 1;
                }
                assert(vs@.subrange(0, vs.len() as int) =~= vs@);
                Value::Array(items)
            },
            Value::Object(s) => Value::Object(s.clone()),
        }
    }
}

impl Value {
    /// The text WMIC prints for this value.
    pub fn to_display_string(&self) -> (r: String)
        ensures
            r@ == value_text(self@),
    {
        let mut out: Vec<char> = Vec::new();
        push_value_text(&mut out, self);
        crate::text::string_of(&out)
    }
}


// ---------------------------------------------------------------------------
// Property names and their order
// ---------------------------------------------------------------------------

/// Lexicographic order of names by code point, as `Ord` for `String` orders them.
pub open spec fn key_lt(a: Seq<char>, b: Seq<char>) -> bool
    decreases a.len(),
{
    if a.len() == 0 {
        b.len() > 0
    } else if b.len() == 0 {
        false
    } else if a[0] < b[0] {
        true
    } else if a[0] == b[0] {
        key_lt(a.drop_first(), b.drop_first())
    } else {
        false
    }
}

pub proof fn lemma_key_lt_irreflexive(a: Seq<char>)
    ensures
        !key_lt(a, a),
    decreases a.len(),
{
    if a.len() > 0 {
        lemma_key_lt_irreflexive(a.drop_first());
    }
}

pub proof fn lemma_key_lt_transitive(a: Seq<char>, b: Seq<char>, c: Seq<char>)
    requires
        key_lt(a, b),
        key_lt(b, c),
    ensures
        key_lt(a, c),
    decreases a.len(),
{
    if a.len() > 0 && b.len() > 0 && c.len() > 0 && a[0] == b[0] && b[0] == c[0] {
        lemma_key_lt_transitive(a.drop_first(), b.drop_first(), c.drop_first());
    }
}

pub proof fn lemma_key_lt_total(a: Seq<char>, b: Seq<char>)
    ensures
        a == b || key_lt(a, b) || key_lt(b, a),
    decreases a.len(),
{
    if a.len() > 0 && b.len() > 0 && a[0] == b[0] {
        lemma_key_lt_total(a.drop_first(), b.drop_first());
        if a.drop_first() == b.drop_first() {
            assert(a =~= seq![a[0]] + a.drop_first());
            assert(b =~= seq![b[0]] + b.drop_first());
        }
    } else if a.len() == 0 && b.len() == 0 {
        assert(a =~= b);
    }
}

/// Whether `a` orders before `b`.
pub fn key_less(a: &Vec<char>, b: &Vec<char>) -> (r: bool)
    ensures
        r == key_lt(a@, b@),
{
    let mut i: usize = 0;
    assert(a@.skip(0) =~= a@);
    assert(b@.skip(0) =~= b@);
    while i < a.len() && i < b.len() && a[i] == b[i]
        invariant
            i <= a.len(),
            i <= b.len(),
            key_lt(a@, b@) == key_lt(a@.skip(i as int), b@.skip(i as int)),
        decreases a.len() - i,
    {
        assert(a@.skip(i as int).drop_first() =~= a@.skip(i + 1));
        assert(b@.skip(i as int).drop_first() =~= b@.skip(i + 1));
        i = i + 1;
    }
    if i == a.len() {
        i < b.len()
    } else if i == b.len() {
        false
    } else {
        a[i] < b[i]
    }
}

/// Names strictly increase along the entries (so each name occurs once).
pub open spec fn sorted_keys(s: Seq<(Seq<char>, ValueView)>) -> bool {
    forall|i: int, j: int| 0 <= i < j < s.len() ==> key_lt(#[trigger] s[i].0, #[trigger] s[j].0)
}

/// The value of the entry named `q`, if there is one (the last such entry; names are
/// unique in a record).
pub open spec fn lookup(s: Seq<(Seq<char>, ValueView)>, q: Seq<char>) -> Option<ValueView>
    decreases s.len(),
{
    if s.len() == 0 {
        None
    } else if s.last().0 == q {
        Some(s.last().1)
    } else {
        lookup(s.drop_last(), q)
    }
}

pub proof fn lemma_sorted_unique(s: Seq<(Seq<char>, ValueView)>, i: int, j: int)
    requires
        sorted_keys(s),
        0 <= i < s.len(),
        0 <= j < s.len(),
        s[i].0 == s[j].0,
    ensures
        i == j,
{
    if i < j {
        assert(key_lt(s[i].0, s[j].0));
        lemma_key_lt_irreflexive(s[i].0);
    } else if j < i {
        assert(key_lt(s[j].0, s[i].0));
        lemma_key_lt_irreflexive(s[i].0);
    }
}

pub proof fn lemma_lookup_at(s: Seq<(Seq<char>, ValueView)>, i: int)
    requires
        sorted_keys(s),
        0 <= i < s.len(),
    ensures
        lookup(s, s[i].0) == Some(s[i].1),
    decreases s.len(),
{
    if i != s.len() - 1 {
        if s.last().0 == s[i].0 {
            lemma_sorted_unique(s, i, s.len() - 1);
        }
        let d = s.drop_last();
        assert(sorted_keys(d)) by {
            assert forall|a: int, b: int| 0 <= a < b < d.len() implies key_lt(
                #[trigger] d[a].0,
                #[trigger] d[b].0,
            ) by {
                assert(key_lt(s[a].0, s[b].0));
            }
        }
        assert(d[i] == s[i]);
        lemma_lookup_at(d, i);
    }
}

pub proof fn lemma_lookup_absent(s: Seq<(Seq<char>, ValueView)>, q: Seq<char>)
    requires
        forall|i: int| 0 <= i < s.len() ==> #[trigger] s[i].0 != q,
    ensures
        lookup(s, q) is None,
    decreases s.len(),
{
    if s.len() > 0 {
        let d = s.drop_last();
        assert(s.last() == s[s.len() - 1]);
        assert forall|i: int| 0 <= i < d.len() implies #[trigger] d[i].0 != q by {
            assert(d[i] == s[i]);
        }
        lemma_lookup_absent(d, q);
    }
}

// ---------------------------------------------------------------------------
// Records
// ---------------------------------------------------------------------------

/// The properties of one WMI instance, ordered by name.
#[derive(Debug, PartialEq)]
pub struct Record {
    entries: Vec<(String, Value)>,
}

pub open spec fn entry_view(e: (String, Value)) -> (Seq<char>, ValueView) {
    (e.0@, e.1@)
}

impl View for Record {
    type V = Seq<(Seq<char>, ValueView)>;

    closed spec fn view(&self) -> Seq<(Seq<char>, ValueView)> {
        self.entries@.map_values(|e: (String, Value)| entry_view(e))
    }
}

impl Clone for Record {
    /// A copy of the record, property by property.
    fn clone(&self) -> (r: Self)
        ensures
            r@ == self@,
    {
        proof {
            use_type_invariant(self);
        }
        let mut entries: Vec<(String, Value)> = Vec::new();
        let mut i: usize = 0;
        while i < self.entries.len()
            invariant
                i <= self.entries@.len(),
                entries@.len() == i,
                forall|k: int| 0 <= k < i ==> #[trigger] entry_view(entries@[k]) == entry_view(
                    self.entries@[k],
                ),
            decreases self.entries.len() - i,
        {
            let name = self.entries[i].0.clone();
            let value = self.entries[i].1.clone();
            entries.push((name, value));
            i = i + 1;
        }
        assert(entries@.map_values(|e: (String, Value)| entry_view(e)) =~= self@);
        Record { entries }
    }
}

impl Record {
    #[verifier::type_invariant]
    spec fn names_ascend(&self) -> bool {
        sorted_keys(self@)
    }

    /// A record with no properties.
    pub fn new() -> (r: Record)
        ensures
            r@ == Seq::<(Seq<char>, ValueView)>::empty(),
    {
        let r = Record { entries: Vec::new() };
        assert(r@ =~= Seq::<(Seq<char>, ValueView)>::empty());
        r
    }

    /// The number of properties.
    pub fn len(&self) -> (n: usize)
        ensures
            n == self@.len(),
    {
        self.entries.len()
    }

    /// The name of the `i`-th property in name order.
    pub fn name_at(&self, i: usize) -> (r: &String)
        requires
            i < self@.len(),
        ensures
            r@ == self@[i as int].0,
    {
        &self.entries[i].0
    }

    /// The value of the `i`-th property in name order.
    pub fn value_at(&self, i: usize) -> (r: &Value)
        requires
            i < self@.len(),
        ensures
            r@ == self@[i as int].1,
    {
        &self.entries[i].1
    }

    /// The value stored under `name`, if any.
    pub fn get(&self, name: &str) -> (r: Option<&Value>)
        ensures
            match r {
                Some(v) => lookup(self@, name@) == Some(v@),
                None => lookup(self@, name@) is None,
            },
    {
        proof {
            use_type_invariant(self);
        }
        let wanted = chars_of(name);
        let mut i: usize = 0;
        while i < self.entries.len()
            invariant
                i <= self@.len(),
                self@.len() == self.entries@.len(),
                sorted_keys(self@),
                wanted@ == name@,
                forall|k: int| 0 <= k < i ==> self@[k].0 != name@,
            decreases self.entries.len() - i,
        {
            let key = chars_of(self.entries[i].0.as_str());
            assert(self@[i as int] == entry_view(self.entries@[i as int]));
            if crate::text::eq_chars(&key, &wanted) {
                proof {
                    lemma_lookup_at(self@, i as int);
                }
                return Some(&self.entries[i].1);
            }
            i = i + 1;
        }
        proof {
            lemma_lookup_absent(self@, name@);
        }
        None
    }

    /// Stores `value` under `name`, replacing what was stored there; names stay in order.
    pub fn insert(&mut self, name: String, value: Value)
        ensures
            final(self)@ == insert_entry(old(self)@, name@, value@),
            forall|q: Seq<char>|
                #![trigger lookup(final(self)@, q)]
                lookup(final(self)@, q) == if q == name@ {
                    Some(value@)
                } else {
                    lookup(old(self)@, q)
                },
            sorted_keys(final(self)@),
    {
        proof {
            use_type_invariant(&*self);
        }
        let ghost old_view = self@;
        let mut entries: Vec<(String, Value)> = Vec::new();
        std::mem::swap(&mut entries, &mut self.entries);
        let ghost ev = entries@.map_values(|e: (String, Value)| entry_view(e));
        assert(ev =~= old_view);
        let k = chars_of(name.as_str());
        let mut p: usize = 0;
        while p < entries.len() && key_less(&chars_of(entries[p].0.as_str()), &k)
            invariant
                p <= entries@.len(),
                ev == entries@.map_values(|e: (String, Value)| entry_view(e)),
                k@ == name@,
                forall|i: int| 0 <= i < p ==> key_lt(#[trigger] ev[i].0, k@),
            decreases entries.len() - p,
        {
            assert(ev[p as int] == entry_view(entries@[p as int]));
            p = p + 1;
        }
        let ghost n = name@;
        let ghost v = value@;
        let replace = p < entries.len() && crate::text::eq_chars(
            &chars_of(entries[p].0.as_str()),
            &k,
        );
        if replace {
            assert(ev[p as int] == entry_view(entries@[p as int]));
            entries.set(p, (name, value));
            let ghost nv = entries@.map_values(|e: (String, Value)| entry_view(e));
            assert(nv =~= ev.update(p as int, (n, v)));
            proof {
                lemma_insert_entry_at(ev, p as int, n, v);
                lemma_replace_keeps_order(ev, p as int, n, v);
            }
        } else {
            if p < entries.len() {
                assert(ev[p as int] == entry_view(entries@[p as int]));
            }
            entries.insert(p, (name, value));
            let ghost nv = entries@.map_values(|e: (String, Value)| entry_view(e));
            assert(nv =~= ev.insert(p as int, (n, v)));
            proof {
                lemma_insert_entry_at(ev, p as int, n, v);
                lemma_insert_keeps_order(ev, p as int, n, v);
            }
        }
        self.entries = entries;
    }
}

/// The entries after storing `v` under `n` in name-ordered entries: `n`'s entry is replaced
/// when there is one, and otherwise inserted after every name that sorts before `n`.
pub open spec fn insert_entry(
    s: Seq<(Seq<char>, ValueView)>,
    n: Seq<char>,
    v: ValueView,
) -> Seq<(Seq<char>, ValueView)>
    decreases s.len(),
{
    if s.len() == 0 {
        seq![(n, v)]
    } else if key_lt(s[0].0, n) {
        seq![s[0]] + insert_entry(s.drop_first(), n, v)
    } else if s[0].0 == n {
        s.update(0, (n, v))
    } else {
        s.insert(0, (n, v))
    }
}

proof fn lemma_insert_entry_at(
    s: Seq<(Seq<char>, ValueView)>,
    p: int,
    n: Seq<char>,
    v: ValueView,
)
    requires
        0 <= p <= s.len(),
        forall|i: int| 0 <= i < p ==> key_lt(#[trigger] s[i].0, n),
        p < s.len() ==> !key_lt(s[p].0, n),
    ensures
        insert_entry(s, n, v) == if p < s.len() && s[p].0 == n {
            s.update(p, (n, v))
        } else {
            s.insert(p, (n, v))
        },
    decreases p,
{
    if p == 0 {
        if s.len() == 0 {
            assert(s.insert(0, (n, v)) =~= seq![(n, v)]);
        }
    } else {
        let t = s.drop_first();
        assert(key_lt(s[0].0, n));
        assert forall|i: int| 0 <= i < p - 1 implies key_lt(#[trigger] t[i].0, n) by {
            assert(t[i] == s[i + 1]);
        }
        if p < s.len() {
            assert(t[p - 1] == s[p]);
        }
        lemma_insert_entry_at(t, p - 1, n, v);
        if p < s.len() && s[p].0 == n {
            assert(seq![s[0]] + t.update(p - 1, (n, v)) =~= s.update(p, (n, v)));
        } else {
            assert(seq![s[0]] + t.insert(p - 1, (n, v)) =~= s.insert(p, (n, v)));
        }
    }
}

proof fn lemma_replace_keeps_order(
    s: Seq<(Seq<char>, ValueView)>,
    p: int,
    n: Seq<char>,
    v: ValueView,
)
    requires
        sorted_keys(s),
        0 <= p < s.len(),
        s[p].0 == n,
    ensures
        sorted_keys(s.update(p, (n, v))),
        forall|q: Seq<char>|
            #![trigger lookup(s.update(p, (n, v)), q)]
            lookup(s.update(p, (n, v)), q) == if q == n {
                Some(v)
            } else {
                lookup(s, q)
            },
{
    let t = s.update(p, (n, v));
    assert(forall|i: int| 0 <= i < s.len() ==> #[trigger] t[i].0 == s[i].0);
    assert(sorted_keys(t));
    assert forall|q: Seq<char>| #[trigger]
        lookup(t, q) == if q == n {
            Some(v)
        } else {
            lookup(s, q)
        } by {
        if q == n {
            lemma_lookup_at(t, p);
        } else if exists|j: int| 0 <= j < s.len() && #[trigger] s[j].0 == q {
            let j = choose|j: int| 0 <= j < s.len() && #[trigger] s[j].0 == q;
            lemma_lookup_at(s, j);
            lemma_lookup_at(t, j);
        } else {
            lemma_lookup_absent(s, q);
            assert forall|i: int| 0 <= i < t.len() implies #[trigger] t[i].0 != q by {
                assert(t[i].0 == s[i].0);
            }
            lemma_lookup_absent(t, q);
        }
    }
}

proof fn lemma_insert_keeps_order(
    s: Seq<(Seq<char>, ValueView)>,
    p: int,
    n: Seq<char>,
    v: ValueView,
)
    requires
        sorted_keys(s),
        0 <= p <= s.len(),
        forall|i: int| 0 <= i < p ==> key_lt(#[trigger] s[i].0, n),
        p < s.len() ==> !key_lt(s[p].0, n) && s[p].0 != n,
    ensures
        sorted_keys(s.insert(p, (n, v))),
        forall|q: Seq<char>|
            #![trigger lookup(s.insert(p, (n, v)), q)]
            lookup(s.insert(p, (n, v)), q) == if q == n {
                Some(v)
            } else {
                lookup(s, q)
            },
{
    let t = s.insert(p, (n, v));
    if p < s.len() {
        lemma_key_lt_total(s[p].0, n);
    }
    assert forall|j: int| p <= j < s.len() implies key_lt(n, #[trigger] s[j].0) by {
        if j > p {
            assert(key_lt(s[p].0, s[j].0));
            lemma_key_lt_transitive(n, s[p].0, s[j].0);
        }
    }
    assert forall|i: int, j: int| 0 <= i < j < t.len() implies key_lt(
        #[trigger] t[i].0,
        #[trigger] t[j].0,
    ) by {
        if j < p {
            assert(key_lt(s[i].0, s[j].0));
        } else if j == p {
            assert(key_lt(s[i].0, n));
        } else if i < p {
            assert(key_lt(s[i].0, n));
            assert(key_lt(n, s[j - 1].0));
            lemma_key_lt_transitive(s[i].0, n, s[j - 1].0);
        } else if i == p {
            assert(key_lt(n, s[j - 1].0));
        } else {
            assert(key_lt(s[i - 1].0, s[j - 1].0));
        }
    }
    assert forall|q: Seq<char>| #[trigger]
        lookup(t, q) == if q == n {
            Some(v)
        } else {
            lookup(s, q)
        } by {
        if q == n {
            lemma_lookup_at(t, p);
        } else if exists|j: int| 0 <= j < s.len() && #[trigger] s[j].0 == q {
            let j = choose|j: int| 0 <= j < s.len() && #[trigger] s[j].0 == q;
            lemma_lookup_at(s, j);
            if j < p {
                assert(t[j] == s[j]);
                lemma_lookup_at(t, j);
            } else {
                assert(t[j + 1] == s[j]);
                lemma_lookup_at(t, j + 1);
            }
        } else {
            lemma_lookup_absent(s, q);
            assert forall|i: int| 0 <= i < t.len() implies #[trigger] t[i].0 != q by {
                if i < p {
                    assert(t[i] == s[i]);
                } else if i > p {
                    assert(t[i] == s[i - 1]);
                }
            }
            lemma_lookup_absent(t, q);
        }
    }
}

} // verus!

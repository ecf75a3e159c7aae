use vstd::prelude::*;

use crate::request::{prefix_view, QueryRequest, SortPrefix};
use crate::schema::{EntitySchema, KeyField, KeyFieldView, SchemaView};
use crate::value::{is_key_value, lookup, put, text_of, AttrView, Record, RecordView, Value};

verus! {

/// The value a key field gets from the argument given for it: the constant
/// if there is one, else the prefix followed by the argument's text if
/// there is one, else the argument itself.
pub open spec fn produce(k: KeyFieldView, arg: AttrView) -> AttrView {
    match k.const_value {
        Some(c) => AttrView::Str(c),
        None => match k.prefix {
            Some(p) => AttrView::Str(p + text_of(arg)->Some_0),
            None => arg,
        },
    }
}

/// Whether `arg` can be given for key field `k`: a prefix needs the text of
/// a string or a number.
pub open spec fn accepts(k: KeyFieldView, arg: AttrView) -> bool {
    k.const_value is Some || k.prefix is None || is_key_value(arg)
}

/// Whether the schema has a sort key whose value comes from its callers.
pub open spec fn takes_sort_arg(s: SchemaView) -> bool {
    s.sort_key matches Some(k) && k.const_value is None
}

/// Whether the schema has no sort key or a constant one.
pub open spec fn hash_determines_key(s: SchemaView) -> bool {
    !takes_sort_arg(s)
}

/// Distinct field names for the hash and the sort key.
pub open spec fn schema_wf(s: SchemaView) -> bool {
    s.sort_key matches Some(k) ==> k.ident != s.hash_key.ident
}

/// The key entries produced from the arguments for the hash and sort keys
/// (`sort` is not read when the sort key is constant).
pub open spec fn key_part(s: SchemaView, hash: AttrView, sort: AttrView) -> RecordView {
    let h = seq![(s.hash_key.ident, produce(s.hash_key, hash))];
    match s.sort_key {
        Some(k) => h.push((k.ident, produce(k, sort))),
        None => h,
    }
}

pub open spec fn others_view(s: SchemaView, others: Seq<Value>) -> RecordView {
    Seq::new(others.len(), |i: int| (s.other_fields[i].0, others[i]@))
}

pub open spec fn sort_arg(sort: Option<Value>) -> AttrView {
    match sort {
        Some(v) => v@,
        None => AttrView::Other(Value::Null),
    }
}

/// The record built by the constructor: key entries first, then the other
/// fields in declaration order.
pub open spec fn new_view(s: SchemaView, hash: AttrView, sort: AttrView, others: Seq<Value>) -> RecordView {
    key_part(s, hash, sort) + others_view(s, others)
}

/// Whether `e` holds the key values that `build_key` copies.
pub open spec fn admits(s: SchemaView, e: RecordView) -> bool {
    &&& lookup(e, s.hash_key.ident) matches Some(v) && is_key_value(v)
    &&& takes_sort_arg(s) ==> (lookup(e, s.sort_key->Some_0.ident) matches Some(v)
        && is_key_value(v))
}

/// The key of an entity: its hash key value, and its sort key value or the
/// sort key constant.
pub open spec fn build_key_view(s: SchemaView, e: RecordView) -> RecordView {
    let h = seq![(s.hash_key.ident, lookup(e, s.hash_key.ident)->Some_0)];
    match s.sort_key {
        Some(k) => h.push(
            (
                k.ident,
                match k.const_value {
                    Some(c) => AttrView::Str(c),
                    None => lookup(e, k.ident)->Some_0,
                },
            ),
        ),
        None => h,
    }
}

/// The entity as it is written: a constant sort key overwrites the field.
pub open spec fn saved_view(s: SchemaView, e: RecordView) -> RecordView {
    match s.sort_key {
        Some(k) => match k.const_value {
            Some(c) => put(e, k.ident, AttrView::Str(c)),
            None => e,
        },
        None => e,
    }
}

/// The sort key prefix condition that queries of the schema carry.
pub open spec fn query_prefix(s: SchemaView) -> Option<(Seq<char>, Seq<char>)> {
    match s.sort_key {
        Some(k) => match k.prefix {
            Some(p) => Some((k.name, p)),
            None => None,
        },
        None => None,
    }
}

/// Applies the value rule of key field `k` to `arg`.
pub fn produce_value(k: &KeyField, arg: Value) -> (r: Value)
    requires
        accepts(k@, arg@),
    ensures
        r@ == produce(k@, arg@),
{
    match &k.const_value {
        Some(c) => Value::S(c.clone()),
        None => match &k.prefix {
            Some(p) => {
                let t = arg.text();
                match t {
                    Some(t) => {
                        let mut s = p.clone();
                        s.append(t.as_str());
                        Value::S(s)
                    },
                    None => Value::Null,
                }
            },
            None => arg,
        },
    }
}

impl EntitySchema {
    /// The attribute name of the hash key.
    pub fn hash_key_name(&self) -> (r: String)
        ensures
            r@ == self@.hash_key.name,
    {
        self.hash_key.name.clone()
    }

    /// Builds an entity from the hash key value, the sort key value (only
    /// when the sort key exists and is not constant) and the values of the
    /// other fields in declaration order.
    pub fn new_entity(&self, hash: Value, sort: Option<Value>, others: Vec<Value>) -> (r: Record)
        requires
            sort is Some == takes_sort_arg(self@),
            others@.len() == self.other_fields@.len(),
            accepts(self@.hash_key, hash@),
            sort matches Some(v) ==> accepts(self@.sort_key->Some_0, v@),
        ensures
            r@ == new_view(self@, hash@, sort_arg(sort), others@),
    {
        let ghost hv = hash@;
        let ghost sv = sort_arg(sort);
        let ghost ov = others@;
        let mut fields: Vec<(String, Value)> = Vec::new();
        fields.push((self.hash_key.ident.clone(), produce_value(&self.hash_key, hash)));
        match &self.sort_key {
            Some(k) => {
                let v = match sort {
                    Some(v) => produce_value(k, v),
                    None => produce_value(k, Value::Null),
                };
                fields.push((k.ident.clone(), v));
            },
            None => {},
        }
        assert(fields@.map_values(|p: (String, Value)| (p.0@, p.1@)) =~= key_part(self@, hv, sv));
        let mut others = others;
        let n = others.len();
        let mut i: usize = 0;
        while i < n
            invariant
                0 <= i <= n,
                n == ov.len(),
                n == self.other_fields@.len(),
                others@ == ov.subrange(i as int, n as int),
                fields@.map_values(|p: (String, Value)| (p.0@, p.1@)) == key_part(self@, hv, sv)
                    + others_view(self@, ov.subrange(0, i as int)),
            decreases n - i,
        {
            let ghost before = fields@;
            let v = others.remove(0);
            assert(v@ == ov[i as int]@);
            let name = self.other_fields[i].0.clone();
            let ghost entry = (name@, v@);
            fields.push((name, v));
            assert(fields@.map_values(|p: (String, Value)| (p.0@, p.1@)) =~= before.map_values(
                |p: (String, Value)| (p.0@, p.1@),
            ).push(entry));
            assert(ov.subrange(0, i + 1) =~= ov.subrange(0, i as int).push(ov[i as int]));
            assert(others_view(self@, ov.subrange(0, i + 1)) =~= others_view(
                self@,
                ov.subrange(0, i as int),
            ).push(entry));
            assert(others@ =~= ov.subrange(i + 1, n as int));
            assert(fields@.map_values(|p: (String, Value)| (p.0@, p.1@)) =~= key_part(self@, hv, sv)
                + others_view(self@, ov.subrange(0, i + 1)));
            i = i + 1;
        }
        assert(ov.subrange(0, n as int) =~= ov);
        Record { fields }
    }

    /// The key of the entity whose hash key argument is `hash`, for a schema
    /// without a sort key or with a constant one.
    pub fn key_from_hash(&self, hash: Value) -> (r: Record)
        requires
            hash_determines_key(self@),
            accepts(self@.hash_key, hash@),
        ensures
            r@ == key_part(self@, hash@, AttrView::Other(Value::Null)),
    {
        let ghost hv = hash@;
        let mut fields: Vec<(String, Value)> = Vec::new();
        fields.push((self.hash_key.ident.clone(), produce_value(&self.hash_key, hash)));
        match &self.sort_key {
            Some(k) => {
                fields.push((k.ident.clone(), produce_value(k, Value::Null)));
            },
            None => {},
        }
        let r = Record { fields };
        assert(r@ =~= key_part(self@, hv, AttrView::Other(Value::Null)));
        r
    }

    /// Whether `entity` holds the key values that `build_key` copies.
    pub fn admits(&self, entity: &Record) -> (r: bool)
        ensures
            r == admits(self@, entity@),
    {
        let hash_ok = match entity.get(self.hash_key.ident.as_str()) {
            Some(v) => v.is_key(),
            None => false,
        };
        if !hash_ok {
            return false;
        }
        match &self.sort_key {
            Some(k) => match &k.const_value {
                Some(_) => true,
                None => match entity.get(k.ident.as_str()) {
                    Some(v) => v.is_key(),
                    None => false,
                },
            },
            None => true,
        }
    }

    /// The key of `entity`: its hash key value, and its sort key value, or
    /// the constant when the sort key is constant, whatever the field holds.
    pub fn build_key(&self, entity: &Record) -> (r: Record)
        requires
            admits(self@, entity@),
        ensures
            r@ == build_key_view(self@, entity@),
    {
        let mut fields: Vec<(String, Value)> = Vec::new();
        let hv = match entity.get(self.hash_key.ident.as_str()) {
            Some(v) => v.copy_key(),
            None => Value::Null,
        };
        fields.push((self.hash_key.ident.clone(), hv));
        match &self.sort_key {
            Some(k) => {
                let sv = match &k.const_value {
                    Some(c) => Value::S(c.clone()),
                    None => match entity.get(k.ident.as_str()) {
                        Some(v) => v.copy_key(),
                        None => Value::Null,
                    },
                };
                fields.push((k.ident.clone(), sv));
            },
            None => {},
        }
        let r = Record { fields };
        assert(r@ =~= build_key_view(self@, entity@));
        r
    }

    /// The save hook: a constant sort key overwrites the entity's field, so
    /// that what is written always carries the constant.
    pub fn handle_save(&self, entity: &mut Record)
        ensures
            final(entity)@ == saved_view(self@, old(entity)@),
    {
        match &self.sort_key {
            Some(k) => match &k.const_value {
                Some(c) => {
                    entity.put(k.ident.as_str(), Value::S(c.clone()));
                },
                None => {},
            },
            None => {},
        }
    }

    /// The query hook: a sort key prefix adds a "begins with" condition on
    /// the sort key attribute; the request is otherwise unchanged.
    pub fn handle_query(&self, request: QueryRequest) -> (r: QueryRequest)
        ensures
            r.table_name == request.table_name,
            r.index_name == request.index_name,
            r.exclusive_start_key == request.exclusive_start_key,
            r.condition.hash_attr == request.condition.hash_attr,
            r.condition.hash_value == request.condition.hash_value,
            query_prefix(self@) is Some ==> prefix_view(r.condition.sort_prefix) == query_prefix(
                self@,
            ),
            query_prefix(self@) is None ==> r.condition.sort_prefix == request.condition.sort_prefix,
    {
        let mut request = request;
        match &self.sort_key {
            Some(k) => match &k.prefix {
                Some(p) => {
                    request.condition.sort_prefix = Some(
                        SortPrefix { attr: k.name.clone(), prefix: p.clone() },
                    );
                },
                None => {},
            },
            None => {},
        }
        request
    }
}

} // verus!

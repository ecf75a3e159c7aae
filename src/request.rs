use vstd::prelude::*;

use crate::declaration::opt_view;
use crate::value::{is_key_value, lookup, starts_with, str_eq, AttrView, Record, RecordView, Value};

verus! {

/// A "begins with" condition on the sort key attribute.
#[derive(Debug)]
pub struct SortPrefix {
    pub attr: String,
    pub prefix: String,
}

/// The key condition of a query: equality on the hash key attribute and,
/// optionally, a prefix of the sort key attribute.
#[derive(Debug)]
pub struct KeyCondition {
    pub hash_attr: String,
    pub hash_value: Value,
    pub sort_prefix: Option<SortPrefix>,
}

pub struct ConditionView {
    pub hash_attr: Seq<char>,
    pub hash_value: AttrView,
    pub sort_prefix: Option<(Seq<char>, Seq<char>)>,
}

pub open spec fn prefix_view(p: Option<SortPrefix>) -> Option<(Seq<char>, Seq<char>)> {
    match p {
        Some(sp) => Some((sp.attr@, sp.prefix@)),
        None => None,
    }
}

impl View for KeyCondition {
    type V = ConditionView;

    open spec fn view(&self) -> ConditionView {
        ConditionView {
            hash_attr: self.hash_attr@,
            hash_value: self.hash_value@,
            sort_prefix: prefix_view(self.sort_prefix),
        }
    }
}

/// Whether two values are the same key value.
pub open spec fn same_key(a: AttrView, b: AttrView) -> bool {
    is_key_value(a) && a == b
}

/// Whether an item satisfies a key condition: its hash key attribute holds
/// the value sought and, under a prefix condition, its sort key attribute is
/// a string that begins with the prefix.
pub open spec fn selects(c: ConditionView, item: RecordView) -> bool {
    &&& lookup(item, c.hash_attr) matches Some(v) && same_key(v, c.hash_value)
    &&& c.sort_prefix matches Some(sp) ==> (lookup(item, sp.0) matches Some(AttrView::Str(t))
        && sp.1.is_prefix_of(t))
}

/// A write of a whole item.
#[derive(Debug)]
pub struct PutRequest {
    pub table_name: String,
    pub item: Record,
}

/// A point read by primary key.
#[derive(Debug)]
pub struct GetRequest {
    pub table_name: String,
    pub key: Record,
}

/// An unconditional delete by primary key.
#[derive(Debug)]
pub struct DeleteRequest {
    pub table_name: String,
    pub key: Record,
}

/// A query for the items of one hash key, in the table or in one of its
/// indexes, resumed after `exclusive_start_key` when it is set.
#[derive(Debug)]
pub struct QueryRequest {
    pub table_name: String,
    pub index_name: Option<String>,
    pub condition: KeyCondition,
    pub exclusive_start_key: Option<Record>,
}

pub struct QueryView {
    pub table_name: Seq<char>,
    pub index_name: Option<Seq<char>>,
    pub condition: ConditionView,
    pub exclusive_start_key: Option<RecordView>,
}

pub open spec fn record_opt_view(r: Option<Record>) -> Option<RecordView> {
    match r {
        Some(x) => Some(x@),
        None => None,
    }
}

impl View for QueryRequest {
    type V = QueryView;

    open spec fn view(&self) -> QueryView {
        QueryView {
            table_name: self.table_name@,
            index_name: opt_view(self.index_name),
            condition: self.condition@,
            exclusive_start_key: record_opt_view(self.exclusive_start_key),
        }
    }
}

/// What the store answers to a query: the items found, and the key to resume
/// after when it has more.
#[derive(Debug)]
pub struct QueryOutput {
    pub items: Option<Vec<Record>>,
    pub last_evaluated_key: Option<Record>,
}

/// One page of query results.
#[derive(Debug)]
pub struct DynamoDbResultsPage {
    /// The items, in the order the store returned them.
    pub items: Vec<Record>,
    /// Where the next page starts; present if and only if the store has more.
    pub last_evaluated_key: Option<Record>,
}

pub open spec fn records_view(v: Seq<Record>) -> Seq<RecordView> {
    v.map_values(|r: Record| r@)
}

impl DynamoDbResultsPage {
    /// The page that a query output holds: its items (none when it lists
    /// none) and its continuation key.
    pub fn from_output(out: QueryOutput) -> (r: DynamoDbResultsPage)
        ensures
            out.items matches Some(v) ==> records_view(r.items@) == records_view(v@),
            out.items is None ==> r.items@.len() == 0,
            record_opt_view(r.last_evaluated_key) == record_opt_view(out.last_evaluated_key),
    {
        DynamoDbResultsPage {
            items: match out.items {
                Some(v) => v,
                None => Vec::new(),
            },
            last_evaluated_key: out.last_evaluated_key,
        }
    }
}

/// Whether two values are the same key value.
pub fn key_eq(a: &Value, b: &Value) -> (r: bool)
    ensures
        r == same_key(a@, b@),
{
    match (a, b) {
        (Value::S(x), Value::S(y)) => str_eq(x.as_str(), y.as_str()),
        (Value::N(x), Value::N(y)) => str_eq(x.as_str(), y.as_str()),
        _ => false,
    }
}

impl KeyCondition {
    /// Whether `item` satisfies this condition.
    pub fn selects(&self, item: &Record) -> (r: bool)
        ensures
            r == selects(self@, item@),
    {
        let hash_ok = match item.get(self.hash_attr.as_str()) {
            Some(v) => key_eq(v, &self.hash_value),
            None => false,
        };
        if !hash_ok {
            return false;
        }
        match &self.sort_prefix {
            Some(sp) => match item.get(sp.attr.as_str()) {
                Some(Value::S(t)) => starts_with(t.as_str(), sp.prefix.as_str()),
                _ => false,
            },
            None => true,
        }
    }

    /// The key condition expression, with `#attr`/`:val` standing for the
    /// hash key and `#sk`/`:sk` for the sort key prefix.
    pub fn expression(&self) -> (r: String)
        ensures
            self.sort_prefix is None ==> r@ == "#attr = :val"@,
            self.sort_prefix is Some ==> r@ == "#attr = :val AND begins_with(#sk, :sk)"@,
    {
        match &self.sort_prefix {
            Some(_) => String::from_str("#attr = :val AND begins_with(#sk, :sk)"),
            None => String::from_str("#attr = :val"),
        }
    }

    /// The attribute names that the expression refers to.
    pub fn attribute_names(&self) -> (r: Vec<(String, String)>)
        ensures
            self.sort_prefix is None ==> r@.map_values(|p: (String, String)| (p.0@, p.1@))
                == seq![("#attr"@, self.hash_attr@)],
            self.sort_prefix matches Some(sp) ==> r@.map_values(
                |p: (String, String)| (p.0@, p.1@),
            ) == seq![("#attr"@, self.hash_attr@), ("#sk"@, sp.attr@)],
    {
        let mut r: Vec<(String, String)> = Vec::new();
        r.push((String::from_str("#attr"), self.hash_attr.clone()));
        match &self.sort_prefix {
            Some(sp) => {
                r.push((String::from_str("#sk"), sp.attr.clone()));
            },
            None => {},
        }
        assert(r@.map_values(|p: (String, String)| (p.0@, p.1@)) =~= match self.sort_prefix {
            Some(sp) => seq![("#attr"@, self.hash_attr@), ("#sk"@, sp.attr@)],
            None => seq![("#attr"@, self.hash_attr@)],
        });
        r
    }

    /// The values that the expression refers to.
    pub fn attribute_values(self) -> (r: Vec<(String, Value)>)
        ensures
            self.sort_prefix is None ==> r@.map_values(|p: (String, Value)| (p.0@, p.1@))
                == seq![(":val"@, self.hash_value@)],
            self.sort_prefix matches Some(sp) ==> r@.map_values(
                |p: (String, Value)| (p.0@, p.1@),
            ) == seq![(":val"@, self.hash_value@), (":sk"@, AttrView::Str(sp.prefix@))],
    {
        let ghost c = self;
        let mut r: Vec<(String, Value)> = Vec::new();
        r.push((String::from_str(":val"), self.hash_value));
        match self.sort_prefix {
            Some(sp) => {
                r.push((String::from_str(":sk"), Value::S(sp.prefix)));
            },
            None => {},
        }
        assert(r@.map_values(|p: (String, Value)| (p.0@, p.1@)) =~= match c.sort_prefix {
            Some(sp) => seq![(":val"@, c.hash_value@), (":sk"@, AttrView::Str(sp.prefix@))],
            None => seq![(":val"@, c.hash_value@)],
        });
        r
    }
}

} // verus!

use vstd::prelude::*;

use crate::entity::{admits, build_key_view, query_prefix, saved_view};
use crate::request::{
    record_opt_view, ConditionView, DeleteRequest, GetRequest, KeyCondition, PutRequest,
    QueryRequest, QueryView,
};
use crate::schema::{EntitySchema, SchemaView};
use crate::value::{AttrView, Record, RecordView, Value};

verus! {

/// The query of an entity's table for the hash key value `hash`, resumed
/// after `start` when it is set.
pub open spec fn query_view(
    table: Seq<char>,
    s: SchemaView,
    hash: AttrView,
    start: Option<RecordView>,
) -> QueryView {
    QueryView {
        table_name: table,
        index_name: None,
        condition: ConditionView {
            hash_attr: s.hash_key.name,
            hash_value: hash,
            sort_prefix: query_prefix(s),
        },
        exclusive_start_key: start,
    }
}

/// The query of index `index` for the items whose attribute `attr` holds
/// `hash`, resumed after `start` when it is set.
pub open spec fn index_query_view(
    table: Seq<char>,
    index: Seq<char>,
    attr: Seq<char>,
    hash: AttrView,
    start: Option<RecordView>,
) -> QueryView {
    QueryView {
        table_name: table,
        index_name: Some(index),
        condition: ConditionView { hash_attr: attr, hash_value: hash, sort_prefix: None },
        exclusive_start_key: start,
    }
}

/// Plans the store operations on one table: each operation gives the request
/// to send, with the entity's hooks applied.
#[derive(Debug)]
pub struct DynamoDbDao {
    pub table_name: String,
}

impl DynamoDbDao {
    pub fn new(table_name: String) -> (r: DynamoDbDao)
        ensures
            r.table_name == table_name,
    {
        DynamoDbDao { table_name }
    }

    /// Saves an entity: the save hook runs on it, then it is the item written.
    pub fn save(&self, schema: &EntitySchema, entity: Record) -> (r: PutRequest)
        ensures
            r.table_name@ == self.table_name@,
            r.item@ == saved_view(schema@, entity@),
    {
        let mut entity = entity;
        schema.handle_save(&mut entity);
        PutRequest { table_name: self.table_name.clone(), item: entity }
    }

    /// Loads the entity of a key.
    pub fn load(&self, key: Record) -> (r: GetRequest)
        ensures
            r.table_name@ == self.table_name@,
            r.key == key,
    {
        GetRequest { table_name: self.table_name.clone(), key }
    }

    /// Deletes the entity of a key, whether or not it exists.
    pub fn delete(&self, key: Record) -> (r: DeleteRequest)
        ensures
            r.table_name@ == self.table_name@,
            r.key == key,
    {
        DeleteRequest { table_name: self.table_name.clone(), key }
    }

    /// Deletes an entity by the key built from it.
    pub fn delete_item(&self, schema: &EntitySchema, entity: &Record) -> (r: DeleteRequest)
        requires
            admits(schema@, entity@),
        ensures
            r.table_name@ == self.table_name@,
            r.key@ == build_key_view(schema@, entity@),
    {
        self.delete(schema.build_key(entity))
    }

    /// Queries the table for the entities of one hash key, from the start or
    /// after `page_token`.
    pub fn query(&self, schema: &EntitySchema, hash_key: Value, page_token: Option<Record>) -> (r:
        QueryRequest)
        ensures
            r@ == query_view(self.table_name@, schema@, hash_key@, record_opt_view(page_token)),
    {
        let request = QueryRequest {
            table_name: self.table_name.clone(),
            index_name: None,
            condition: KeyCondition {
                hash_attr: schema.hash_key_name(),
                hash_value: hash_key,
                sort_prefix: None,
            },
            exclusive_start_key: page_token,
        };
        schema.handle_query(request)
    }

    /// Queries an index of the table for the entities whose attribute
    /// `hash_key_name` holds `hash_key`, from the start or after `page_token`.
    pub fn query_index(
        &self,
        index_name: String,
        hash_key_name: String,
        hash_key: Value,
        page_token: Option<Record>,
    ) -> (r: QueryRequest)
        ensures
            r@ == index_query_view(
                self.table_name@,
                index_name@,
                hash_key_name@,
                hash_key@,
                record_opt_view(page_token),
            ),
    {
        QueryRequest {
            table_name: self.table_name.clone(),
            index_name: Some(index_name),
            condition: KeyCondition {
                hash_attr: hash_key_name,
                hash_value: hash_key,
                sort_prefix: None,
            },
            exclusive_start_key: page_token,
        }
    }
}

} // verus!

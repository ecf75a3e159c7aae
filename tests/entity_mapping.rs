use wrzasqpl_commons_aws::{
    derive_dynamo_entity, ArgValue, DefinitionError, EntitySchema, FieldDecl, KeyCondition,
    Marker, MarkerArg, QueryRequest, Record, RecordDecl, Shape, TypeAttr, Value,
};

fn s(text: &str) -> Value {
    Value::S(text.to_string())
}

fn n(text: &str) -> Value {
    Value::N(text.to_string())
}

fn text(name: &str, value: &str) -> MarkerArg {
    MarkerArg { name: name.to_string(), value: ArgValue::Text(value.to_string()) }
}

fn bare(path: &str) -> Marker {
    Marker { path: path.to_string(), args: None }
}

fn with_args(path: &str, args: Vec<MarkerArg>) -> Marker {
    Marker { path: path.to_string(), args: Some(args) }
}

fn field(ident: &str, ty: &str, markers: Vec<Marker>) -> FieldDecl {
    FieldDecl { ident: ident.to_string(), ty: ty.to_string(), markers }
}

fn decl(name: &str, fields: Vec<FieldDecl>) -> RecordDecl {
    RecordDecl { name: name.to_string(), shape: Shape::Named, fields, attrs: vec![] }
}

fn resolve(d: &RecordDecl) -> EntitySchema {
    derive_dynamo_entity(d).expect("declaration should resolve")
}

fn names(r: &Record) -> Vec<String> {
    r.fields.iter().map(|(name, _)| name.clone()).collect()
}

fn empty_query() -> QueryRequest {
    QueryRequest {
        table_name: "t".to_string(),
        index_name: None,
        condition: KeyCondition { hash_attr: "id".to_string(), hash_value: s("h"), sort_prefix: None },
        exclusive_start_key: None,
    }
}

fn record(fields: Vec<(&str, Value)>) -> Record {
    Record { fields: fields.into_iter().map(|(k, v)| (k.to_string(), v)).collect() }
}

#[test]
fn hash_key_only() {
    let schema = resolve(&decl(
        "Customer",
        vec![
            field("customer_id", "String", vec![bare("hash_key")]),
            field("name", "String", vec![]),
        ],
    ));

    let customer = schema.new_entity(s("c-1"), None, vec![s("Jane")]);
    let key = schema.build_key(&customer);
    assert_eq!(names(&key), vec!["customer_id"]);

    assert_eq!(schema.hash_key_name(), "customer_id");
    let query = schema.handle_query(empty_query());
    assert!(query.condition.sort_prefix.is_none());
    let mut saved = record(vec![("customer_id", s("c-1")), ("name", s("Jane"))]);
    schema.handle_save(&mut saved);
    assert_eq!(saved, record(vec![("customer_id", s("c-1")), ("name", s("Jane"))]));
}

#[test]
fn defaults_detect_id_and_sk_fields() {
    let schema = resolve(&decl(
        "Invoice",
        vec![
            field("id", "String", vec![]),
            field("sk", "String", vec![]),
            field("amount_cents", "i64", vec![]),
        ],
    ));

    let invoice = schema.new_entity(s("i-1"), Some(s("2024")), vec![n("100")]);
    let key = schema.build_key(&invoice);
    assert_eq!(names(&key), vec!["id", "sk"]);
    assert_eq!(invoice.get("amount_cents"), Some(&n("100")));

    assert_eq!(schema.hash_key_name(), "id");
    assert!(schema.handle_query(empty_query()).condition.sort_prefix.is_none());
    let mut saved = record(vec![("id", s("i-1")), ("sk", s("x"))]);
    schema.handle_save(&mut saved);
    assert_eq!(saved.get("sk"), Some(&s("x")));
}

#[test]
fn hash_prefix_applies_to_constructor_and_key() {
    let schema = resolve(&decl(
        "Tenant",
        vec![
            field("id", "String", vec![with_args("hash_key", vec![text("prefix", "TENANT#")])]),
            field("sk", "String", vec![bare("sort_key")]),
            field("label", "String", vec![]),
        ],
    ));

    let tenant = schema.new_entity(s("acme"), Some(s("main")), vec![s("Acme")]);
    assert_eq!(tenant.get("id"), Some(&s("TENANT#acme")));

    // the sort key is copied as the entity holds it
    let other = record(vec![("id", s("TENANT#x")), ("sk", s("changed")), ("label", s("L"))]);
    let key = schema.build_key(&other);
    assert_eq!(key.get("sk"), Some(&s("changed")));
    assert_eq!(key.get("id"), Some(&s("TENANT#x")));
}

#[test]
fn const_sort_key_generates_short_constructor_and_key_helper() {
    let schema = resolve(&decl(
        "Profile",
        vec![
            field("id", "String", vec![with_args("hash_key", vec![text("prefix", "USER#")])]),
            field("sk", "String", vec![with_args("sort_key", vec![text("const", "PROFILE")])]),
            field("display_name", "String", vec![]),
        ],
    ));

    // the constructor takes the hash value and the other fields only
    assert_eq!(schema.other_fields.len(), 1);
    assert_eq!(schema.other_fields[0].0, "display_name");
    let profile = schema.new_entity(s("7"), None, vec![s("Ann")]);
    assert_eq!(profile.get("sk"), Some(&s("PROFILE")));

    let key = schema.key_from_hash(s("7"));
    assert_eq!(key.get("id"), Some(&s("USER#7")));
    assert_eq!(key.get("sk"), Some(&s("PROFILE")));

    let mut entity = record(vec![("id", s("USER#7")), ("sk", s("OTHER")), ("display_name", s("Ann"))]);
    schema.handle_save(&mut entity);
    assert_eq!(entity.get("sk"), Some(&s("PROFILE")));
}

#[test]
fn sort_key_prefix_adds_begins_with_query_modifier() {
    let schema = resolve(&decl(
        "Order",
        vec![
            field("tenant", "String", vec![bare("hash_key")]),
            field("sk", "String", vec![with_args("sort_key", vec![text("prefix", "ORDER#")])]),
            field("status", "String", vec![]),
        ],
    ));

    let query = schema.handle_query(empty_query());
    let prefix = query.condition.sort_prefix.as_ref().expect("begins_with condition missing");
    assert_eq!(prefix.attr, "sk");
    assert_eq!(prefix.prefix, "ORDER#");
    assert!(query.condition.expression().contains("begins_with"));
    let values = query.condition.attribute_values();
    assert!(values.contains(&(":sk".to_string(), s("ORDER#"))));
}

#[test]
fn missing_hash_key_emits_compile_error() {
    let result = derive_dynamo_entity(&decl(
        "Broken",
        vec![field("sk", "String", vec![bare("sort_key")]), field("value", "String", vec![])],
    ));

    let err = result.expect_err("declaration should be refused");
    assert!(matches!(err, DefinitionError::MissingHashKey));
    assert!(err.message().contains("missing hash key"));
}

#[test]
fn tuple_structs_are_rejected() {
    let d = RecordDecl { name: "Tuple".to_string(), shape: Shape::Tuple, fields: vec![], attrs: vec![] };
    let err = derive_dynamo_entity(&d).expect_err("tuple struct should be refused");

    assert!(matches!(err, DefinitionError::UnsupportedShape(Shape::Tuple)));
    assert!(err.message().contains("requires named fields"));
}

#[test]
fn non_struct_items_are_rejected() {
    let d = RecordDecl { name: "Sample".to_string(), shape: Shape::Enum, fields: vec![], attrs: vec![] };
    let err = derive_dynamo_entity(&d).expect_err("enum should be refused");

    assert!(matches!(err, DefinitionError::UnsupportedShape(Shape::Enum)));
    assert!(err.message().contains("can only be derived for structs"));
}

#[test]
fn derive_dynamo_entity_derives_with_default_keys() {
    let schema = resolve(&decl(
        "Order",
        vec![
            field("id", "String", vec![]),
            field("sk", "String", vec![]),
            field("status", "String", vec![]),
            field("count", "u32", vec![]),
        ],
    ));

    assert_eq!(schema.hash_key_name(), "id");

    let order = schema.new_entity(s("A"), Some(s("B")), vec![s("processing"), n("5")]);
    assert_eq!(order.get("id"), Some(&s("A")));
    assert_eq!(order.get("sk"), Some(&s("B")));
    assert_eq!(order.get("status"), Some(&s("processing")));
    assert_eq!(order.get("count"), Some(&n("5")));

    let key = schema.build_key(&order);
    assert_eq!(key.get("id"), Some(&s("A")));
    assert_eq!(key.get("sk"), Some(&s("B")));
}

#[test]
fn derive_dynamo_entity_derives_with_explicit_key_attributes() {
    let schema = resolve(&decl(
        "Record",
        vec![
            field("customer_id", "String", vec![bare("hash_key")]),
            field("order_id", "String", vec![bare("sort_key")]),
            field("amount_cents", "i64", vec![]),
        ],
    ));

    assert_eq!(schema.hash_key_name(), "customer_id");

    let entity = schema.new_entity(s("cust-1"), Some(s("ord-9")), vec![n("1234")]);
    assert_eq!(entity.get("customer_id"), Some(&s("cust-1")));
    assert_eq!(entity.get("order_id"), Some(&s("ord-9")));
    assert_eq!(entity.get("amount_cents"), Some(&n("1234")));

    let key = schema.build_key(&entity);
    assert_eq!(key.get("customer_id"), Some(&s("cust-1")));
    assert_eq!(key.get("order_id"), Some(&s("ord-9")));
}

fn profile_schema() -> EntitySchema {
    resolve(&decl(
        "Profile",
        vec![
            field("id", "String", vec![with_args("hash_key", vec![text("prefix", "USER#")])]),
            field("sk", "String", vec![with_args("sort_key", vec![text("const", "PROFILE")])]),
            field("display_name", "String", vec![]),
        ],
    ))
}

#[test]
fn derive_dynamo_entity_const_sort_key_and_hash_prefix() {
    let schema = profile_schema();

    let profile1 = schema.new_entity(s("123"), None, vec![s("Rafal")]);
    assert_eq!(profile1.get("id"), Some(&s("USER#123")));
    assert_eq!(profile1.get("sk"), Some(&s("PROFILE")));
    assert_eq!(profile1.get("display_name"), Some(&s("Rafal")));

    let key1 = schema.key_from_hash(s("456"));
    assert_eq!(key1.get("id"), Some(&s("USER#456")));
    assert_eq!(key1.get("sk"), Some(&s("PROFILE")));

    let profile2 = record(vec![("id", s("USER#zzz")), ("sk", s("WRONG")), ("display_name", s("X"))]);
    let key2 = schema.build_key(&profile2);
    assert_eq!(key2.get("sk"), Some(&s("PROFILE")));
}

fn customer_decl(attrs: Vec<TypeAttr>) -> RecordDecl {
    RecordDecl {
        name: "Customer".to_string(),
        shape: Shape::Named,
        fields: vec![
            field("customer_id", "Uuid", vec![with_args("hash_key", vec![text("name", "customerId")])]),
            field("name", "String", vec![]),
        ],
        attrs,
    }
}

#[test]
fn derive_with_hash_key_only() {
    let test_customer_id = uuid::Uuid::nil().to_string();
    let schema = resolve(&customer_decl(vec![TypeAttr {
        path: "key_attrs".to_string(),
        tokens: Some("serde(rename_all = \"camelCase\")".to_string()),
    }]));

    assert_eq!(schema.hash_key_name(), "customerId");
    assert_eq!(schema.key_attrs, vec!["serde(rename_all = \"camelCase\")".to_string()]);

    let customer = schema.new_entity(s(&test_customer_id), None, vec![s("John Doe")]);
    let key = schema.build_key(&customer);
    assert_eq!(key.get("customer_id"), Some(&s(&test_customer_id)));
}

#[test]
fn derive_with_hash_key_only_produces_from_impl() {
    let test_customer_id = uuid::Uuid::nil().to_string();
    let schema = resolve(&customer_decl(vec![]));

    schema.new_entity(s(&test_customer_id), None, vec![s("John Doe")]);

    let key = schema.key_from_hash(s(&test_customer_id));
    assert_eq!(key.get("customer_id"), Some(&s(&test_customer_id)));
    assert_eq!(names(&key), vec!["customer_id"]);
}

#[test]
fn explicit_hash_marker_overrides_id_field() {
    let schema = resolve(&decl(
        "Account",
        vec![
            field("id", "String", vec![]),
            field("account", "String", vec![with_args("hash_key", vec![text("name", "accountId")])]),
            field("sk", "String", vec![]),
        ],
    ));

    assert_eq!(schema.hash_key.ident, "account");
    assert_eq!(schema.hash_key_name(), "accountId");
    assert_eq!(schema.sort_key.as_ref().map(|k| k.ident.as_str()), Some("sk"));
    let others: Vec<&str> = schema.other_fields.iter().map(|(name, _)| name.as_str()).collect();
    assert_eq!(others, vec!["id"]);
}

#[test]
fn field_marked_both_ways_holds_the_hash_key() {
    let schema = resolve(&decl(
        "Both",
        vec![field("key", "String", vec![bare("hash_key"), bare("sort_key")]), field("v", "u8", vec![])],
    ));

    assert_eq!(schema.hash_key.ident, "key");
    assert!(schema.sort_key.is_none());
}

#[test]
fn malformed_option_is_refused() {
    let bad = MarkerArg { name: "prefix".to_string(), value: ArgValue::Other("1".to_string()) };
    let err = derive_dynamo_entity(&decl(
        "Bad",
        vec![field("id", "String", vec![with_args("hash_key", vec![bad])])],
    ))
    .expect_err("non-string option should be refused");

    assert!(matches!(&err, DefinitionError::MalformedOption(f) if f == "id"));
    assert_eq!(
        err.message(),
        "entity mapping: malformed key option on field `id`: a string literal is expected"
    );

    let missing = MarkerArg { name: "const".to_string(), value: ArgValue::Missing };
    let err = derive_dynamo_entity(&decl(
        "Bad",
        vec![field("id", "String", vec![]), field("sk", "String", vec![with_args("sort_key", vec![missing])])],
    ))
    .expect_err("option without value should be refused");
    assert!(matches!(&err, DefinitionError::MalformedOption(f) if f == "sk"));
}

#[test]
fn unknown_options_are_ignored() {
    let odd = MarkerArg { name: "ttl".to_string(), value: ArgValue::Other("5".to_string()) };
    let schema = resolve(&decl(
        "Odd",
        vec![
            field("id", "String", vec![with_args("hash_key", vec![odd, text("const", "C")])]),
            field("other", "String", vec![bare("serde")]),
        ],
    ));

    // `const` means nothing on a hash key marker
    assert!(schema.hash_key.const_value.is_none());
    assert_eq!(schema.other_fields.len(), 1);
}

#[test]
fn later_option_overrides_earlier_one() {
    let schema = resolve(&decl(
        "Named",
        vec![field(
            "id",
            "String",
            vec![with_args("hash_key", vec![text("name", "first"), text("name", "second")])],
        )],
    ));

    assert_eq!(schema.hash_key_name(), "second");
}

#[test]
fn unit_struct_is_rejected() {
    let d = RecordDecl { name: "Unit".to_string(), shape: Shape::Unit, fields: vec![], attrs: vec![] };
    assert!(matches!(derive_dynamo_entity(&d), Err(DefinitionError::UnsupportedShape(Shape::Unit))));
}

#[test]
fn round_trip_of_constructor_and_key() {
    let schema = resolve(&decl(
        "Tenant",
        vec![
            field("id", "String", vec![with_args("hash_key", vec![text("prefix", "T#")])]),
            field("sk", "String", vec![]),
            field("label", "String", vec![]),
        ],
    ));

    let entity = schema.new_entity(n("42"), Some(s("x")), vec![s("L")]);
    let key = schema.build_key(&entity);
    assert_eq!(key, record(vec![("id", s("T#42")), ("sk", s("x"))]));
}

#[test]
fn prefix_is_applied_at_construction() {
    let schema = profile_schema();

    let entity = schema.new_entity(s("123"), None, vec![s("R")]);
    assert_eq!(entity.get("id"), Some(&s("USER#123")));
    assert_eq!(schema.key_from_hash(s("456")).get("id"), Some(&s("USER#456")));
}

#[test]
fn constant_sort_key_is_enforced_on_save() {
    let schema = profile_schema();

    let mut entity = record(vec![("id", s("USER#1")), ("sk", s("ANYTHING")), ("display_name", s("D"))]);
    assert_eq!(schema.build_key(&entity).get("sk"), Some(&s("PROFILE")));
    schema.handle_save(&mut entity);
    assert_eq!(entity.get("sk"), Some(&s("PROFILE")));
    assert_eq!(entity.fields.len(), 3);

    // an entity without the field gets it
    let mut bare_entity = record(vec![("id", s("USER#2"))]);
    schema.handle_save(&mut bare_entity);
    assert_eq!(bare_entity.get("sk"), Some(&s("PROFILE")));
}

#[test]
fn admits_checks_key_values() {
    let schema = profile_schema();

    assert!(schema.admits(&record(vec![("id", s("USER#1"))])));
    assert!(!schema.admits(&record(vec![("id", Value::Bool(true))])));
    assert!(!schema.admits(&record(vec![("display_name", s("x"))])));
}

#[test]
fn record_entries_are_read_and_written_by_name() {
    let mut r = record(vec![("a", s("1")), ("b", n("2")), ("a", s("3"))]);
    assert_eq!(r.position("a"), Some(0));
    assert_eq!(r.get("a"), Some(&s("1")));
    assert_eq!(r.get("c"), None);

    r.put("b", s("x"));
    assert_eq!(r, record(vec![("a", s("1")), ("b", s("x")), ("a", s("3"))]));
    r.put("c", Value::Null);
    assert_eq!(r.fields.len(), 4);
    assert_eq!(r.get("c"), Some(&Value::Null));
}

#[test]
fn values_with_text_are_key_values() {
    assert_eq!(s("x").text(), Some("x".to_string()));
    assert_eq!(n("12").text(), Some("12".to_string()));
    assert_eq!(Value::Bool(true).text(), None);
    assert!(n("1").is_key());
    assert!(!Value::L(vec![]).is_key());
    assert_eq!(n("7").copy_key(), n("7"));
    assert!(wrzasqpl_commons_aws::value::str_eq("ab", "ab"));
    assert!(!wrzasqpl_commons_aws::value::str_eq("ab", "abc"));
    assert!(wrzasqpl_commons_aws::value::starts_with("ORD#1", "ORD#"));
    assert!(!wrzasqpl_commons_aws::value::starts_with("OR", "ORD#"));
}

#[test]
fn number_keys_take_a_prefix_by_their_text() {
    let schema = resolve(&decl(
        "Counter",
        vec![field("id", "u64", vec![with_args("hash_key", vec![text("prefix", "C#")])])],
    ));

    assert_eq!(schema.key_from_hash(n("9")).get("id"), Some(&s("C#9")));
}

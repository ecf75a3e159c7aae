use vstd::prelude::*;

use crate::dao::query_view;
use crate::declaration::{
    apply_arg, apply_args, apply_marker, apply_markers, args_of, field_roles, no_roles, FieldDecl,
    Marker, MarkerArg, RecordDecl, RolesView, Shape,
};
use crate::entity::{
    accepts, admits, build_key_view, key_part, new_view, produce, saved_view, schema_wf,
    sort_arg, takes_sort_arg,
};
use crate::request::{record_opt_view, same_key, selects, QueryOutput, QueryView};
use crate::schema::{
    expected_schema, first_malformed, key_field_of, key_roles, lemma_key_roles_bounds,
    malformed_from, resolved_keys, roles_at, takes_hash, takes_sort, SchemaView,
};
use crate::value::{
    first_index, is_key_value, lemma_first_index, lemma_first_index_exact, lookup, put, text_of,
    AttrView, RecordView, Value,
};

verus! {

/// Whether a marker at or after `i` in `ms` is `hash_key`.
pub open spec fn has_hash_marker(ms: Seq<Marker>, i: int) -> bool {
    exists|j: int| i <= j < ms.len() && (#[trigger] ms[j]).path@ == "hash_key"@
}

/// Whether no field of `fs` carries a `hash_key` or `sort_key` marker.
pub open spec fn no_key_markers(fs: Seq<FieldDecl>) -> bool {
    forall|i: int, j: int|
        0 <= i < fs.len() && 0 <= j < fs[i].markers@.len() ==> {
            let p = (#[trigger] fs[i].markers@[j]).path@;
            p != "hash_key"@ && p != "sort_key"@
        }
}

proof fn lemma_args_keep_roles(o: RolesView, args: Seq<MarkerArg>, in_sort: bool, i: int)
    requires
        apply_args(o, args, in_sort, i) is Some,
    ensures
        apply_args(o, args, in_sort, i)->Some_0.is_hash == o.is_hash,
        apply_args(o, args, in_sort, i)->Some_0.is_sort == o.is_sort,
    decreases args.len() - i,
{
    if 0 <= i < args.len() {
        lemma_args_keep_roles(apply_arg(o, args[i], in_sort)->Some_0, args, in_sort, i + 1);
    }
}

proof fn lemma_markers_hash(o: RolesView, ms: Seq<Marker>, i: int)
    requires
        0 <= i,
        apply_markers(o, ms, i) is Some,
    ensures
        apply_markers(o, ms, i)->Some_0.is_hash == (o.is_hash || has_hash_marker(ms, i)),
    decreases ms.len() - i,
{
    if i < ms.len() {
        let m = ms[i];
        let o2 = apply_marker(o, m)->Some_0;
        if m.path@ == "hash_key"@ {
            lemma_args_keep_roles(RolesView { is_hash: true, ..o }, args_of(m), false, 0);
        } else if m.path@ == "sort_key"@ {
            lemma_args_keep_roles(RolesView { is_sort: true, ..o }, args_of(m), true, 0);
        }
        lemma_markers_hash(o2, ms, i + 1);
        if has_hash_marker(ms, i) && !has_hash_marker(ms, i + 1) {
            let j = choose|j: int| i <= j < ms.len() && (#[trigger] ms[j]).path@ == "hash_key"@;
            assert(j == i);
        }
        if has_hash_marker(ms, i + 1) {
            let j = choose|j: int| i + 1 <= j < ms.len() && (#[trigger] ms[j]).path@ == "hash_key"@;
            assert(i <= j < ms.len() && ms[j].path@ == "hash_key"@);
        }
        if m.path@ == "hash_key"@ {
            assert(i <= i < ms.len() && ms[i].path@ == "hash_key"@);
        }
    } else {
        assert(!has_hash_marker(ms, i));
    }
}

proof fn lemma_plain_markers(o: RolesView, ms: Seq<Marker>, i: int)
    requires
        0 <= i,
        forall|j: int|
            0 <= j < ms.len() ==> (#[trigger] ms[j]).path@ != "hash_key"@ && ms[j].path@
                != "sort_key"@,
    ensures
        apply_markers(o, ms, i) == Some(o),
    decreases ms.len() - i,
{
    if i < ms.len() {
        lemma_plain_markers(o, ms, i + 1);
    }
}

proof fn lemma_well_formed_fields(fs: Seq<FieldDecl>, i: int)
    requires
        0 <= i,
        malformed_from(fs, i) < 0,
    ensures
        forall|j: int| i <= j < fs.len() ==> (#[trigger] field_roles(fs[j])) is Some,
    decreases fs.len() - i,
{
    if i < fs.len() {
        lemma_well_formed_fields(fs, i + 1);
    }
}

proof fn lemma_no_malformed(fs: Seq<FieldDecl>, i: int)
    requires
        0 <= i,
        forall|j: int| 0 <= j < fs.len() ==> (#[trigger] field_roles(fs[j])) is Some,
    ensures
        malformed_from(fs, i) < 0,
    decreases fs.len() - i,
{
    if i < fs.len() {
        lemma_no_malformed(fs, i + 1);
    }
}

proof fn lemma_default_id(fs: Seq<FieldDecl>, i: int, h: int, s: int, k: int)
    requires
        0 <= i <= fs.len(),
        0 <= k < fs.len(),
        fs[k].ident@ == "id"@,
        forall|j: int| 0 <= j < fs.len() ==> (#[trigger] field_roles(fs[j])) == Some(no_roles()),
        h < 0 ==> i <= k,
        h >= 0 ==> h < fs.len() && fs[h].ident@ == "id"@,
    ensures
        key_roles(fs, i, h, s).0 >= 0,
        key_roles(fs, i, h, s).0 < fs.len(),
        fs[key_roles(fs, i, h, s).0].ident@ == "id"@,
    decreases fs.len() - i,
{
    if i < fs.len() {
        let h2 = if takes_hash(fs, i, h) {
            i
        } else {
            h
        };
        let s2 = if takes_sort(fs, i, h, s) {
            i
        } else {
            s
        };
        lemma_default_id(fs, i + 1, h2, s2, k);
    }
}

/// With no key markers at all, a field named `id` holds the hash key, and
/// the hash key's attribute name is `id`.
pub proof fn law_default_hash_key(decl: RecordDecl, k: int)
    requires
        decl.shape == Shape::Named,
        no_key_markers(decl.fields@),
        0 <= k < decl.fields@.len(),
        decl.fields@[k].ident@ == "id"@,
    ensures
        first_malformed(decl.fields@) < 0,
        resolved_keys(decl.fields@).0 >= 0,
        decl.fields@[resolved_keys(decl.fields@).0].ident@ == "id"@,
        expected_schema(decl).hash_key.name == "id"@,
{
    let fs = decl.fields@;
    assert forall|j: int| 0 <= j < fs.len() implies (#[trigger] field_roles(fs[j])) == Some(
        no_roles(),
    ) by {
        assert forall|m: int| 0 <= m < fs[j].markers@.len() implies (#[trigger] fs[j].markers@[m]).path@
            != "hash_key"@ && fs[j].markers@[m].path@ != "sort_key"@ by {
            assert(fs[j].markers@[m] == fs[j].markers@[m]);
        }
        lemma_plain_markers(no_roles(), fs[j].markers@, 0);
    }
    lemma_no_malformed(fs, 0);
    lemma_default_id(fs, 0, -1, -1, k);
}

proof fn lemma_hash_stays(fs: Seq<FieldDecl>, i: int, h: int, s: int)
    requires
        0 <= h < i <= fs.len(),
        forall|j: int| i <= j < fs.len() ==> !(#[trigger] roles_at(fs, j)).is_hash,
    ensures
        key_roles(fs, i, h, s).0 == h,
    decreases fs.len() - i,
{
    if i < fs.len() {
        assert(!roles_at(fs, i).is_hash);
        let s2 = if takes_sort(fs, i, h, s) {
            i
        } else {
            s
        };
        lemma_hash_stays(fs, i + 1, h, s2);
    }
}

proof fn lemma_last_marked(fs: Seq<FieldDecl>, i: int, h: int, s: int, k: int)
    requires
        0 <= i <= k < fs.len(),
        roles_at(fs, k).is_hash,
        forall|j: int| k < j < fs.len() ==> !(#[trigger] roles_at(fs, j)).is_hash,
    ensures
        key_roles(fs, i, h, s).0 == k,
    decreases k - i,
{
    let h2 = if takes_hash(fs, i, h) {
        i
    } else {
        h
    };
    let s2 = if takes_sort(fs, i, h, s) {
        i
    } else {
        s
    };
    if i == k {
        lemma_hash_stays(fs, k + 1, k, s2);
    } else {
        lemma_last_marked(fs, i + 1, h2, s2, k);
    }
}

/// A field marked `hash_key` (the last one so marked) holds the hash key,
/// whatever field is named `id`, and the hash key's attribute name is the one
/// its options give, or the field's own name.
pub proof fn law_explicit_hash_key(decl: RecordDecl, k: int)
    requires
        decl.shape == Shape::Named,
        first_malformed(decl.fields@) < 0,
        0 <= k < decl.fields@.len(),
        has_hash_marker(decl.fields@[k].markers@, 0),
        forall|j: int|
            k < j < decl.fields@.len() ==> !has_hash_marker(
                (#[trigger] decl.fields@[j]).markers@,
                0,
            ),
    ensures
        resolved_keys(decl.fields@).0 == k,
        expected_schema(decl).hash_key == key_field_of(decl.fields@[k], roles_at(decl.fields@, k)),
        expected_schema(decl).hash_key.name == match roles_at(decl.fields@, k).name {
            Some(n) => n,
            None => decl.fields@[k].ident@,
        },
{
    let fs = decl.fields@;
    lemma_well_formed_fields(fs, 0);
    lemma_markers_hash(no_roles(), fs[k].markers@, 0);
    assert forall|j: int| k < j < fs.len() implies !(#[trigger] roles_at(fs, j)).is_hash by {
        assert(field_roles(fs[j]) is Some);
        lemma_markers_hash(no_roles(), fs[j].markers@, 0);
        assert(!has_hash_marker(fs[j].markers@, 0));
    }
    lemma_last_marked(fs, 0, -1, -1, k);
}

proof fn lemma_no_hash(fs: Seq<FieldDecl>, i: int, s: int)
    requires
        0 <= i <= fs.len(),
        forall|j: int| 0 <= j < fs.len() ==> !(#[trigger] roles_at(fs, j)).is_hash,
        forall|j: int| 0 <= j < fs.len() ==> (#[trigger] fs[j]).ident@ != "id"@,
    ensures
        key_roles(fs, i, -1, s).0 < 0,
    decreases fs.len() - i,
{
    if i < fs.len() {
        assert(!roles_at(fs, i).is_hash);
        assert(fs[i].ident@ != "id"@);
        let s2 = if takes_sort(fs, i, -1, s) {
            i
        } else {
            s
        };
        lemma_no_hash(fs, i + 1, s2);
    }
}

/// With no field marked `hash_key` and none named `id`, no hash key
/// resolves, so the declaration is refused with `MissingHashKey` (for
/// declarations whose markers are well formed: otherwise the malformed option
/// is reported first).
pub proof fn law_missing_hash_key(decl: RecordDecl)
    requires
        decl.shape == Shape::Named,
        first_malformed(decl.fields@) < 0,
        forall|j: int|
            0 <= j < decl.fields@.len() ==> !has_hash_marker((#[trigger] decl.fields@[j]).markers@, 0)
                && decl.fields@[j].ident@ != "id"@,
    ensures
        resolved_keys(decl.fields@).0 < 0,
{
    let fs = decl.fields@;
    lemma_well_formed_fields(fs, 0);
    assert forall|j: int| 0 <= j < fs.len() implies !(#[trigger] roles_at(fs, j)).is_hash by {
        assert(field_roles(fs[j]) is Some);
        lemma_markers_hash(no_roles(), fs[j].markers@, 0);
        assert(!has_hash_marker(fs[j].markers@, 0));
    }
    assert forall|j: int| 0 <= j < fs.len() implies (#[trigger] fs[j]).ident@ != "id"@ by {
        assert(!has_hash_marker(fs[j].markers@, 0) && fs[j].ident@ != "id"@);
    }
    lemma_no_hash(fs, 0, -1);
}

/// The key built from an entity right after the constructor made it holds
/// what the constructor was given, under the same value rule (constant,
/// prefix or the value itself) that the constructor applied.
pub proof fn law_round_trip(s: SchemaView, hash: Value, sort: Option<Value>, others: Seq<Value>)
    requires
        schema_wf(s),
        sort is Some == takes_sort_arg(s),
        others.len() == s.other_fields.len(),
        accepts(s.hash_key, hash@),
        is_key_value(produce(s.hash_key, hash@)),
        sort matches Some(v) ==> accepts(s.sort_key->Some_0, v@) && is_key_value(
            produce(s.sort_key->Some_0, v@),
        ),
    ensures
        admits(s, new_view(s, hash@, sort_arg(sort), others)),
        build_key_view(s, new_view(s, hash@, sort_arg(sort), others)) == key_part(
            s,
            hash@,
            sort_arg(sort),
        ),
{
    let e = new_view(s, hash@, sort_arg(sort), others);
    lemma_first_index_exact(e, s.hash_key.ident, 0);
    match s.sort_key {
        Some(k) => {
            assert(e[0].0 != k.ident);
            lemma_first_index_exact(e, k.ident, 1);
        },
        None => {},
    }
    assert(build_key_view(s, e) =~= key_part(s, hash@, sort_arg(sort)));
}

/// Whether the fields of `fs` have distinct names, as the fields of a
/// declared struct do.
pub open spec fn distinct_idents(fs: Seq<FieldDecl>) -> bool {
    forall|i: int, j: int| 0 <= i < j < fs.len() ==> (#[trigger] fs[i]).ident@ != (#[trigger] fs[j]).ident@
}

/// A schema resolved from a declaration whose fields have distinct names
/// keeps the hash and the sort key in distinct fields, so the round trip
/// above applies to it.
pub proof fn law_resolved_schema_wf(decl: RecordDecl)
    requires
        decl.shape == Shape::Named,
        distinct_idents(decl.fields@),
        first_malformed(decl.fields@) < 0,
        resolved_keys(decl.fields@).0 >= 0,
    ensures
        schema_wf(expected_schema(decl)),
{
    let fs = decl.fields@;
    lemma_key_roles_bounds(fs, 0, -1, -1);
    let (h, s) = resolved_keys(fs);
    if s >= 0 {
        if h < s {
            assert(fs[h].ident@ != fs[s].ident@);
        } else {
            assert(fs[s].ident@ != fs[h].ident@);
        }
    }
}

/// Reading an entry just written gives the value written.
pub proof fn lemma_lookup_put(r: RecordView, name: Seq<char>, v: AttrView)
    ensures
        lookup(put(r, name, v), name) == Some(v),
{
    lemma_first_index(r, name);
    let k = first_index(r, name);
    let r2 = put(r, name, v);
    if k < 0 {
        lemma_first_index_exact(r2, name, r.len() as int);
    } else {
        lemma_first_index_exact(r2, name, k);
    }
}

/// Under a constant sort key, the save hook leaves the sort key field set to
/// the constant, whatever the entity held, and the key built from any entity
/// carries the constant.
pub proof fn law_constant_sort_key(s: SchemaView, e: RecordView)
    requires
        s.sort_key matches Some(k) && k.const_value is Some,
    ensures
        lookup(saved_view(s, e), s.sort_key->Some_0.ident) == Some(
            AttrView::Str(s.sort_key->Some_0.const_value->Some_0),
        ),
        build_key_view(s, e)[1] == (
            s.sort_key->Some_0.ident,
            AttrView::Str(s.sort_key->Some_0.const_value->Some_0),
        ),
{
    let k = s.sort_key->Some_0;
    lemma_lookup_put(e, k.ident, AttrView::Str(k.const_value->Some_0));
}

/// Under a hash key prefix, the constructor and the key built from a hash
/// value both hold the prefix followed by the value's text.
pub proof fn law_hash_prefix(
    s: SchemaView,
    hash: Value,
    sort: Option<Value>,
    others: Seq<Value>,
)
    requires
        s.hash_key.const_value is None,
        s.hash_key.prefix is Some,
        is_key_value(hash@),
    ensures
        new_view(s, hash@, sort_arg(sort), others)[0] == (
            s.hash_key.ident,
            AttrView::Str(s.hash_key.prefix->Some_0 + text_of(hash@)->Some_0),
        ),
        key_part(s, hash@, AttrView::Other(Value::Null))[0] == (
            s.hash_key.ident,
            AttrView::Str(s.hash_key.prefix->Some_0 + text_of(hash@)->Some_0),
        ),
{
}

/// Under a sort key prefix, a query for a hash key value selects exactly the
/// items that hold that value and whose sort key is a string beginning with
/// the prefix.
pub proof fn law_query_prefix_filter(
    table: Seq<char>,
    s: SchemaView,
    hash: AttrView,
    start: Option<RecordView>,
    item: RecordView,
)
    requires
        s.sort_key matches Some(k) && k.prefix is Some,
    ensures
        selects(query_view(table, s, hash, start).condition, item) == ({
            &&& lookup(item, s.hash_key.name) matches Some(v) && same_key(v, hash)
            &&& lookup(item, s.sort_key->Some_0.name) matches Some(AttrView::Str(t))
                && s.sort_key->Some_0.prefix->Some_0.is_prefix_of(t)
        }),
{
}

/// A page has a continuation exactly when the store reported one, and the
/// query for the next page is the same query, resumed after it.
pub proof fn law_pagination(
    table: Seq<char>,
    s: SchemaView,
    hash: AttrView,
    out: QueryOutput,
)
    ensures
        record_opt_view(out.last_evaluated_key) is Some <==> out.last_evaluated_key is Some,
        query_view(table, s, hash, record_opt_view(out.last_evaluated_key)) == (QueryView {
            exclusive_start_key: record_opt_view(out.last_evaluated_key),
            ..query_view(table, s, hash, None)
        }),
{
}

} // verus!

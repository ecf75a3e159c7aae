use vstd::prelude::*;

use crate::declaration::{
    field_roles, opt_view, parse_field, FieldDecl, FieldRoles, RecordDecl, RolesView, Shape,
    TypeAttr,
};
use crate::value::str_eq;

verus! {

/// One resolved key role (hash or sort) of an entity.
#[derive(Debug)]
pub struct KeyField {
    /// The field that holds the key.
    pub ident: String,
    /// Its declared type, by source text.
    pub ty: String,
    /// The attribute name used in key conditions.
    pub name: String,
    /// A literal that replaces the field's value.
    pub const_value: Option<String>,
    /// A literal put in front of the value given to a constructor.
    pub prefix: Option<String>,
}

pub struct KeyFieldView {
    pub ident: Seq<char>,
    pub ty: Seq<char>,
    pub name: Seq<char>,
    pub const_value: Option<Seq<char>>,
    pub prefix: Option<Seq<char>>,
}

impl View for KeyField {
    type V = KeyFieldView;

    open spec fn view(&self) -> KeyFieldView {
        KeyFieldView {
            ident: self.ident@,
            ty: self.ty@,
            name: self.name@,
            const_value: opt_view(self.const_value),
            prefix: opt_view(self.prefix),
        }
    }
}

/// The key schema of a record type.
#[derive(Debug)]
pub struct EntitySchema {
    pub record_name: String,
    pub hash_key: KeyField,
    pub sort_key: Option<KeyField>,
    /// The fields that are not part of the key, with their types, in
    /// declaration order.
    pub other_fields: Vec<(String, String)>,
    /// Decorations to pass on to the key type.
    pub key_attrs: Vec<String>,
}

pub struct SchemaView {
    pub record_name: Seq<char>,
    pub hash_key: KeyFieldView,
    pub sort_key: Option<KeyFieldView>,
    pub other_fields: Seq<(Seq<char>, Seq<char>)>,
    pub key_attrs: Seq<Seq<char>>,
}

pub open spec fn key_view(k: Option<KeyField>) -> Option<KeyFieldView> {
    match k {
        Some(f) => Some(f@),
        None => None,
    }
}

impl View for EntitySchema {
    type V = SchemaView;

    open spec fn view(&self) -> SchemaView {
        SchemaView {
            record_name: self.record_name@,
            hash_key: self.hash_key@,
            sort_key: key_view(self.sort_key),
            other_fields: self.other_fields@.map_values(
                |p: (String, String)| (p.0@, p.1@),
            ),
            key_attrs: self.key_attrs@.map_values(|s: String| s@),
        }
    }
}

/// Why a record type cannot be mapped.
#[derive(Debug)]
pub enum DefinitionError {
    /// The type is not a struct with named fields.
    UnsupportedShape(Shape),
    /// A key option on the named field is not a string literal.
    MalformedOption(String),
    /// No field is marked `hash_key` and none is named `id`.
    MissingHashKey,
}

/// Index of the first field at or after `i` whose markers are malformed, or -1.
pub open spec fn malformed_from(fs: Seq<FieldDecl>, i: int) -> int
    decreases fs.len() - i,
{
    if i < 0 || i >= fs.len() {
        -1
    } else if field_roles(fs[i]) is None {
        i
    } else {
        malformed_from(fs, i + 1)
    }
}

pub open spec fn first_malformed(fs: Seq<FieldDecl>) -> int {
    malformed_from(fs, 0)
}

pub open spec fn roles_at(fs: Seq<FieldDecl>, i: int) -> RolesView {
    field_roles(fs[i])->Some_0
}

/// Whether field `i` takes the hash role, given the hash field chosen among
/// the fields before it (`h`, or -1): an explicit marker always takes it, a
/// field named `id` only while no field has.
pub open spec fn takes_hash(fs: Seq<FieldDecl>, i: int, h: int) -> bool {
    roles_at(fs, i).is_hash || (h < 0 && fs[i].ident@ == "id"@)
}

/// Whether field `i` takes the sort role: the same rule with `sort_key` and
/// `sk`, for a field that did not take the hash role.
pub open spec fn takes_sort(fs: Seq<FieldDecl>, i: int, h: int, s: int) -> bool {
    !takes_hash(fs, i, h) && (roles_at(fs, i).is_sort || (s < 0 && fs[i].ident@ == "sk"@))
}

/// The hash and sort fields chosen after scanning fields `i..`, starting from
/// the choice `(h, s)` made among the fields before `i` (-1 for none).
pub open spec fn key_roles(fs: Seq<FieldDecl>, i: int, h: int, s: int) -> (int, int)
    decreases fs.len() - i,
{
    if i < 0 || i >= fs.len() {
        (h, s)
    } else {
        key_roles(
            fs,
            i + 1,
            if takes_hash(fs, i, h) {
                i
            } else {
                h
            },
            if takes_sort(fs, i, h, s) {
                i
            } else {
                s
            },
        )
    }
}

/// The indices of the hash field and of the sort field (-1 for none).
pub open spec fn resolved_keys(fs: Seq<FieldDecl>) -> (int, int) {
    key_roles(fs, 0, -1, -1)
}

pub open spec fn key_field_of(f: FieldDecl, r: RolesView) -> KeyFieldView {
    KeyFieldView {
        ident: f.ident@,
        ty: f.ty@,
        name: match r.name {
            Some(n) => n,
            None => f.ident@,
        },
        const_value: r.const_value,
        prefix: r.prefix,
    }
}

pub open spec fn ident_of(k: Option<KeyFieldView>) -> Option<Seq<char>> {
    match k {
        Some(f) => Some(f.ident),
        None => None,
    }
}

pub open spec fn is_key_ident(id: Seq<char>, h: Seq<char>, s: Option<Seq<char>>) -> bool {
    id == h || s == Some(id)
}

/// The fields among the first `n` that are not key fields, as (ident, type).
pub open spec fn others_upto(fs: Seq<FieldDecl>, n: int, h: Seq<char>, s: Option<Seq<char>>) -> Seq<
    (Seq<char>, Seq<char>),
>
    decreases n,
{
    if n <= 0 || n > fs.len() {
        Seq::empty()
    } else if is_key_ident(fs[n - 1].ident@, h, s) {
        others_upto(fs, n - 1, h, s)
    } else {
        others_upto(fs, n - 1, h, s).push((fs[n - 1].ident@, fs[n - 1].ty@))
    }
}

/// The contents of the first `n` type attributes of the form `key_attrs(...)`.
pub open spec fn key_attrs_upto(attrs: Seq<TypeAttr>, n: int) -> Seq<Seq<char>>
    decreases n,
{
    if n <= 0 || n > attrs.len() {
        Seq::empty()
    } else {
        let a = attrs[n - 1];
        if a.path@ == "key_attrs"@ && a.tokens is Some {
            key_attrs_upto(attrs, n - 1).push(a.tokens->Some_0@)
        } else {
            key_attrs_upto(attrs, n - 1)
        }
    }
}

/// The schema of a declaration whose markers are well formed and whose hash
/// key resolves.
pub open spec fn expected_schema(d: RecordDecl) -> SchemaView {
    let fs = d.fields@;
    let (h, s) = resolved_keys(fs);
    let hk = key_field_of(fs[h], roles_at(fs, h));
    let sk = if s >= 0 {
        Some(key_field_of(fs[s], roles_at(fs, s)))
    } else {
        None
    };
    SchemaView {
        record_name: d.name@,
        hash_key: hk,
        sort_key: sk,
        other_fields: others_upto(
            fs,
            fs.len() as int,
            hk.ident,
            ident_of(sk),
        ),
        key_attrs: key_attrs_upto(d.attrs@, d.attrs@.len() as int),
    }
}

pub proof fn lemma_key_roles_bounds(fs: Seq<FieldDecl>, i: int, h: int, s: int)
    requires
        0 <= i <= fs.len(),
        -1 <= h < i,
        -1 <= s < i,
        h < 0 || s < 0 || h != s,
    ensures
        -1 <= key_roles(fs, i, h, s).0 < fs.len(),
        -1 <= key_roles(fs, i, h, s).1 < fs.len(),
        key_roles(fs, i, h, s).0 < 0 || key_roles(fs, i, h, s).1 < 0 || key_roles(fs, i, h, s).0
            != key_roles(fs, i, h, s).1,
    decreases fs.len() - i,
{
    if i < fs.len() {
        let h2 = if takes_hash(fs, i, h) {
            i
        } else {
            h
        };
        let s2 = if takes_sort(fs, i, h, s) {
            i
        } else {
            s
        };
        lemma_key_roles_bounds(fs, i + 1, h2, s2);
    }
}

fn clone_opt(o: &Option<String>) -> (r: Option<String>)
    ensures
        opt_view(r) == opt_view(*o),
{
    match o {
        Some(s) => Some(s.clone()),
        None => None,
    }
}

fn key_field(f: &FieldDecl, r: &FieldRoles) -> (k: KeyField)
    ensures
        k@ == key_field_of(*f, r@),
{
    KeyField {
        ident: f.ident.clone(),
        ty: f.ty.clone(),
        name: match &r.name {
            Some(n) => n.clone(),
            None => f.ident.clone(),
        },
        const_value: clone_opt(&r.const_value),
        prefix: clone_opt(&r.prefix),
    }
}

/// Resolves the key schema of a record declaration: the hash key is the
/// field marked `hash_key` (the last one, if several are), else the field
/// named `id`; the sort key likewise with `sort_key` and `sk`, among the
/// fields that do not hold the hash key.
pub fn derive_dynamo_entity(decl: &RecordDecl) -> (r: Result<EntitySchema, DefinitionError>)
    ensures
        decl.shape != Shape::Named ==> (r matches Err(DefinitionError::UnsupportedShape(sh))
            && sh == decl.shape),
        decl.shape == Shape::Named && first_malformed(decl.fields@) >= 0 ==> (r matches Err(
            DefinitionError::MalformedOption(f),
        ) && f@ == decl.fields@[first_malformed(decl.fields@)].ident@),
        decl.shape == Shape::Named && first_malformed(decl.fields@) < 0 && resolved_keys(
            decl.fields@,
        ).0 < 0 ==> r matches Err(DefinitionError::MissingHashKey),
        decl.shape == Shape::Named && first_malformed(decl.fields@) < 0 && resolved_keys(
            decl.fields@,
        ).0 >= 0 ==> (r matches Ok(s) && s@ == expected_schema(*decl)),
{
    if decl.shape != Shape::Named {
        return Err(DefinitionError::UnsupportedShape(decl.shape));
    }
    let ghost fs = decl.fields@;
    let n = decl.fields.len();
    let mut roles: Vec<FieldRoles> = Vec::new();
    let mut i: usize = 0;
    while i < n
        invariant
            n == fs.len(),
            fs == decl.fields@,
            decl.shape == Shape::Named,
            0 <= i <= n,
            roles@.len() == i,
            forall|j: int| 0 <= j < i ==> field_roles(#[trigger] fs[j]) == Some(roles@[j]@),
            malformed_from(fs, i as int) == first_malformed(fs),
        decreases n - i,
    {
        match parse_field(&decl.fields[i]) {
            Some(x) => {
                roles.push(x);
            },
            None => {
                return Err(DefinitionError::MalformedOption(decl.fields[i].ident.clone()));
            },
        }
        i = i + 1;
    }
    let mut h: Option<usize> = None;
    let mut s: Option<usize> = None;
    let ghost hi: int = -1;
    let ghost si: int = -1;
    i = 0;
    while i < n
        invariant
            n == fs.len(),
            fs == decl.fields@,
            roles@.len() == n,
            forall|j: int| 0 <= j < n ==> field_roles(#[trigger] fs[j]) == Some(roles@[j]@),
            0 <= i <= n,
            -1 <= hi < i,
            -1 <= si < i,
            hi < 0 || si < 0 || hi != si,
            h matches Some(k) ==> hi == k,
            h is None ==> hi == -1,
            s matches Some(k) ==> si == k,
            s is None ==> si == -1,
            key_roles(fs, i as int, hi, si) == resolved_keys(fs),
        decreases n - i,
    {
        let id = decl.fields[i].ident.as_str();
        let th = roles[i].is_hash || (h.is_none() && str_eq(id, "id"));
        let ts = !th && (roles[i].is_sort || (s.is_none() && str_eq(id, "sk")));
        assert(th == takes_hash(fs, i as int, hi));
        assert(ts == takes_sort(fs, i as int, hi, si));
        if th {
            h = Some(i);
            proof {
                hi = i as int;
            }
        }
        if ts {
            s = Some(i);
            proof {
                si = i as int;
            }
        }
        i = i + 1;
    }
    let hk = match h {
        Some(k) => k,
        None => {
            return Err(DefinitionError::MissingHashKey);
        },
    };
    let hash_key = key_field(&decl.fields[hk], &roles[hk]);
    let sort_key = match s {
        Some(k) => Some(key_field(&decl.fields[k], &roles[k])),
        None => None,
    };
    let ghost sk_ident: Option<Seq<char>> = ident_of(key_view(sort_key));
    let mut other_fields: Vec<(String, String)> = Vec::new();
    i = 0;
    while i < n
        invariant
            n == fs.len(),
            fs == decl.fields@,
            0 <= i <= n,
            sk_ident == ident_of(key_view(sort_key)),
            other_fields@.map_values(|p: (String, String)| (p.0@, p.1@)) == others_upto(
                fs,
                i as int,
                hash_key.ident@,
                sk_ident,
            ),
        decreases n - i,
    {
        let f = &decl.fields[i];
        let is_key = str_eq(f.ident.as_str(), hash_key.ident.as_str()) || match &sort_key {
            Some(k) => str_eq(f.ident.as_str(), k.ident.as_str()),
            None => false,
        };
        let ghost before = other_fields@;
        if !is_key {
            other_fields.push((f.ident.clone(), f.ty.clone()));
            assert(other_fields@.map_values(|p: (String, String)| (p.0@, p.1@)) =~= before.map_values(
                |p: (String, String)| (p.0@, p.1@),
            ).push((f.ident@, f.ty@)));
        }
        i = i + 1;
    }
    let mut key_attrs: Vec<String> = Vec::new();
    let m = decl.attrs.len();
    let mut j: usize = 0;
    while j < m
        invariant
            m == decl.attrs@.len(),
            0 <= j <= m,
            key_attrs@.map_values(|s: String| s@) == key_attrs_upto(decl.attrs@, j as int),
        decreases m - j,
    {
        let a = &decl.attrs[j];
        let ghost before = key_attrs@;
        if str_eq(a.path.as_str(), "key_attrs") {
            match &a.tokens {
                Some(t) => {
                    key_attrs.push(t.clone());
                    assert(key_attrs@.map_values(|s: String| s@) =~= before.map_values(
                        |s: String| s@,
                    ).push(t@));
                },
                None => {},
            }
        }
        j = j + 1;
    }
    let schema = EntitySchema {
        record_name: decl.name.clone(),
        hash_key,
        sort_key,
        other_fields,
        key_attrs,
    };
    proof {
        lemma_key_roles_bounds(fs, 0, -1, -1);
    }
    Ok(schema)
}

impl DefinitionError {
    /// A description of the error for the author of the declaration.
    pub fn message(&self) -> (r: String)
        ensures
            self matches DefinitionError::UnsupportedShape(sh) ==> (sh == Shape::Enum || sh
                == Shape::Union) ==> r@ == "entity mapping can only be derived for structs"@,
            self matches DefinitionError::UnsupportedShape(sh) ==> (sh != Shape::Enum && sh
                != Shape::Union) ==> r@
                == "entity mapping requires named fields (struct with field names)"@,
            self matches DefinitionError::MalformedOption(f) ==> r@
                == "entity mapping: malformed key option on field `"@ + f@
                + "`: a string literal is expected"@,
            self is MissingHashKey ==> r@
                == "entity mapping: missing hash key. Mark a field with #[hash_key] or include a field named 'id'."@,
    {
        match self {
            DefinitionError::UnsupportedShape(sh) => {
                if *sh == Shape::Enum || *sh == Shape::Union {
                    String::from_str("entity mapping can only be derived for structs")
                } else {
                    String::from_str("entity mapping requires named fields (struct with field names)")
                }
            },
            DefinitionError::MalformedOption(f) => {
                let mut m = String::from_str("entity mapping: malformed key option on field `");
                m.append(f.as_str());
                m.append("`: a string literal is expected");
                m
            },
            DefinitionError::MissingHashKey => String::from_str(
                "entity mapping: missing hash key. Mark a field with #[hash_key] or include a field named 'id'.",
            ),
        }
    }
}

} // verus!

use vstd::prelude::*;

use crate::value::str_eq;

verus! {

/// The value given to one option inside a key marker.
#[derive(Debug)]
pub enum ArgValue {
    /// A string literal, by its contents.
    Text(String),
    /// Any other value, by its source text.
    Other(String),
    /// The option was named without `= value`.
    Missing,
}

/// One `name = value` option inside a marker, such as `prefix = "USER#"`.
#[derive(Debug)]
pub struct MarkerArg {
    pub name: String,
    pub value: ArgValue,
}

/// A marker on a field: `#[hash_key]`, `#[sort_key(const = "PROFILE")]`,
/// or any other attribute, which is kept and ignored.
#[derive(Debug)]
pub struct Marker {
    pub path: String,
    /// The options in parentheses, if the marker has a list of them.
    pub args: Option<Vec<MarkerArg>>,
}

/// One field of a record declaration.
#[derive(Debug)]
pub struct FieldDecl {
    pub ident: String,
    /// The declared type, by its source text.
    pub ty: String,
    pub markers: Vec<Marker>,
}

/// The shape of a declared type.
#[derive(Clone, Copy, Debug, PartialEq, Eq, Structural)]
pub enum Shape {
    /// A struct with named fields: the only shape that can be mapped.
    Named,
    Tuple,
    Unit,
    Enum,
    Union,
}

/// An attribute on the declared type itself: `path` and, for the list form
/// `#[path(...)]`, the text inside the parentheses.
#[derive(Debug)]
pub struct TypeAttr {
    pub path: String,
    pub tokens: Option<String>,
}

/// A record type declaration: what the key schema is resolved from.
#[derive(Debug)]
pub struct RecordDecl {
    pub name: String,
    pub shape: Shape,
    /// The fields in declaration order (meaningful for `Shape::Named`).
    pub fields: Vec<FieldDecl>,
    pub attrs: Vec<TypeAttr>,
}

/// What the key markers of one field say.
#[derive(Debug)]
pub struct FieldRoles {
    pub is_hash: bool,
    pub is_sort: bool,
    pub name: Option<String>,
    pub prefix: Option<String>,
    pub const_value: Option<String>,
}

pub struct RolesView {
    pub is_hash: bool,
    pub is_sort: bool,
    pub name: Option<Seq<char>>,
    pub prefix: Option<Seq<char>>,
    pub const_value: Option<Seq<char>>,
}

pub open spec fn opt_view(o: Option<String>) -> Option<Seq<char>> {
    match o {
        Some(s) => Some(s@),
        None => None,
    }
}

impl View for FieldRoles {
    type V = RolesView;

    open spec fn view(&self) -> RolesView {
        RolesView {
            is_hash: self.is_hash,
            is_sort: self.is_sort,
            name: opt_view(self.name),
            prefix: opt_view(self.prefix),
            const_value: opt_view(self.const_value),
        }
    }
}

pub open spec fn no_roles() -> RolesView {
    RolesView { is_hash: false, is_sort: false, name: None, prefix: None, const_value: None }
}

/// Applies one option of a marker. `in_sort` tells a `sort_key` marker from
/// a `hash_key` one: only the former knows `const`. Options of other names
/// are ignored; a known option whose value is not a string literal is
/// malformed (`None`).
pub open spec fn apply_arg(o: RolesView, arg: MarkerArg, in_sort: bool) -> Option<RolesView> {
    let n = arg.name@;
    if n == "name"@ || n == "prefix"@ || (in_sort && n == "const"@) {
        match arg.value {
            ArgValue::Text(t) => Some(
                if n == "name"@ {
                    RolesView { name: Some(t@), ..o }
                } else if n == "prefix"@ {
                    RolesView { prefix: Some(t@), ..o }
                } else {
                    RolesView { const_value: Some(t@), ..o }
                },
            ),
            _ => None,
        }
    } else {
        Some(o)
    }
}

/// Applies the options `args[i..]` in order.
pub open spec fn apply_args(o: RolesView, args: Seq<MarkerArg>, in_sort: bool, i: int) -> Option<
    RolesView,
>
    decreases args.len() - i,
{
    if i < 0 || i >= args.len() {
        Some(o)
    } else {
        match apply_arg(o, args[i], in_sort) {
            Some(o2) => apply_args(o2, args, in_sort, i + 1),
            None => None,
        }
    }
}

pub open spec fn args_of(m: Marker) -> Seq<MarkerArg> {
    match m.args {
        Some(a) => a@,
        None => Seq::empty(),
    }
}

/// Applies one marker: `hash_key` and `sort_key` set their role and read
/// their options; any other marker changes nothing.
pub open spec fn apply_marker(o: RolesView, m: Marker) -> Option<RolesView> {
    if m.path@ == "hash_key"@ {
        apply_args(RolesView { is_hash: true, ..o }, args_of(m), false, 0)
    } else if m.path@ == "sort_key"@ {
        apply_args(RolesView { is_sort: true, ..o }, args_of(m), true, 0)
    } else {
        Some(o)
    }
}

pub open spec fn apply_markers(o: RolesView, ms: Seq<Marker>, i: int) -> Option<RolesView>
    decreases ms.len() - i,
{
    if i < 0 || i >= ms.len() {
        Some(o)
    } else {
        match apply_marker(o, ms[i]) {
            Some(o2) => apply_markers(o2, ms, i + 1),
            None => None,
        }
    }
}

/// The roles and options that the markers of `f` give it, in marker order
/// (a later option overrides an earlier one); `None` if one is malformed.
pub open spec fn field_roles(f: FieldDecl) -> Option<RolesView> {
    apply_markers(no_roles(), f.markers@, 0)
}

fn parse_args(o: &mut FieldRoles, args: &Vec<MarkerArg>, in_sort: bool) -> (ok: bool)
    ensures
        ok ==> apply_args(old(o)@, args@, in_sort, 0) == Some(final(o)@),
        !ok ==> apply_args(old(o)@, args@, in_sort, 0) is None,
{
    let ghost start = o@;
    let mut i: usize = 0;
    while i < args.len()
        invariant
            0 <= i <= args@.len(),
            start == old(o)@,
            apply_args(o@, args@, in_sort, i as int) == apply_args(start, args@, in_sort, 0),
        decreases args@.len() - i,
    {
        let arg = &args[i];
        let is_name = str_eq(arg.name.as_str(), "name");
        let is_prefix = str_eq(arg.name.as_str(), "prefix");
        let is_const = in_sort && str_eq(arg.name.as_str(), "const");
        if is_name || is_prefix || is_const {
            match &arg.value {
                ArgValue::Text(t) => {
                    if is_name {
                        o.name = Some(t.clone());
                    } else if is_prefix {
                        o.prefix = Some(t.clone());
                    } else {
                        o.const_value = Some(t.clone());
                    }
                },
                _ => {
                    return false;
                },
            }
        }
        i = i + 1;
    }
    true
}

/// Reads the key markers of one field.
pub fn parse_field(f: &FieldDecl) -> (r: Option<FieldRoles>)
    ensures
        r matches Some(x) ==> field_roles(*f) == Some(x@),
        r is None ==> field_roles(*f) is None,
{
    let mut o = FieldRoles {
        is_hash: false,
        is_sort: false,
        name: None,
        prefix: None,
        const_value: None,
    };
    let mut i: usize = 0;
    while i < f.markers.len()
        invariant
            0 <= i <= f.markers@.len(),
            apply_markers(o@, f.markers@, i as int) == field_roles(*f),
        decreases f.markers@.len() - i,
    {
        let m = &f.markers[i];
        let is_hash = str_eq(m.path.as_str(), "hash_key");
        let is_sort = str_eq(m.path.as_str(), "sort_key");
        if is_hash || is_sort {
            if is_hash {
                o.is_hash = true;
            } else {
                o.is_sort = true;
            }
            match &m.args {
                Some(args) => {
                    if !parse_args(&mut o, args, !is_hash) {
                        return None;
                    }
                },
                None => {},
            }
        }
        i = i + 1;
    }
    Some(o)
}

} // verus!

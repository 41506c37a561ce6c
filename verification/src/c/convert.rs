//! Conversion of TypeScript type descriptions into C types and type definitions.
use vstd::prelude::*;
use crate::ts;
use crate::ts::{graph_wf, info_wf, refs_below, TypeGraph};
use super::{defs_view, lemma_views_of_push, views_of, CType, TypeExpr};
use super::type_def::{
    fields_view, strings_view, DefModel, EnumDef, EnumModel, EnumVariant, FieldModel, TypeDef, TypeDefInner,
    TypeDefModel, VariantModel,
};

verus! {

/// Whether `s` holds exactly the text `lit`.
pub(crate) fn name_is(s: &String, lit: &str) -> (r: bool)
    ensures
        r == (s@ == lit@),
{
    *s == String::from_str(lit)
}

pub open spec fn is_null_name(e: ts::TypeExpr) -> bool {
    e matches ts::TypeExpr::Name(n) && n.name@ == "null"@
}

/// The members that are not the type `null`, in order.
pub open spec fn non_null(ms: Seq<ts::TypeExpr>) -> Seq<ts::TypeExpr>
    decreases ms.len(),
{
    if ms.len() == 0 {
        Seq::empty()
    } else if is_null_name(ms.last()) {
        non_null(ms.drop_last())
    } else {
        non_null(ms.drop_last()).push(ms.last())
    }
}

pub proof fn lemma_non_null_members(ms: Seq<ts::TypeExpr>)
    ensures
        non_null(ms).len() <= ms.len(),
        forall|k: int| 0 <= k < non_null(ms).len() ==> #[trigger] ms.contains(non_null(ms)[k]),
    decreases ms.len(),
{
    if ms.len() > 0 {
        lemma_non_null_members(ms.drop_last());
        assert forall|k: int| 0 <= k < non_null(ms).len() implies #[trigger] ms.contains(non_null(ms)[k]) by {
            if k < non_null(ms.drop_last()).len() {
                let x = non_null(ms.drop_last())[k];
                assert(ms.drop_last().contains(x));
                let w = choose|w: int| 0 <= w < ms.drop_last().len() && ms.drop_last()[w] == x;
                assert(ms[w] == x);
            } else {
                assert(ms[ms.len() - 1] == ms.last());
            }
        }
    }
}

pub open spec fn string_enum_union(u: ts::TypeUnion) -> bool {
    u.members@.len() > 0 && forall|k: int| 0 <= k < u.members@.len() ==> #[trigger] u.members@[k] is String
}

/// The C type of a TypeScript expression whose direct references are below `bound`.
pub open spec fn ctype_from_expr(g: TypeGraph, e: ts::TypeExpr, bound: nat) -> CType
    decreases bound, 2int, e,
{
    match e {
        ts::TypeExpr::Ref(j) => if j < bound {
            ctype_from_info(g, j)
        } else {
            CType::Void
        },
        ts::TypeExpr::Name(n) => if n.name@ == "number"@ {
            CType::F64
        } else if n.name@ == "string"@ {
            CType::String
        } else if n.name@ == "boolean"@ {
            CType::Bool
        } else if n.name@ == "null"@ || n.name@ == "undefined"@ || n.name@ == "void"@ || n.name@
            == "never"@ {
            CType::Void
        } else if n.name@ == "Record"@ && n.generic_args@.len() == 2 {
            CType::Record(Box::new(ctype_from_expr(g, n.generic_args@[1], bound)))
        } else {
            CType::Struct(n.name@)
        },
        ts::TypeExpr::Array(a) => CType::Array(Box::new(ctype_from_expr(g, *a.item, bound))),
        ts::TypeExpr::Union(u) => {
            let nn = non_null(u.members@);
            if nn.len() == 1 {
                proof {
                    lemma_non_null_members(u.members@);
                    assert(u.members@.contains(nn[0]));
                }
                if nn.len() < u.members@.len() {
                    CType::Optional(Box::new(ctype_from_expr(g, nn[0], bound)))
                } else {
                    ctype_from_expr(g, nn[0], bound)
                }
            } else {
                CType::Void
            }
        },
        ts::TypeExpr::Tuple(t) => if t.elements@.len() == 0 {
            CType::Void
        } else {
            CType::Tuple(ctypes_from_list(g, t.elements@, bound))
        },
        ts::TypeExpr::String(_) => CType::String,
        _ => CType::Void,
    }
}

pub open spec fn ctypes_from_list(g: TypeGraph, es: Seq<ts::TypeExpr>, bound: nat) -> Seq<CType>
    decreases bound, 2int, es,
{
    if es.len() == 0 {
        Seq::empty()
    } else {
        ctypes_from_list(g, es.drop_last(), bound).push(ctype_from_expr(g, es.last(), bound))
    }
}

/// The C type of the info with index `j`; numeric definitions map to the C integer
/// and float types (`Usize` and `Isize` to `uint64_t`).
pub open spec fn ctype_from_info(g: TypeGraph, j: usize) -> CType
    decreases j + 1, 1int, ts::TypeExpr::Ref(j),
{
    if j < g.infos@.len() {
        match g.infos@[j as int] {
            ts::TypeInfo::Native(n) => ctype_from_expr(g, n.expr, j as nat),
            ts::TypeInfo::Defined(d) => {
                let nm = d.def.name@;
                if nm == "U8"@ {
                    CType::U8
                } else if nm == "U16"@ {
                    CType::U16
                } else if nm == "U32"@ {
                    CType::U32
                } else if nm == "U64"@ {
                    CType::U64
                } else if nm == "I8"@ {
                    CType::I8
                } else if nm == "I16"@ {
                    CType::I16
                } else if nm == "I32"@ {
                    CType::I32
                } else if nm == "I64"@ {
                    CType::I64
                } else if nm == "F32"@ {
                    CType::F32
                } else if nm == "F64"@ {
                    CType::F64
                } else if nm == "Usize"@ || nm == "Isize"@ {
                    CType::U64
                } else {
                    ctype_from_defined(g, d, j as nat)
                }
            },
        }
    } else {
        CType::Void
    }
}

/// The C type of a named definition: a struct for an object, a string enum for a
/// union of string literals, a tagged enum for another union, else the aliased type.
pub open spec fn ctype_from_defined(g: TypeGraph, d: ts::DefinedTypeInfo, bound: nat) -> CType
    decreases bound + 1, 0int, d.def.def,
{
    match d.def.def {
        ts::TypeExpr::Object(_) => CType::Struct(d.def.name@),
        ts::TypeExpr::Union(u) => if string_enum_union(u) {
            CType::StringEnum(d.def.name@)
        } else {
            CType::TaggedEnum(d.def.name@)
        },
        other => ctype_from_expr(g, other, bound),
    }
}

pub(crate) fn is_null_name_exec(e: &ts::TypeExpr) -> (r: bool)
    ensures
        r == is_null_name(*e),
{
    match e {
        ts::TypeExpr::Name(n) => name_is(&n.name, "null"),
        _ => false,
    }
}

/// Whether the union is a union of string literals (and not empty).
pub fn is_string_enum(u: &ts::TypeUnion) -> (r: bool)
    ensures
        r == string_enum_union(*u),
{
    if u.members.len() == 0 {
        return false;
    }
    let mut i: usize = 0;
    while i < u.members.len()
        invariant
            i <= u.members.len(),
            forall|k: int| 0 <= k < i ==> #[trigger] u.members@[k] is String,
        decreases u.members.len() - i,
    {
        if !matches!(u.members[i], ts::TypeExpr::String(_)) {
            return false;
        }
        i = i + 1;
    }
    true
}

#[verifier::loop_isolation(false)]
fn ctype_from_expr_exec(g: &TypeGraph, e: &ts::TypeExpr, Ghost(bound): Ghost<nat>) -> (r: TypeExpr)
    requires
        graph_wf(*g),
        refs_below(*e, bound as int),
        bound <= g.infos@.len(),
    ensures
        r@ == ctype_from_expr(*g, *e, bound),
    decreases bound, 2int, *e,
{
    match e {
        ts::TypeExpr::Ref(j) => ctype_from_info_exec(g, *j),
        ts::TypeExpr::Name(n) => {
            if name_is(&n.name, "number") {
                TypeExpr::F64
            } else if name_is(&n.name, "string") {
                TypeExpr::String
            } else if name_is(&n.name, "boolean") {
                TypeExpr::Bool
            } else if name_is(&n.name, "null") || name_is(&n.name, "undefined") || name_is(
                &n.name,
                "void",
            ) || name_is(&n.name, "never") {
                TypeExpr::Void
            } else if name_is(&n.name, "Record") && n.generic_args.len() == 2 {
                proof {
                    assert(refs_below(n.generic_args@[1], bound as int));
                    assert(decreases_to!(*e => *n));
                    assert(decreases_to!(*n => n.generic_args));
                    assert(decreases_to!(n.generic_args => n.generic_args@));
                    assert(decreases_to!(n.generic_args@ => n.generic_args@[1]));
                }
                TypeExpr::Record(Box::new(ctype_from_expr_exec(g, &n.generic_args[1], Ghost(bound))))
            } else {
                TypeExpr::Struct(n.name.clone())
            }
        },
        ts::TypeExpr::Array(a) => TypeExpr::Array(Box::new(ctype_from_expr_exec(g, &a.item, Ghost(bound)))),
        ts::TypeExpr::Union(u) => {
            let ms = &u.members;
            let mut cnt: usize = 0;
            let mut first: usize = 0;
            let mut i: usize = 0;
            while i < ms.len()
                invariant
                    i <= ms.len(),
                    cnt == non_null(ms@.take(i as int)).len(),
                    cnt <= i,
                    cnt > 0 ==> first < i && ms@[first as int] == non_null(ms@.take(i as int))[0],
                decreases ms.len() - i,
            {
                proof {
                    assert(ms@.take(i as int + 1).drop_last() =~= ms@.take(i as int));
                }
                if !is_null_name_exec(&ms[i]) {
                    if cnt == 0 {
                        first = i;
                    }
                    cnt = cnt + 1;
                }
                i = i + 1;
            }
            proof {
                assert(ms@.take(ms@.len() as int) =~= ms@);
            }
            if cnt == 1 {
                proof {
                    assert(refs_below(ms@[first as int], bound as int));
                    assert(decreases_to!(*e => *u));
                    assert(decreases_to!(*u => u.members));
                    assert(decreases_to!(u.members => u.members@));
                    assert(decreases_to!(u.members@ => u.members@[first as int]));
                }
                let inner = ctype_from_expr_exec(g, &ms[first], Ghost(bound));
                if cnt < ms.len() {
                    TypeExpr::Optional(Box::new(inner))
                } else {
                    inner
                }
            } else {
                TypeExpr::Void
            }
        },
        ts::TypeExpr::Tuple(t) => {
            if t.elements.len() == 0 {
                TypeExpr::Void
            } else {
                let es = &t.elements;
                let mut r: Vec<TypeExpr> = Vec::new();
                let mut i: usize = 0;
                while i < es.len()
                    invariant
                        i <= es.len(),
                        views_of(r@) == ctypes_from_list(*g, es@.take(i as int), bound),
                    decreases es.len() - i,
                {
                    proof {
                        assert(refs_below(es@[i as int], bound as int));
                        assert(decreases_to!(*e => *t));
                        assert(decreases_to!(*t => t.elements));
                        assert(decreases_to!(t.elements => t.elements@));
                        assert(decreases_to!(t.elements@ => t.elements@[i as int]));
                    }
                    let c = ctype_from_expr_exec(g, &es[i], Ghost(bound));
                    proof {
                        assert(es@.take(i as int + 1).drop_last() =~= es@.take(i as int));
                        lemma_views_of_push(r@, c);
                    }
                    r.push(c);
                    i = i + 1;
                }
                proof {
                    assert(es@.take(es@.len() as int) =~= es@);
                }
                TypeExpr::Tuple(r)
            }
        },
        ts::TypeExpr::String(_) => TypeExpr::String,
        _ => TypeExpr::Void,
    }
}

#[verifier::loop_isolation(false)]
fn ctype_from_info_exec(g: &TypeGraph, j: usize) -> (r: TypeExpr)
    requires
        graph_wf(*g),
        j < g.infos@.len(),
    ensures
        r@ == ctype_from_info(*g, j),
    decreases j + 1, 1int, ts::TypeExpr::Ref(j),
{
    proof {
        assert(info_wf(*g, j as int));
    }
    match &g.infos[j] {
        ts::TypeInfo::Native(n) => ctype_from_expr_exec(g, &n.expr, Ghost(j as nat)),
        ts::TypeInfo::Defined(d) => {
            let nm = &d.def.name;
            if name_is(nm, "U8") {
                TypeExpr::U8
            } else if name_is(nm, "U16") {
                TypeExpr::U16
            } else if name_is(nm, "U32") {
                TypeExpr::U32
            } else if name_is(nm, "U64") {
                TypeExpr::U64
            } else if name_is(nm, "I8") {
                TypeExpr::I8
            } else if name_is(nm, "I16") {
                TypeExpr::I16
            } else if name_is(nm, "I32") {
                TypeExpr::I32
            } else if name_is(nm, "I64") {
                TypeExpr::I64
            } else if name_is(nm, "F32") {
                TypeExpr::F32
            } else if name_is(nm, "F64") {
                TypeExpr::F64
            } else if name_is(nm, "Usize") || name_is(nm, "Isize") {
                TypeExpr::U64
            } else {
                ctype_from_defined_exec(g, d, Ghost(j as nat))
            }
        },
    }
}

fn ctype_from_defined_exec(g: &TypeGraph, d: &ts::DefinedTypeInfo, Ghost(bound): Ghost<nat>) -> (r: TypeExpr)
    requires
        graph_wf(*g),
        bound <= g.infos@.len(),
        d.def.def is Object || d.def.def is Union || refs_below(d.def.def, bound as int),
    ensures
        r@ == ctype_from_defined(*g, *d, bound),
    decreases bound + 1, 0int, d.def.def,
{
    match &d.def.def {
        ts::TypeExpr::Object(_) => TypeExpr::Struct(d.def.name.clone()),
        ts::TypeExpr::Union(u) => if is_string_enum(u) {
            TypeExpr::StringEnum(d.def.name.clone())
        } else {
            TypeExpr::TaggedEnum(d.def.name.clone())
        },
        other => ctype_from_expr_exec(g, other, Ghost(bound)),
    }
}

impl TypeExpr {
    /// The C type of the info with index `info` of the graph.
    pub fn from_info(g: &TypeGraph, info: usize) -> (r: TypeExpr)
        requires
            graph_wf(*g),
            info < g.infos@.len(),
        ensures
            r@ == ctype_from_info(*g, info),
    {
        ctype_from_info_exec(g, info)
    }
}

pub proof fn lemma_refs_below_mono(e: ts::TypeExpr, a: int, b: int)
    requires
        refs_below(e, a),
        a <= b,
    ensures
        refs_below(e, b),
    decreases e,
{
    match e {
        ts::TypeExpr::Name(t) => {
            assert forall|k: int| 0 <= k < t.generic_args@.len() implies refs_below(#[trigger] t.generic_args@[k], b) by {
                lemma_refs_below_mono(t.generic_args@[k], a, b);
            }
        },
        ts::TypeExpr::Tuple(t) => {
            assert forall|k: int| 0 <= k < t.elements@.len() implies refs_below(#[trigger] t.elements@[k], b) by {
                lemma_refs_below_mono(t.elements@[k], a, b);
            }
        },
        ts::TypeExpr::Object(o) => {
            assert forall|k: int| 0 <= k < o.fields@.len() implies refs_below(#[trigger] o.fields@[k].ty, b) by {
                lemma_refs_below_mono(o.fields@[k].ty, a, b);
            }
        },
        ts::TypeExpr::Array(x) => {
            lemma_refs_below_mono(*x.item, a, b);
        },
        ts::TypeExpr::Union(u) => {
            assert forall|k: int| 0 <= k < u.members@.len() implies refs_below(#[trigger] u.members@[k], b) by {
                lemma_refs_below_mono(u.members@[k], a, b);
            }
        },
        ts::TypeExpr::Intersection(u) => {
            assert forall|k: int| 0 <= k < u.members@.len() implies refs_below(#[trigger] u.members@[k], b) by {
                lemma_refs_below_mono(u.members@[k], a, b);
            }
        },
        _ => {},
    }
}

pub open spec fn string_value(m: ts::TypeExpr) -> Seq<char> {
    match m {
        ts::TypeExpr::String(s) => s.value@,
        _ => Seq::empty(),
    }
}

/// The variants of a string enum, the literals in order; none for another union.
pub open spec fn string_enum_variants(u: ts::TypeUnion) -> Option<Seq<Seq<char>>> {
    if string_enum_union(u) {
        Some(u.members@.map_values(|m: ts::TypeExpr| string_value(m)))
    } else {
        None
    }
}

pub fn get_string_enum_variants(u: &ts::TypeUnion) -> (r: Option<Vec<String>>)
    ensures
        match r {
            Some(v) => string_enum_variants(*u) == Some(strings_view(v@)),
            None => string_enum_variants(*u) is None,
        },
{
    if !is_string_enum(u) {
        return None;
    }
    let mut v: Vec<String> = Vec::new();
    let mut i: usize = 0;
    while i < u.members.len()
        invariant
            i <= u.members.len(),
            string_enum_union(*u),
            strings_view(v@) =~= u.members@.take(i as int).map_values(|m: ts::TypeExpr| string_value(m)),
        decreases u.members.len() - i,
    {
        let ghost before = v@;
        match &u.members[i] {
            ts::TypeExpr::String(s) => v.push(s.value.clone()),
            _ => v.push(String::new()),
        }
        proof {
            assert(u.members@.take(i as int + 1) =~= u.members@.take(i as int).push(u.members@[i as int]));
            assert(strings_view(v@) =~= strings_view(before).push(string_value(u.members@[i as int])));
        }
        i = i + 1;
    }
    proof {
        assert(u.members@.take(u.members@.len() as int) =~= u.members@);
    }
    Some(v)
}

/// The object that an expression stands for: the expression itself, or the
/// definition it refers to (through aliases); none for anything else.
pub open spec fn resolved_object(g: TypeGraph, e: ts::TypeExpr, bound: nat) -> Option<ts::TypeObject>
    decreases bound, e,
{
    match e {
        ts::TypeExpr::Object(o) => Some(o),
        ts::TypeExpr::Ref(j) => if j < bound && j < g.infos@.len() {
            match g.infos@[j as int] {
                ts::TypeInfo::Defined(d) => resolved_object(g, d.def.def, j as nat),
                _ => None,
            }
        } else {
            None
        },
        _ => None,
    }
}

/// The fields of an object refer only to existing infos.
pub open spec fn object_refs_ok(g: TypeGraph, o: ts::TypeObject) -> bool {
    forall|k: int| 0 <= k < o.fields@.len() ==> refs_below(#[trigger] o.fields@[k].ty, g.infos@.len() as int)
}

fn resolve_object_below<'a>(g: &'a TypeGraph, e: &'a ts::TypeExpr, Ghost(bound): Ghost<nat>) -> (r: Option<&'a ts::TypeObject>)
    requires
        graph_wf(*g),
        bound <= g.infos@.len(),
        refs_below(*e, g.infos@.len() as int),
        e matches ts::TypeExpr::Ref(j) ==> j < bound,
    ensures
        match r {
            Some(o) => resolved_object(*g, *e, bound) == Some(*o) && object_refs_ok(*g, *o),
            None => resolved_object(*g, *e, bound) is None,
        },
    decreases bound, *e,
{
    match e {
        ts::TypeExpr::Object(o) => Some(o),
        ts::TypeExpr::Ref(j) => {
            proof {
                assert(info_wf(*g, *j as int));
            }
            match &g.infos[*j] {
                ts::TypeInfo::Defined(d) => {
                    proof {
                        if !(d.def.def is Object || d.def.def is Union) {
                            lemma_refs_below_mono(d.def.def, *j as int, g.infos@.len() as int);
                        }
                    }
                    resolve_object_below(g, &d.def.def, Ghost(*j as nat))
                },
                _ => None,
            }
        },
        _ => None,
    }
}

/// The object that `expr` stands for, following references to definitions.
pub fn resolve_to_object<'a>(g: &'a TypeGraph, expr: &'a ts::TypeExpr) -> (r: Option<&'a ts::TypeObject>)
    requires
        graph_wf(*g),
        refs_below(*expr, g.infos@.len() as int),
    ensures
        match r {
            Some(o) => resolved_object(*g, *expr, g.infos@.len() as nat) == Some(*o) && object_refs_ok(*g, *o),
            None => resolved_object(*g, *expr, g.infos@.len() as nat) is None,
        },
{
    resolve_object_below(g, expr, Ghost(g.infos@.len() as nat))
}

/// The C type of a field: an optional field's type made optional, unless it is already.
pub open spec fn field_ctype(g: TypeGraph, f: ts::ObjectField) -> CType {
    let ct = ctype_from_expr(g, f.ty, g.infos@.len() as nat);
    if f.optional && !(ct is Optional) {
        CType::Optional(Box::new(ct))
    } else {
        ct
    }
}

pub open spec fn struct_fields(g: TypeGraph, o: ts::TypeObject) -> Seq<FieldModel> {
    o.fields@.map_values(|f: ts::ObjectField| (f.name.value@, field_ctype(g, f)))
}

/// The fields of an object with their C types.
pub(crate) fn generate_struct_fields(g: &TypeGraph, obj: &ts::TypeObject) -> (r: Vec<(String, TypeExpr)>)
    requires
        graph_wf(*g),
        object_refs_ok(*g, *obj),
    ensures
        fields_view(r@) == struct_fields(*g, *obj),
{
    let mut r: Vec<(String, TypeExpr)> = Vec::new();
    let mut i: usize = 0;
    while i < obj.fields.len()
        invariant
            i <= obj.fields.len(),
            graph_wf(*g),
            object_refs_ok(*g, *obj),
            fields_view(r@) =~= struct_fields(*g, *obj).take(i as int),
        decreases obj.fields.len() - i,
    {
        let f = &obj.fields[i];
        let name = f.name.value.clone();
        proof {
            assert(refs_below(obj.fields@[i as int].ty, g.infos@.len() as int));
        }
        let mut ct = ctype_from_expr_exec(g, &f.ty, Ghost(g.infos@.len() as nat));
        if f.optional && !matches!(ct, TypeExpr::Optional(_)) {
            ct = TypeExpr::Optional(Box::new(ct));
        }
        let ghost before = r@;
        r.push((name, ct));
        proof {
            assert(obj.fields@.take(i as int + 1) =~= obj.fields@.take(i as int).push(obj.fields@[i as int]));
            assert(struct_fields(*g, *obj).take(i as int + 1) =~= struct_fields(*g, *obj).take(i as int).push(
                (f.name.value@, field_ctype(*g, *f)),
            ));
            assert(fields_view(r@) =~= fields_view(before).push((f.name.value@, field_ctype(*g, *f))));
        }
        i = i + 1;
    }
    proof {
        assert(struct_fields(*g, *obj).take(obj.fields@.len() as int) =~= struct_fields(*g, *obj));
    }
    r
}

pub open spec fn tag_of(o: Option<(Seq<char>, VariantModel)>) -> Seq<char> {
    match o {
        Some(p) => p.0,
        None => Seq::empty(),
    }
}

pub open spec fn variant_of(o: Option<(Seq<char>, VariantModel)>) -> VariantModel {
    match o {
        Some(p) => p.1,
        None => VariantModel { tag_value: Seq::empty(), fields: Seq::empty() },
    }
}

/// The tag field's name and the variant that a one-field tag object gives, where
/// the field's type is a string literal; none otherwise.
pub open spec fn tag_variant(f: ts::ObjectField, fields: Seq<FieldModel>) -> Option<(Seq<char>, VariantModel)> {
    match f.ty {
        ts::TypeExpr::String(s) => Some((f.name.value@, VariantModel { tag_value: s.value@, fields })),
        _ => None,
    }
}

/// What a union member gives an internally tagged union: an object with a single
/// string literal field is a variant without data; the intersection of such an
/// object with an object (or a reference to one) is a variant with that object's
/// fields; any other member gives nothing.
pub open spec fn member_variant(g: TypeGraph, m: ts::TypeExpr) -> Option<(Seq<char>, VariantModel)> {
    match m {
        ts::TypeExpr::Object(obj) => if obj.fields@.len() == 1 {
            tag_variant(obj.fields@[0], Seq::empty())
        } else {
            None
        },
        ts::TypeExpr::Intersection(i) => if i.members@.len() == 2 {
            match i.members@[0] {
                ts::TypeExpr::Object(a) => match resolved_object(g, i.members@[1], g.infos@.len() as nat) {
                    Some(d) => if a.fields@.len() == 1 {
                        tag_variant(a.fields@[0], struct_fields(g, d))
                    } else {
                        None
                    },
                    None => None,
                },
                _ => None,
            }
        } else {
            None
        },
        _ => None,
    }
}

/// The internally tagged union that `u` describes: it has members, each gives a
/// variant, and all name the same tag field; none otherwise.
pub open spec fn tagged_union(g: TypeGraph, u: ts::TypeUnion) -> Option<EnumModel> {
    let ms = u.members@;
    if ms.len() > 0 && (forall|k: int| 0 <= k < ms.len() ==> #[trigger] member_variant(g, ms[k]) is Some) && (
    forall|k: int| 0 <= k < ms.len() ==> tag_of(#[trigger] member_variant(g, ms[k])) == tag_of(member_variant(g, ms[0]))) {
        Some(
            EnumModel {
                tag_field: tag_of(member_variant(g, ms[0])),
                variants: ms.map_values(|m: ts::TypeExpr| variant_of(member_variant(g, m))),
            },
        )
    } else {
        None
    }
}

fn tag_variant_exec(f: &ts::ObjectField, fields: Vec<(String, TypeExpr)>) -> (r: Option<(String, EnumVariant)>)
    ensures
        match r {
            Some(p) => tag_variant(*f, fields_view(fields@)) == Some((p.0@, p.1@)),
            None => tag_variant(*f, fields_view(fields@)) is None,
        },
{
    match &f.ty {
        ts::TypeExpr::String(s) => Some((f.name.value.clone(), EnumVariant { tag_value: s.value.clone(), fields })),
        _ => None,
    }
}

fn member_variant_exec(g: &TypeGraph, m: &ts::TypeExpr) -> (r: Option<(String, EnumVariant)>)
    requires
        graph_wf(*g),
        refs_below(*m, g.infos@.len() as int),
    ensures
        match r {
            Some(p) => member_variant(*g, *m) == Some((p.0@, p.1@)),
            None => member_variant(*g, *m) is None,
        },
{
    match m {
        ts::TypeExpr::Object(obj) => {
            if obj.fields.len() == 1 {
                let none: Vec<(String, TypeExpr)> = Vec::new();
                proof {
                    assert(fields_view(none@) =~= Seq::empty());
                }
                tag_variant_exec(&obj.fields[0], none)
            } else {
                None
            }
        },
        ts::TypeExpr::Intersection(i) => {
            if i.members.len() != 2 {
                return None;
            }
            match &i.members[0] {
                ts::TypeExpr::Object(a) => {
                    proof {
                        assert(refs_below(i.members@[1], g.infos@.len() as int));
                    }
                    match resolve_to_object(g, &i.members[1]) {
                        Some(d) => {
                            if a.fields.len() == 1 {
                                let fields = generate_struct_fields(g, d);
                                tag_variant_exec(&a.fields[0], fields)
                            } else {
                                None
                            }
                        },
                        None => None,
                    }
                },
                _ => None,
            }
        },
        _ => None,
    }
}

/// Reads a union as an internally tagged enum (see [`tagged_union`]).
pub fn parse_internally_tagged_union(g: &TypeGraph, u: &ts::TypeUnion) -> (r: Option<EnumDef>)
    requires
        graph_wf(*g),
        forall|k: int| 0 <= k < u.members@.len() ==> refs_below(#[trigger] u.members@[k], g.infos@.len() as int),
    ensures
        match r {
            Some(d) => tagged_union(*g, *u) == Some(d@),
            None => tagged_union(*g, *u) is None,
        },
{
    if u.members.len() == 0 {
        return None;
    }
    let mut tag_field: Option<String> = None;
    let mut variants: Vec<EnumVariant> = Vec::new();
    let mut i: usize = 0;
    while i < u.members.len()
        invariant
            0 < u.members.len(),
            i <= u.members.len(),
            graph_wf(*g),
            forall|k: int| 0 <= k < u.members@.len() ==> refs_below(#[trigger] u.members@[k], g.infos@.len() as int),
            forall|k: int| 0 <= k < i ==> #[trigger] member_variant(*g, u.members@[k]) is Some,
            (i == 0) == (tag_field is None),
            tag_field matches Some(t) ==> (t@ == tag_of(member_variant(*g, u.members@[0])) && (forall|k: int|
                0 <= k < i ==> tag_of(#[trigger] member_variant(*g, u.members@[k])) == t@)),
            variants@.map_values(|v: EnumVariant| v@) =~= u.members@.take(i as int).map_values(
                |m: ts::TypeExpr| variant_of(member_variant(*g, m)),
            ),
        decreases u.members.len() - i,
    {
        let mv = member_variant_exec(g, &u.members[i]);
        match mv {
            None => {
                return None;
            },
            Some(p) => {
                let (tf, v) = p;
                match &tag_field {
                    Some(t) => {
                        if *t != tf {
                            return None;
                        }
                    },
                    None => {},
                }
                if tag_field.is_none() {
                    tag_field = Some(tf);
                }
                let ghost before = variants@;
                variants.push(v);
                proof {
                    assert(u.members@.take(i as int + 1) =~= u.members@.take(i as int).push(u.members@[i as int]));
                    assert(variants@.map_values(|v: EnumVariant| v@) =~= before.map_values(|v: EnumVariant| v@).push(
                        variant_of(member_variant(*g, u.members@[i as int])),
                    ));
                }
            },
        }
        i = i + 1;
    }
    proof {
        assert(u.members@.take(u.members@.len() as int) =~= u.members@);
    }
    match tag_field {
        Some(t) => {
            let d = EnumDef { tag_field: t, variants };
            proof {
                assert(d@.variants =~= u.members@.map_values(|m: ts::TypeExpr| variant_of(member_variant(*g, m))));
            }
            Some(d)
        },
        None => None,
    }
}

/// The name of the definition at index `j`, where the info there is one.
pub open spec fn defined_name(g: TypeGraph, j: int) -> Option<Seq<char>> {
    match g.infos@[j] {
        ts::TypeInfo::Defined(d) => Some(d.def.name@),
        _ => None,
    }
}

/// How many of the infos `0..n` are definitions whose name `seen` lacks.
pub open spec fn count_unseen(g: TypeGraph, seen: Seq<Seq<char>>, n: nat) -> nat
    decreases n,
{
    if n == 0 {
        0
    } else {
        count_unseen(g, seen, (n - 1) as nat) + match defined_name(g, n - 1) {
            Some(nm) => if seen.contains(nm) {
                0nat
            } else {
                1nat
            },
            None => 0nat,
        }
    }
}

pub open spec fn unseen(g: TypeGraph, seen: Seq<Seq<char>>) -> nat {
    count_unseen(g, seen, g.infos@.len() as nat)
}

pub proof fn lemma_count_unseen_mono(g: TypeGraph, s1: Seq<Seq<char>>, s2: Seq<Seq<char>>, n: nat)
    requires
        forall|x: Seq<char>| s1.contains(x) ==> s2.contains(x),
    ensures
        count_unseen(g, s2, n) <= count_unseen(g, s1, n),
    decreases n,
{
    if n > 0 {
        lemma_count_unseen_mono(g, s1, s2, (n - 1) as nat);
    }
}

pub proof fn lemma_push_keeps(s: Seq<Seq<char>>, nm: Seq<char>)
    ensures
        s.push(nm).contains(nm),
        forall|x: Seq<char>| s.contains(x) ==> #[trigger] s.push(nm).contains(x),
{
    assert(s.push(nm)[s.len() as int] == nm);
    assert forall|x: Seq<char>| s.contains(x) implies #[trigger] s.push(nm).contains(x) by {
        let w = choose|w: int| 0 <= w < s.len() && s[w] == x;
        assert(s.push(nm)[w] == x);
    }
}

pub proof fn lemma_count_unseen_push(g: TypeGraph, s: Seq<Seq<char>>, nm: Seq<char>, j: int, n: nat)
    requires
        0 <= j < n,
        defined_name(g, j) == Some(nm),
        !s.contains(nm),
    ensures
        count_unseen(g, s.push(nm), n) < count_unseen(g, s, n),
    decreases n,
{
    lemma_push_keeps(s, nm);
    if j == n - 1 {
        lemma_count_unseen_mono(g, s, s.push(nm), (n - 1) as nat);
    } else {
        lemma_count_unseen_push(g, s, nm, j, (n - 1) as nat);
    }
}

/// The walk's state: the names of the definitions met so far, and the indices
/// of the definitions to declare, in order.
pub type WalkState = (Seq<Seq<char>>, Seq<usize>);

/// The walk over an expression: every reference is followed; the references of
/// a well formed graph's expressions are all below `bound`.
pub open spec fn walk_expr(g: TypeGraph, e: ts::TypeExpr, st: WalkState, bound: nat) -> WalkState
    decreases unseen(g, st.0), bound, 2int, e,
{
    match e {
        ts::TypeExpr::Ref(j) => if j < bound {
            walk_info(g, j, st)
        } else {
            st
        },
        ts::TypeExpr::Name(n) => walk_list(g, n.generic_args@, st, bound),
        ts::TypeExpr::String(_) => st,
        ts::TypeExpr::Tuple(t) => walk_list(g, t.elements@, st, bound),
        ts::TypeExpr::Object(o) => walk_fields(g, o.fields@, st, bound),
        ts::TypeExpr::Array(a) => walk_expr(g, *a.item, st, bound),
        ts::TypeExpr::Union(u) => walk_list(g, u.members@, st, bound),
        ts::TypeExpr::Intersection(i) => walk_list(g, i.members@, st, bound),
    }
}

pub open spec fn walk_list(g: TypeGraph, es: Seq<ts::TypeExpr>, st: WalkState, bound: nat) -> WalkState
    decreases unseen(g, st.0), bound, 2int, es,
{
    if es.len() == 0 {
        st
    } else {
        let s1 = walk_list(g, es.drop_last(), st, bound);
        if unseen(g, s1.0) <= unseen(g, st.0) {
            walk_expr(g, es.last(), s1, bound)
        } else {
            s1
        }
    }
}

pub open spec fn walk_fields(g: TypeGraph, fs: Seq<ts::ObjectField>, st: WalkState, bound: nat) -> WalkState
    decreases unseen(g, st.0), bound, 2int, fs,
{
    if fs.len() == 0 {
        st
    } else {
        let s1 = walk_fields(g, fs.drop_last(), st, bound);
        if unseen(g, s1.0) <= unseen(g, st.0) {
            proof {
                assert(decreases_to!(fs => fs[fs.len() - 1]));
            }
            walk_expr(g, fs.last().ty, s1, bound)
        } else {
            s1
        }
    }
}

/// The walk over the info at `j`: a built-in type's expression; a definition's
/// type arguments, then, the first time its name is met, its own type, after
/// which an object or union definition is recorded.
pub open spec fn walk_info(g: TypeGraph, j: usize, st: WalkState) -> WalkState
    decreases unseen(g, st.0), j + 1, 1int, ts::TypeExpr::Ref(j),
{
    if j < g.infos@.len() {
        match g.infos@[j as int] {
            ts::TypeInfo::Native(n) => walk_expr(g, n.expr, st, j as nat),
            ts::TypeInfo::Defined(d) => {
                let s1 = walk_list(g, d.generic_args@, st, j as nat);
                let nm = d.def.name@;
                if unseen(g, s1.0) > unseen(g, st.0) || s1.0.contains(nm) {
                    s1
                } else {
                    proof {
                        lemma_count_unseen_push(g, s1.0, nm, j as int, g.infos@.len() as nat);
                    }
                    let s2 = walk_expr(g, d.def.def, (s1.0.push(nm), s1.1), g.infos@.len() as nat);
                    if d.def.def is Object || d.def.def is Union {
                        (s2.0, s2.1.push(j))
                    } else {
                        s2
                    }
                }
            },
        }
    } else {
        st
    }
}

/// The info at `j` is an object or union definition.
pub open spec fn collectable(g: TypeGraph, j: usize) -> bool {
    j < g.infos@.len() && (g.infos@[j as int] matches ts::TypeInfo::Defined(d) && (d.def.def is Object
        || d.def.def is Union))
}

pub open spec fn outs_ok(g: TypeGraph, out: Seq<usize>) -> bool {
    forall|k: int| 0 <= k < out.len() ==> #[trigger] collectable(g, out[k])
}

/// A step of the walk only adds names, and records only object and union definitions.
pub open spec fn walk_grows(g: TypeGraph, a: WalkState, b: WalkState) -> bool {
    &&& forall|x: Seq<char>| a.0.contains(x) ==> #[trigger] b.0.contains(x)
    &&& unseen(g, b.0) <= unseen(g, a.0)
    &&& outs_ok(g, a.1) ==> outs_ok(g, b.1)
}

pub proof fn lemma_walk_expr(g: TypeGraph, e: ts::TypeExpr, st: WalkState, bound: nat)
    ensures
        walk_grows(g, st, walk_expr(g, e, st, bound)),
    decreases unseen(g, st.0), bound, 2int, e,
{
    match e {
        ts::TypeExpr::Ref(j) => if j < bound {
            lemma_walk_info(g, j, st);
        },
        ts::TypeExpr::Name(n) => lemma_walk_list(g, n.generic_args@, st, bound),
        ts::TypeExpr::String(_) => {},
        ts::TypeExpr::Tuple(t) => lemma_walk_list(g, t.elements@, st, bound),
        ts::TypeExpr::Object(o) => lemma_walk_fields(g, o.fields@, st, bound),
        ts::TypeExpr::Array(a) => lemma_walk_expr(g, *a.item, st, bound),
        ts::TypeExpr::Union(u) => lemma_walk_list(g, u.members@, st, bound),
        ts::TypeExpr::Intersection(i) => lemma_walk_list(g, i.members@, st, bound),
    }
}

pub proof fn lemma_walk_list(g: TypeGraph, es: Seq<ts::TypeExpr>, st: WalkState, bound: nat)
    ensures
        walk_grows(g, st, walk_list(g, es, st, bound)),
    decreases unseen(g, st.0), bound, 2int, es,
{
    if es.len() > 0 {
        lemma_walk_list(g, es.drop_last(), st, bound);
        let s1 = walk_list(g, es.drop_last(), st, bound);
        lemma_walk_expr(g, es.last(), s1, bound);
    }
}

pub proof fn lemma_walk_fields(g: TypeGraph, fs: Seq<ts::ObjectField>, st: WalkState, bound: nat)
    ensures
        walk_grows(g, st, walk_fields(g, fs, st, bound)),
    decreases unseen(g, st.0), bound, 2int, fs,
{
    if fs.len() > 0 {
        lemma_walk_fields(g, fs.drop_last(), st, bound);
        let s1 = walk_fields(g, fs.drop_last(), st, bound);
        assert(decreases_to!(fs => fs[fs.len() - 1]));
        lemma_walk_expr(g, fs.last().ty, s1, bound);
    }
}

pub proof fn lemma_walk_info(g: TypeGraph, j: usize, st: WalkState)
    ensures
        walk_grows(g, st, walk_info(g, j, st)),
    decreases unseen(g, st.0), j + 1, 1int, ts::TypeExpr::Ref(j),
{
    if j < g.infos@.len() {
        match g.infos@[j as int] {
            ts::TypeInfo::Native(n) => lemma_walk_expr(g, n.expr, st, j as nat),
            ts::TypeInfo::Defined(d) => {
                lemma_walk_list(g, d.generic_args@, st, j as nat);
                let s1 = walk_list(g, d.generic_args@, st, j as nat);
                let nm = d.def.name@;
                if !s1.0.contains(nm) {
                    lemma_count_unseen_push(g, s1.0, nm, j as int, g.infos@.len() as nat);
                    lemma_push_keeps(s1.0, nm);
                    let s2 = (s1.0.push(nm), s1.1);
                    lemma_walk_expr(g, d.def.def, s2, g.infos@.len() as nat);
                    let s3 = walk_expr(g, d.def.def, s2, g.infos@.len() as nat);
                    if d.def.def is Object || d.def.def is Union {
                        assert(collectable(g, j));
                        assert forall|k: int| 0 <= k < s3.1.push(j).len() && outs_ok(g, st.1) implies #[trigger] collectable(
                            g,
                            s3.1.push(j)[k],
                        ) by {
                            if k < s3.1.len() {
                                assert(s3.1.push(j)[k] == s3.1[k]);
                            }
                        }
                    }
                }
            },
        }
    }
}

fn contains_name(seen: &Vec<String>, nm: &String) -> (r: bool)
    ensures
        r == strings_view(seen@).contains(nm@),
{
    let mut i: usize = 0;
    while i < seen.len()
        invariant
            i <= seen.len(),
            forall|k: int| 0 <= k < i ==> seen@[k]@ != nm@,
        decreases seen.len() - i,
    {
        if seen[i] == *nm {
            proof {
                assert(strings_view(seen@)[i as int] == nm@);
            }
            return true;
        }
        i = i + 1;
    }
    proof {
        if strings_view(seen@).contains(nm@) {
            let w = choose|w: int| 0 <= w < strings_view(seen@).len() && strings_view(seen@)[w] == nm@;
            assert(seen@[w]@ == nm@);
        }
    }
    false
}

#[verifier::loop_isolation(false)]
fn walk_expr_exec(g: &TypeGraph, e: &ts::TypeExpr, seen: &mut Vec<String>, out: &mut Vec<usize>, Ghost(bound): Ghost<nat>)
    requires
        graph_wf(*g),
        bound <= g.infos@.len(),
        refs_below(*e, bound as int),
    ensures
        (strings_view(final(seen)@), final(out)@) == walk_expr(*g, *e, (strings_view(old(seen)@), old(out)@), bound),
    decreases unseen(*g, strings_view(old(seen)@)), bound, 2int, *e,
{
    match e {
        ts::TypeExpr::Ref(j) => walk_info_exec(g, *j, seen, out),
        ts::TypeExpr::Name(n) => {
            proof {
                assert(decreases_to!(*e => n.generic_args@));
            }
            walk_list_exec(g, &n.generic_args, seen, out, Ghost(bound))
        },
        ts::TypeExpr::String(_) => {},
        ts::TypeExpr::Tuple(t) => {
            proof {
                assert(decreases_to!(*e => t.elements@));
            }
            walk_list_exec(g, &t.elements, seen, out, Ghost(bound))
        },
        ts::TypeExpr::Object(o) => {
            proof {
                assert(decreases_to!(*e => o.fields@));
            }
            walk_fields_exec(g, &o.fields, seen, out, Ghost(bound))
        },
        ts::TypeExpr::Array(a) => walk_expr_exec(g, &a.item, seen, out, Ghost(bound)),
        ts::TypeExpr::Union(u) => {
            proof {
                assert(decreases_to!(*e => u.members@));
            }
            walk_list_exec(g, &u.members, seen, out, Ghost(bound))
        },
        ts::TypeExpr::Intersection(i) => {
            proof {
                assert(decreases_to!(*e => i.members@));
            }
            walk_list_exec(g, &i.members, seen, out, Ghost(bound))
        },
    }
}

#[verifier::loop_isolation(false)]
fn walk_list_exec(g: &TypeGraph, es: &Vec<ts::TypeExpr>, seen: &mut Vec<String>, out: &mut Vec<usize>, Ghost(bound): Ghost<nat>)
    requires
        graph_wf(*g),
        bound <= g.infos@.len(),
        forall|k: int| 0 <= k < es@.len() ==> refs_below(#[trigger] es@[k], bound as int),
    ensures
        (strings_view(final(seen)@), final(out)@) == walk_list(*g, es@, (strings_view(old(seen)@), old(out)@), bound),
    decreases unseen(*g, strings_view(old(seen)@)), bound, 2int, es@,
{
    let ghost st0: WalkState = (strings_view(seen@), out@);
    let mut i: usize = 0;
    while i < es.len()
        invariant
            i <= es.len(),
            (strings_view(seen@), out@) == walk_list(*g, es@.take(i as int), st0, bound),
            unseen(*g, strings_view(seen@)) <= unseen(*g, st0.0),
        decreases es.len() - i,
    {
        let ghost before: WalkState = (strings_view(seen@), out@);
        proof {
            assert(es@.take(i as int + 1).drop_last() =~= es@.take(i as int));
            assert(es@.take(i as int + 1).last() == es@[i as int]);
            assert(decreases_to!(es@ => es@[i as int]));
        }
        walk_expr_exec(g, &es[i], seen, out, Ghost(bound));
        proof {
            lemma_walk_expr(*g, es@[i as int], before, bound);
        }
        i = i + 1;
    }
    proof {
        assert(es@.take(es@.len() as int) =~= es@);
    }
}

#[verifier::loop_isolation(false)]
fn walk_fields_exec(g: &TypeGraph, fs: &Vec<ts::ObjectField>, seen: &mut Vec<String>, out: &mut Vec<usize>, Ghost(bound): Ghost<nat>)
    requires
        graph_wf(*g),
        bound <= g.infos@.len(),
        forall|k: int| 0 <= k < fs@.len() ==> refs_below(#[trigger] fs@[k].ty, bound as int),
    ensures
        (strings_view(final(seen)@), final(out)@) == walk_fields(*g, fs@, (strings_view(old(seen)@), old(out)@), bound),
    decreases unseen(*g, strings_view(old(seen)@)), bound, 2int, fs@,
{
    let ghost st0: WalkState = (strings_view(seen@), out@);
    let mut i: usize = 0;
    while i < fs.len()
        invariant
            i <= fs.len(),
            (strings_view(seen@), out@) == walk_fields(*g, fs@.take(i as int), st0, bound),
            unseen(*g, strings_view(seen@)) <= unseen(*g, st0.0),
        decreases fs.len() - i,
    {
        let ghost before: WalkState = (strings_view(seen@), out@);
        proof {
            assert(fs@.take(i as int + 1).drop_last() =~= fs@.take(i as int));
            assert(fs@.take(i as int + 1).last() == fs@[i as int]);
            assert(decreases_to!(fs@ => fs@[i as int]));
            assert(decreases_to!(fs@[i as int] => fs@[i as int].ty));
        }
        walk_expr_exec(g, &fs[i].ty, seen, out, Ghost(bound));
        proof {
            lemma_walk_expr(*g, fs@[i as int].ty, before, bound);
        }
        i = i + 1;
    }
    proof {
        assert(fs@.take(fs@.len() as int) =~= fs@);
    }
}

#[verifier::loop_isolation(false)]
fn walk_info_exec(g: &TypeGraph, j: usize, seen: &mut Vec<String>, out: &mut Vec<usize>)
    requires
        graph_wf(*g),
        j < g.infos@.len(),
    ensures
        (strings_view(final(seen)@), final(out)@) == walk_info(*g, j, (strings_view(old(seen)@), old(out)@)),
    decreases unseen(*g, strings_view(old(seen)@)), j + 1, 1int, ts::TypeExpr::Ref(j),
{
    proof {
        assert(info_wf(*g, j as int));
    }
    let ghost st0: WalkState = (strings_view(seen@), out@);
    match &g.infos[j] {
        ts::TypeInfo::Native(n) => walk_expr_exec(g, &n.expr, seen, out, Ghost(j as nat)),
        ts::TypeInfo::Defined(d) => {
            walk_list_exec(g, &d.generic_args, seen, out, Ghost(j as nat));
            proof {
                lemma_walk_list(*g, d.generic_args@, st0, j as nat);
            }
            if contains_name(seen, &d.def.name) {
                return;
            }
            let ghost s1: WalkState = (strings_view(seen@), out@);
            proof {
                lemma_count_unseen_push(*g, s1.0, d.def.name@, j as int, g.infos@.len() as nat);
                if !(d.def.def is Object || d.def.def is Union) {
                    lemma_refs_below_mono(d.def.def, j as int, g.infos@.len() as int);
                }
            }
            seen.push(d.def.name.clone());
            proof {
                assert(strings_view(seen@) =~= s1.0.push(d.def.name@));
            }
            walk_expr_exec(g, &d.def.def, seen, out, Ghost(g.infos@.len() as nat));
            match &d.def.def {
                ts::TypeExpr::Object(_) => out.push(j),
                ts::TypeExpr::Union(_) => out.push(j),
                _ => {},
            }
        },
    }
}

/// The infos whose definitions the bindings declare, in the order in which the
/// walk from `root` records them.
pub open spec fn collected(g: TypeGraph, root: usize) -> Seq<usize> {
    walk_info(g, root, (Seq::empty(), Seq::empty())).1
}

/// The definition of the info at `j`, where the info there is one.
pub open spec fn definition_at(g: TypeGraph, j: usize) -> Option<ts::TypeDefinition> {
    if j < g.infos@.len() {
        match g.infos@[j as int] {
            ts::TypeInfo::Defined(d) => Some(d.def),
            _ => None,
        }
    } else {
        None
    }
}

/// A union definition converts when it is a string enum or an internally
/// tagged enum; any other definition converts or is left out.
pub open spec fn convertible(g: TypeGraph, def: Option<ts::TypeDefinition>) -> bool {
    match def {
        Some(d) => match d.def {
            ts::TypeExpr::Union(u) => string_enum_variants(u) is Some || tagged_union(g, u) is Some,
            _ => true,
        },
        None => true,
    }
}

pub open spec fn all_convertible(g: TypeGraph, js: Seq<usize>) -> bool {
    forall|k: int| 0 <= k < js.len() ==> #[trigger] convertible(g, definition_at(g, js[k]))
}

/// What a recorded definition becomes: an object a struct (none where it has
/// only an index signature), a union a string enum or else a tagged enum.
pub open spec fn def_model(g: TypeGraph, def: Option<ts::TypeDefinition>) -> Option<TypeDefModel> {
    match def {
        Some(d) => match d.def {
            ts::TypeExpr::Object(o) => if o.has_index_signature && o.fields@.len() == 0 {
                None
            } else {
                Some(TypeDefModel { name: d.name@, def: DefModel::Struct { fields: struct_fields(g, o) } })
            },
            ts::TypeExpr::Union(u) => match string_enum_variants(u) {
                Some(vs) => Some(TypeDefModel { name: d.name@, def: DefModel::StringEnum { variants: vs } }),
                None => match tagged_union(g, u) {
                    Some(e) => Some(TypeDefModel { name: d.name@, def: DefModel::TaggedEnum { def: e } }),
                    None => None,
                },
            },
            _ => None,
        },
        None => None,
    }
}

pub open spec fn def_models(g: TypeGraph, js: Seq<usize>) -> Seq<TypeDefModel>
    decreases js.len(),
{
    if js.len() == 0 {
        Seq::empty()
    } else {
        let rest = def_models(g, js.drop_last());
        match def_model(g, definition_at(g, js.last())) {
            Some(m) => rest.push(m),
            None => rest,
        }
    }
}

/// The definitions that the type at `root` needs, converted; `None` where one of
/// them is a union that is neither a string enum nor internally tagged.
pub fn try_collect_type_defs(g: &TypeGraph, root: usize) -> (r: Option<Vec<TypeDef>>)
    requires
        graph_wf(*g),
        root < g.infos@.len(),
    ensures
        r is Some <==> all_convertible(*g, collected(*g, root)),
        r matches Some(v) ==> defs_view(v@) == def_models(*g, collected(*g, root)),
{
    let mut seen: Vec<String> = Vec::new();
    let mut out: Vec<usize> = Vec::new();
    walk_info_exec(g, root, &mut seen, &mut out);
    proof {
        lemma_walk_info(*g, root, (Seq::empty(), Seq::empty()));
        assert(strings_view(Seq::<String>::empty()) =~= Seq::empty());
    }
    let mut defs: Vec<TypeDef> = Vec::new();
    let mut i: usize = 0;
    while i < out.len()
        invariant
            graph_wf(*g),
            out@ == collected(*g, root),
            outs_ok(*g, out@),
            i <= out.len(),
            all_convertible(*g, out@.take(i as int)),
            defs_view(defs@) =~= def_models(*g, out@.take(i as int)),
        decreases out.len() - i,
    {
        let j = out[i];
        proof {
            assert(collectable(*g, out@[i as int]));
            assert(info_wf(*g, j as int));
            assert(out@.take(i as int + 1).drop_last() =~= out@.take(i as int));
            assert(out@.take(i as int + 1).last() == j);
        }
        let ghost before = defs@;
        match &g.infos[j] {
            ts::TypeInfo::Defined(d) => {
                match &d.def.def {
                    ts::TypeExpr::Object(o) => {
                        if !(o.has_index_signature && o.fields.len() == 0) {
                            let fields = generate_struct_fields(g, o);
                            defs.push(TypeDef { name: d.def.name.clone(), def: TypeDefInner::Struct { fields } });
                        }
                    },
                    ts::TypeExpr::Union(u) => {
                        match get_string_enum_variants(u) {
                            Some(variants) => {
                                defs.push(
                                    TypeDef { name: d.def.name.clone(), def: TypeDefInner::StringEnum { variants } },
                                );
                            },
                            None => {
                                match parse_internally_tagged_union(g, u) {
                                    Some(def) => {
                                        defs.push(
                                            TypeDef { name: d.def.name.clone(), def: TypeDefInner::TaggedEnum { def } },
                                        );
                                    },
                                    None => {
                                        proof {
                                            assert(!convertible(*g, definition_at(*g, out@[i as int])));
                                        }
                                        return None;
                                    },
                                }
                            },
                        }
                    },
                    _ => {},
                }
            },
            ts::TypeInfo::Native(_) => {},
        }
        proof {
            assert(defs_view(defs@) =~= match def_model(*g, definition_at(*g, j)) {
                Some(m) => defs_view(before).push(m),
                None => defs_view(before),
            });
            assert forall|k: int| 0 <= k < i + 1 implies #[trigger] convertible(
                *g,
                definition_at(*g, out@.take(i as int + 1)[k]),
            ) by {
                if k < i {
                    assert(out@.take(i as int + 1)[k] == out@.take(i as int)[k]);
                }
            }
        }
        i = i + 1;
    }
    proof {
        assert(out@.take(out@.len() as int) =~= out@);
    }
    Some(defs)
}

/// The definitions that the type at `root` needs, in the order of a walk that
/// records a definition after those it refers to (where they do not refer back).
pub fn collect_type_defs(g: &TypeGraph, root: usize) -> (r: Vec<TypeDef>)
    requires
        graph_wf(*g),
        root < g.infos@.len(),
        all_convertible(*g, collected(*g, root)),
    ensures
        defs_view(r@) == def_models(*g, collected(*g, root)),
{
    match try_collect_type_defs(g, root) {
        Some(v) => v,
        None => Vec::new(),
    }
}

} // verus!

//! Properties of the generators as a whole.
use vstd::prelude::*;
use crate::ts;
use crate::ts::TypeGraph;
use crate::cpp::{
    cpp_type, cpp_view_type, defined_declarations_fn, defined_definitions_fn, defined_forward_declarations_fn,
    hpp_preamble_text, hpp_text, rpc_class_head_text, rpc_method_text, rpc_method_text_fn, rpc_output,
    rpc_result_handler, rpc_ret_type, rpc_return_stmt, string_result_unref, type_expr_declarations_text, type_expr_definitions_text,
    argument_list_accessors_text, argument_list_move_text, cpp_argument_list,
};
use crate::text::{case_converted, concat_map, uppercased, CaseStyle};
use crate::procedure::{is_result, output_type, result_inner, RemoteProcedure, RustType};
use crate::c::{
    c_type, is_scalar, kept_output, needs_heap_free, parse_fn_spec, post_order, post_order_list, slug, slugs,
    type_id, visit_order, dedup_by_slug, lemma_dedup_push, lemma_dedup_slugs, CType, MethodModel, header_text,
    header_preamble_text, forward_declarations_text, forward_decls_fn, late_decls_fn, early_text, definitions_fn,
    late_text, method_text_fn, all_type_exprs, to_json_text, to_json_body, from_json_text, from_json_body,
};
use crate::c::convert::{
    collected, ctype_from_defined, ctype_from_info, def_model, def_models, definition_at, lemma_count_unseen_push, lemma_push_keeps, lemma_walk_expr,
    lemma_walk_fields, lemma_walk_list, member_variant, string_enum_union, string_enum_variants,
    struct_fields, tagged_union, unseen, walk_expr, walk_fields, walk_info, walk_list, WalkState,
};
use crate::c::type_def::{
    def_ctype, def_id, forward_decls_text, string_enum_def_text, string_enum_from_json_line,
    string_enum_from_json_line_fn, string_enum_from_json_text, string_enum_to_json_line, string_enum_to_json_line_fn,
    string_enum_to_json_text, DefModel, TypeDefModel,
};

verus! {

/// A scalar value is passed by value and never freed.
pub proof fn law_scalar_not_freed(t: CType)
    requires
        is_scalar(t),
    ensures
        !needs_heap_free(t),
{
}

/// The functions generated for a definition are named by the identifier that a
/// reference to the definition's type uses.
pub proof fn law_definition_id(d: TypeDefModel, ns: Seq<char>)
    ensures
        def_id(d, ns) == type_id(def_ctype(d), ns),
{
}

/// A method keeps no `void` output, and has a result parser exactly when it has an
/// output and is not a notification.
pub proof fn law_method_output(m: MethodModel, ns: Seq<char>, output: Option<CType>)
    ensures
        kept_output(output) matches Some(t) ==> !(t is Void),
        parse_fn_spec(m, ns) is Some <==> (m.output is Some && !m.is_notification),
{
}

/// The parts of a type that are visited before it.
pub open spec fn parts(t: CType) -> Seq<CType> {
    match t {
        CType::Array(inner) => seq![*inner],
        CType::Record(inner) => seq![*inner],
        CType::Optional(inner) => seq![*inner],
        CType::Tuple(es) => es,
        _ => Seq::empty(),
    }
}

/// Every part of every type of `s` has its slug among the types before it.
pub open spec fn parts_first(s: Seq<CType>) -> bool {
    forall|k: int, c: CType|
        0 <= k < s.len() && #[trigger] parts(s[k]).contains(c) ==> slugs(s.take(k)).contains(slug(c))
}

proof fn lemma_slugs_contains(s: Seq<CType>, x: CType)
    requires
        s.contains(x),
    ensures
        slugs(s).contains(slug(x)),
{
    let k = choose|k: int| 0 <= k < s.len() && s[k] == x;
    assert(slugs(s)[k] == slug(x));
}

proof fn lemma_parts_first_push(s: Seq<CType>, x: CType)
    requires
        parts_first(s),
        forall|c: CType| parts(x).contains(c) ==> slugs(s).contains(slug(c)),
    ensures
        parts_first(s.push(x)),
{
    let t = s.push(x);
    assert forall|k: int, c: CType| 0 <= k < t.len() && #[trigger] parts(t[k]).contains(c) implies slugs(
        t.take(k),
    ).contains(slug(c)) by {
        if k < s.len() {
            assert(t.take(k) =~= s.take(k));
            assert(t[k] == s[k]);
        } else {
            assert(t.take(k) =~= s);
        }
    }
}

proof fn lemma_parts_first_concat(a: Seq<CType>, b: Seq<CType>)
    requires
        parts_first(a),
        parts_first(b),
    ensures
        parts_first(a + b),
{
    let t = a + b;
    assert forall|k: int, c: CType| 0 <= k < t.len() && #[trigger] parts(t[k]).contains(c) implies slugs(
        t.take(k),
    ).contains(slug(c)) by {
        if k < a.len() {
            assert(t.take(k) =~= a.take(k));
            assert(t[k] == a[k]);
        } else {
            let kb = k - a.len();
            assert(t[k] == b[kb]);
            assert(parts(b[kb]).contains(c));
            let w = choose|w: int| 0 <= w < slugs(b.take(kb)).len() && slugs(b.take(kb))[w] == slug(c);
            assert(t.take(k)[a.len() + w] == b.take(kb)[w]);
            assert(slugs(t.take(k))[a.len() + w] == slug(c));
        }
    }
}

proof fn lemma_post_order(t: CType)
    ensures
        parts_first(post_order(t)),
        post_order(t).len() > 0,
        post_order(t).last() == t,
    decreases t,
{
    match t {
        CType::Array(inner) => {
            lemma_post_order(*inner);
            lemma_slugs_contains(post_order(*inner), *inner);
            lemma_parts_first_push(post_order(*inner), t);
        },
        CType::Record(inner) => {
            lemma_post_order(*inner);
            lemma_slugs_contains(post_order(*inner), *inner);
            lemma_parts_first_push(post_order(*inner), t);
        },
        CType::Optional(inner) => {
            lemma_post_order(*inner);
            lemma_slugs_contains(post_order(*inner), *inner);
            lemma_parts_first_push(post_order(*inner), t);
        },
        CType::Tuple(es) => {
            lemma_post_order_list(es);
            assert forall|c: CType| parts(t).contains(c) implies slugs(post_order_list(es)).contains(slug(c)) by {
                let i = choose|i: int| 0 <= i < es.len() && es[i] == c;
                assert(post_order_list(es).contains(es[i]));
                lemma_slugs_contains(post_order_list(es), c);
            }
            lemma_parts_first_push(post_order_list(es), t);
        },
        _ => {
            assert(parts_first(seq![t]));
        },
    }
}

proof fn lemma_post_order_list(ts: Seq<CType>)
    ensures
        parts_first(post_order_list(ts)),
        forall|i: int| 0 <= i < ts.len() ==> post_order_list(ts).contains(#[trigger] ts[i]),
    decreases ts,
{
    if ts.len() > 0 {
        let a = post_order_list(ts.drop_last());
        let b = post_order(ts.last());
        lemma_post_order_list(ts.drop_last());
        lemma_post_order(ts.last());
        lemma_parts_first_concat(a, b);
        assert forall|i: int| 0 <= i < ts.len() implies (a + b).contains(#[trigger] ts[i]) by {
            if i < ts.len() - 1 {
                assert(ts.drop_last()[i] == ts[i]);
                let w = choose|w: int| 0 <= w < a.len() && a[w] == ts[i];
                assert((a + b)[w] == ts[i]);
            } else {
                assert((a + b)[a.len() + b.len() - 1] == b.last());
            }
        }
    }
}

proof fn lemma_dedup_parts_first(s: Seq<CType>)
    requires
        parts_first(s),
    ensures
        parts_first(dedup_by_slug(s)),
    decreases s.len(),
{
    if s.len() > 0 {
        let p = s.drop_last();
        let x = s.last();
        assert forall|k: int, c: CType| 0 <= k < p.len() && #[trigger] parts(p[k]).contains(c) implies slugs(
            p.take(k),
        ).contains(slug(c)) by {
            assert(p.take(k) =~= s.take(k));
            assert(p[k] == s[k]);
        }
        lemma_dedup_parts_first(p);
        if !slugs(p).contains(slug(x)) {
            assert forall|c: CType| parts(x).contains(c) implies slugs(dedup_by_slug(p)).contains(slug(c)) by {
                assert(s[s.len() - 1] == x);
                assert(s.take(s.len() - 1) =~= p);
                lemma_dedup_slugs(p, slug(c));
            }
            lemma_parts_first_push(dedup_by_slug(p), x);
        }
    }
}

proof fn lemma_dedup_distinct(s: Seq<CType>)
    ensures
        forall|i: int, j: int|
            0 <= i < j < dedup_by_slug(s).len() ==> slug(#[trigger] dedup_by_slug(s)[i]) != slug(
                #[trigger] dedup_by_slug(s)[j],
            ),
    decreases s.len(),
{
    if s.len() > 0 {
        let p = s.drop_last();
        let x = s.last();
        assert(s =~= p.push(x));
        lemma_dedup_push(p, x);
        lemma_dedup_distinct(p);
        if !slugs(p).contains(slug(x)) {
            lemma_dedup_slugs(p, slug(x));
            let d = dedup_by_slug(p);
            assert forall|i: int, j: int| 0 <= i < j < d.push(x).len() implies slug(#[trigger] d.push(x)[i]) != slug(
                #[trigger] d.push(x)[j],
            ) by {
                if j == d.len() {
                    assert(slugs(d)[i] == slug(d[i]));
                } else {
                    assert(d.push(x)[i] == d[i]);
                    assert(d.push(x)[j] == d[j]);
                }
            }
        }
    }
}

/// The generators visit every type that the given types hold, each after its
/// parts and no two with the same slug: so each C type is declared once, and
/// after the types it uses.
pub proof fn law_visit_order(types: Seq<CType>)
    ensures
        forall|i: int, j: int|
            0 <= i < j < visit_order(types).len() ==> slug(#[trigger] visit_order(types)[i]) != slug(
                #[trigger] visit_order(types)[j],
            ),
        parts_first(visit_order(types)),
        forall|t: CType| #[trigger] post_order_list(types).contains(t) ==> slugs(visit_order(types)).contains(slug(t)),
        forall|i: int| 0 <= i < types.len() ==> slugs(visit_order(types)).contains(slug(#[trigger] types[i])),
{
    lemma_post_order_list(types);
    lemma_dedup_parts_first(post_order_list(types));
    lemma_dedup_distinct(post_order_list(types));
    assert forall|t: CType| #[trigger] post_order_list(types).contains(t) implies slugs(visit_order(types)).contains(
        slug(t),
    ) by {
        lemma_slugs_contains(post_order_list(types), t);
        lemma_dedup_slugs(post_order_list(types), slug(t));
    }
    assert forall|i: int| 0 <= i < types.len() implies slugs(visit_order(types)).contains(slug(#[trigger] types[i])) by {
        assert(post_order_list(types).contains(types[i]));
    }
}

/// A union of string literals is a string enum and never an internally tagged one.
pub proof fn law_string_enum_not_tagged(g: TypeGraph, u: ts::TypeUnion)
    requires
        string_enum_union(u),
    ensures
        string_enum_variants(u) is Some,
        tagged_union(g, u) is None,
{
    assert(member_variant(g, u.members@[0]) is None);
}

/// An optional field's C type is optional.
pub proof fn law_optional_fields(g: TypeGraph, o: ts::TypeObject)
    ensures
        forall|k: int|
            0 <= k < o.fields@.len() && (#[trigger] o.fields@[k]).optional ==> struct_fields(g, o)[k].1 is Optional,
{
}

/// The names of the numeric definitions, which convert to C numbers.
pub open spec fn is_numeric_name(nm: Seq<char>) -> bool {
    nm == "U8"@ || nm == "U16"@ || nm == "U32"@ || nm == "U64"@ || nm == "I8"@ || nm == "I16"@ || nm == "I32"@
        || nm == "I64"@ || nm == "F32"@ || nm == "F64"@ || nm == "Usize"@ || nm == "Isize"@
}

/// A reference to a definition converts to the C type that names the definition
/// that the collection makes of it.
pub proof fn law_definition_type(g: TypeGraph, j: usize)
    requires
        definition_at(g, j) matches Some(d) && !is_numeric_name(d.name@),
        def_model(g, definition_at(g, j)) is Some,
    ensures
        ctype_from_info(g, j) == def_ctype(def_model(g, definition_at(g, j))->0),
{
}

/// The name of the definition at `j` (empty where there is none).
pub open spec fn out_name(g: TypeGraph, j: usize) -> Seq<char> {
    match definition_at(g, j) {
        Some(d) => d.name@,
        None => Seq::empty(),
    }
}

/// From `a` to `b` the walk only appends definitions, each under a name that `a`
/// had not met and `b` has, and no two of them under the same name.
pub open spec fn records_fresh(g: TypeGraph, a: WalkState, b: WalkState) -> bool {
    &&& a.1.len() <= b.1.len()
    &&& b.1.take(a.1.len() as int) == a.1
    &&& forall|k: int|
        a.1.len() <= k < b.1.len() ==> !a.0.contains(#[trigger] out_name(g, b.1[k])) && b.0.contains(
            out_name(g, b.1[k]),
        )
    &&& forall|k: int, l: int|
        a.1.len() <= k < l < b.1.len() ==> #[trigger] out_name(g, b.1[k]) != #[trigger] out_name(g, b.1[l])
}

proof fn lemma_fresh_refl(g: TypeGraph, a: WalkState)
    ensures
        records_fresh(g, a, a),
{
    assert(a.1.take(a.1.len() as int) =~= a.1);
}

proof fn lemma_fresh_trans(g: TypeGraph, a: WalkState, b: WalkState, c: WalkState)
    requires
        records_fresh(g, a, b),
        records_fresh(g, b, c),
        forall|x: Seq<char>| a.0.contains(x) ==> #[trigger] b.0.contains(x),
        forall|x: Seq<char>| b.0.contains(x) ==> #[trigger] c.0.contains(x),
    ensures
        records_fresh(g, a, c),
{
    assert(c.1.take(a.1.len() as int) =~= c.1.take(b.1.len() as int).take(a.1.len() as int));
    assert forall|k: int| a.1.len() <= k < b.1.len() implies c.1[k] == b.1[k] by {
        assert(c.1.take(b.1.len() as int)[k] == c.1[k]);
    }
    assert forall|k: int| a.1.len() <= k < c.1.len() implies !a.0.contains(#[trigger] out_name(g, c.1[k]))
        && c.0.contains(out_name(g, c.1[k])) by {
        if k < b.1.len() {
            assert(c.1[k] == b.1[k]);
            assert(b.0.contains(out_name(g, b.1[k])));
        } else {
            assert(!b.0.contains(out_name(g, c.1[k])));
        }
    }
    assert forall|k: int, l: int| a.1.len() <= k < l < c.1.len() implies #[trigger] out_name(g, c.1[k])
        != #[trigger] out_name(g, c.1[l]) by {
        if l < b.1.len() {
            assert(c.1[k] == b.1[k]);
            assert(c.1[l] == b.1[l]);
        } else if k < b.1.len() {
            assert(c.1[k] == b.1[k]);
            assert(b.0.contains(out_name(g, b.1[k])));
            assert(!b.0.contains(out_name(g, c.1[l])));
        }
    }
}

proof fn lemma_fresh_expr(g: TypeGraph, e: ts::TypeExpr, st: WalkState, bound: nat)
    ensures
        records_fresh(g, st, walk_expr(g, e, st, bound)),
    decreases unseen(g, st.0), bound, 2int, e,
{
    match e {
        ts::TypeExpr::Ref(j) => if j < bound {
            lemma_fresh_info(g, j, st);
        } else {
            lemma_fresh_refl(g, st);
        },
        ts::TypeExpr::Name(n) => lemma_fresh_list(g, n.generic_args@, st, bound),
        ts::TypeExpr::String(_) => lemma_fresh_refl(g, st),
        ts::TypeExpr::Tuple(t) => lemma_fresh_list(g, t.elements@, st, bound),
        ts::TypeExpr::Object(o) => lemma_fresh_fields(g, o.fields@, st, bound),
        ts::TypeExpr::Array(a) => lemma_fresh_expr(g, *a.item, st, bound),
        ts::TypeExpr::Union(u) => lemma_fresh_list(g, u.members@, st, bound),
        ts::TypeExpr::Intersection(i) => lemma_fresh_list(g, i.members@, st, bound),
    }
}

proof fn lemma_fresh_list(g: TypeGraph, es: Seq<ts::TypeExpr>, st: WalkState, bound: nat)
    ensures
        records_fresh(g, st, walk_list(g, es, st, bound)),
    decreases unseen(g, st.0), bound, 2int, es,
{
    if es.len() == 0 {
        lemma_fresh_refl(g, st);
    } else {
        lemma_fresh_list(g, es.drop_last(), st, bound);
        lemma_walk_list(g, es.drop_last(), st, bound);
        let s1 = walk_list(g, es.drop_last(), st, bound);
        lemma_fresh_expr(g, es.last(), s1, bound);
        lemma_walk_expr(g, es.last(), s1, bound);
        lemma_fresh_trans(g, st, s1, walk_expr(g, es.last(), s1, bound));
    }
}

proof fn lemma_fresh_fields(g: TypeGraph, fs: Seq<ts::ObjectField>, st: WalkState, bound: nat)
    ensures
        records_fresh(g, st, walk_fields(g, fs, st, bound)),
    decreases unseen(g, st.0), bound, 2int, fs,
{
    if fs.len() == 0 {
        lemma_fresh_refl(g, st);
    } else {
        lemma_fresh_fields(g, fs.drop_last(), st, bound);
        lemma_walk_fields(g, fs.drop_last(), st, bound);
        let s1 = walk_fields(g, fs.drop_last(), st, bound);
        assert(decreases_to!(fs => fs[fs.len() - 1]));
        lemma_fresh_expr(g, fs.last().ty, s1, bound);
        lemma_walk_expr(g, fs.last().ty, s1, bound);
        lemma_fresh_trans(g, st, s1, walk_expr(g, fs.last().ty, s1, bound));
    }
}

proof fn lemma_fresh_info(g: TypeGraph, j: usize, st: WalkState)
    ensures
        records_fresh(g, st, walk_info(g, j, st)),
    decreases unseen(g, st.0), j + 1, 1int, ts::TypeExpr::Ref(j),
{
    if j < g.infos@.len() {
        match g.infos@[j as int] {
            ts::TypeInfo::Native(n) => lemma_fresh_expr(g, n.expr, st, j as nat),
            ts::TypeInfo::Defined(d) => {
                lemma_fresh_list(g, d.generic_args@, st, j as nat);
                lemma_walk_list(g, d.generic_args@, st, j as nat);
                let s1 = walk_list(g, d.generic_args@, st, j as nat);
                let nm = d.def.name@;
                if !s1.0.contains(nm) {
                    lemma_count_unseen_push(g, s1.0, nm, j as int, g.infos@.len() as nat);
                    lemma_push_keeps(s1.0, nm);
                    let s2 = (s1.0.push(nm), s1.1);
                    lemma_fresh_expr(g, d.def.def, s2, g.infos@.len() as nat);
                    lemma_walk_expr(g, d.def.def, s2, g.infos@.len() as nat);
                    let s3 = walk_expr(g, d.def.def, s2, g.infos@.len() as nat);
                    if d.def.def is Object || d.def.def is Union {
                        let s4 = (s3.0, s3.1.push(j));
                        assert(out_name(g, j) == nm);
                        assert(s4.1.take(s1.1.len() as int) =~= s3.1.take(s1.1.len() as int));
                        assert forall|k: int| s1.1.len() <= k < s4.1.len() implies !s1.0.contains(
                            #[trigger] out_name(g, s4.1[k]),
                        ) && s4.0.contains(out_name(g, s4.1[k])) && (k < s3.1.len() ==> out_name(g, s4.1[k])
                            != nm) by {
                            if k < s3.1.len() {
                                assert(s4.1[k] == s3.1[k]);
                                assert(!s2.0.contains(out_name(g, s3.1[k])));
                                if out_name(g, s3.1[k]) == nm {
                                    assert(s2.0.contains(nm));
                                }
                            }
                        }
                        assert forall|k: int, l: int| s1.1.len() <= k < l < s4.1.len() implies #[trigger] out_name(
                            g,
                            s4.1[k],
                        ) != #[trigger] out_name(g, s4.1[l]) by {
                            assert(s4.1[k] == s3.1[k]);
                            if l < s3.1.len() {
                                assert(s4.1[l] == s3.1[l]);
                            }
                        }
                        assert(records_fresh(g, s1, s4));
                        lemma_fresh_trans(g, st, s1, s4);
                    } else {
                        assert(s2.1.take(s1.1.len() as int) =~= s1.1);
                        lemma_fresh_trans(g, s1, s2, s3);
                        lemma_fresh_trans(g, st, s1, s3);
                    }
                }
            },
        }
    } else {
        lemma_fresh_refl(g, st);
    }
}

proof fn lemma_models_names(g: TypeGraph, js: Seq<usize>)
    requires
        forall|k: int, l: int| 0 <= k < l < js.len() ==> #[trigger] out_name(g, js[k]) != #[trigger] out_name(g, js[l]),
    ensures
        forall|i: int, j: int|
            0 <= i < j < def_models(g, js).len() ==> (#[trigger] def_models(g, js)[i]).name != (
            #[trigger] def_models(g, js)[j]).name,
        forall|i: int|
            0 <= i < def_models(g, js).len() ==> exists|k: int|
                0 <= k < js.len() && out_name(g, js[k]) == (#[trigger] def_models(g, js)[i]).name,
    decreases js.len(),
{
    if js.len() > 0 {
        let p = js.drop_last();
        lemma_models_names(g, p);
        let rest = def_models(g, p);
        match def_model(g, definition_at(g, js.last())) {
            Some(m) => {
                assert(m.name == out_name(g, js.last()));
                let ms = rest.push(m);
                assert forall|i: int| 0 <= i < ms.len() implies exists|k: int|
                    0 <= k < js.len() && out_name(g, js[k]) == (#[trigger] ms[i]).name by {
                    if i < rest.len() {
                        let k = choose|k: int| 0 <= k < p.len() && out_name(g, p[k]) == rest[i].name;
                        assert(js[k] == p[k]);
                    } else {
                        assert(js[js.len() - 1] == js.last());
                    }
                }
                assert forall|i: int, j: int| 0 <= i < j < ms.len() implies (#[trigger] ms[i]).name != (
                #[trigger] ms[j]).name by {
                    if j == rest.len() {
                        let k = choose|k: int| 0 <= k < p.len() && out_name(g, p[k]) == rest[i].name;
                        assert(js[k] == p[k]);
                        assert(out_name(g, js[k]) != out_name(g, js[js.len() - 1]));
                    } else {
                        assert(ms[i] == rest[i]);
                        assert(ms[j] == rest[j]);
                    }
                }
            },
            None => {
                assert forall|i: int| 0 <= i < rest.len() implies exists|k: int|
                    0 <= k < js.len() && out_name(g, js[k]) == (#[trigger] rest[i]).name by {
                    let k = choose|k: int| 0 <= k < p.len() && out_name(g, p[k]) == rest[i].name;
                    assert(js[k] == p[k]);
                }
            },
        }
    }
}

/// Each definition is collected once: no two collected definitions share a name.
pub proof fn law_collected_names_distinct(g: TypeGraph, root: usize)
    ensures
        forall|i: int, j: int|
            0 <= i < j < def_models(g, collected(g, root)).len() ==> (#[trigger] def_models(g, collected(g, root))[i]).name
                != (#[trigger] def_models(g, collected(g, root))[j]).name,
{
    let st: WalkState = (Seq::empty(), Seq::empty());
    lemma_fresh_info(g, root, st);
    lemma_models_names(g, collected(g, root));
}

/// A string's C++ type is its C type, and a type that needs no freeing is viewed
/// through its own C++ type.
pub proof fn law_cpp_view_of_unowned(t: CType, ns: Seq<char>)
    ensures
        cpp_type(CType::String, ns) == c_type(CType::String, ns),
        !needs_heap_free(t) ==> cpp_view_type(t, ns) == cpp_type(t, ns),
{
}

/// Only a `Result` is unwrapped: any other type is its own result type; and a
/// notification has no result type.
pub proof fn law_result_type(ty: RustType, m: RemoteProcedure)
    ensures
        !is_result(ty) ==> result_inner(ty) == ty,
        m.is_notification ==> output_type(m) is None,
{
}

/// `part` stands somewhere in `s`, as a contiguous piece.
pub open spec fn has_part(s: Seq<char>, part: Seq<char>) -> bool {
    exists|i: int| 0 <= i && i + part.len() <= s.len() && #[trigger] s.subrange(i, i + part.len()) == part
}

proof fn lemma_part_self(p: Seq<char>)
    ensures
        has_part(p, p),
{
    let z: int = 0;
    assert(p.subrange(z, z + p.len()) =~= p);
}

proof fn lemma_part_left(a: Seq<char>, b: Seq<char>, q: Seq<char>)
    requires
        has_part(a, q),
    ensures
        has_part(a + b, q),
{
    let i = choose|i: int| 0 <= i && i + q.len() <= a.len() && #[trigger] a.subrange(i, i + q.len()) == q;
    assert((a + b).subrange(i, i + q.len()) =~= a.subrange(i, i + q.len()));
}

proof fn lemma_part_right(a: Seq<char>, b: Seq<char>, q: Seq<char>)
    requires
        has_part(b, q),
    ensures
        has_part(a + b, q),
{
    let i = choose|i: int| 0 <= i && i + q.len() <= b.len() && #[trigger] b.subrange(i, i + q.len()) == q;
    assert((a + b).subrange(a.len() + i, a.len() + i + q.len()) =~= b.subrange(i, i + q.len()));
}

proof fn lemma_part_trans(s: Seq<char>, p: Seq<char>, q: Seq<char>)
    requires
        has_part(s, p),
        has_part(p, q),
    ensures
        has_part(s, q),
{
    let i = choose|i: int| 0 <= i && i + p.len() <= s.len() && #[trigger] s.subrange(i, i + p.len()) == p;
    let j = choose|j: int| 0 <= j && j + q.len() <= p.len() && #[trigger] p.subrange(j, j + q.len()) == q;
    assert(s.subrange(i + j, i + j + q.len()) =~= p.subrange(j, j + q.len()));
}

proof fn lemma_part_concat_map<A>(items: Seq<A>, f: spec_fn(A) -> Seq<char>, k: int)
    requires
        0 <= k < items.len(),
    ensures
        has_part(concat_map(items, f), f(items[k])),
    decreases items.len(),
{
    let p = concat_map(items.drop_last(), f);
    if k == items.len() - 1 {
        lemma_part_self(f(items.last()));
        lemma_part_right(p, f(items.last()), f(items[k]));
    } else {
        lemma_part_concat_map(items.drop_last(), f, k);
        assert(items.drop_last()[k] == items[k]);
        lemma_part_left(p, f(items.last()), f(items[k]));
    }
}

#[verifier::rlimit(60)]
proof fn lemma_lit_error_branch()
    ensures
        has_part("            if (raw_res->error_code != 0) {\n                prom->set_value({{}, raw_res->error_message, raw_res->error_code});\n                return;\n            }\n            "@, "            if (raw_res->error_code != 0) {\n                prom->set_value({{}, raw_res->error_message, raw_res->error_code});\n                return;\n            }\n"@),
{
    reveal_strlit("            if (raw_res->error_code != 0) {\n                prom->set_value({{}, raw_res->error_message, raw_res->error_code});\n                return;\n            }\n            ");
    reveal_strlit("            if (raw_res->error_code != 0) {\n                prom->set_value({{}, raw_res->error_message, raw_res->error_code});\n                return;\n            }\n");
    reveal_strlit("");
    let s = "            if (raw_res->error_code != 0) {\n                prom->set_value({{}, raw_res->error_message, raw_res->error_code});\n                return;\n            }\n            "@;
    let n: int = ""@.len() as int;
    assert(s.subrange(n, n + "            if (raw_res->error_code != 0) {\n                prom->set_value({{}, raw_res->error_message, raw_res->error_code});\n                return;\n            }\n"@.len() as int) =~= "            if (raw_res->error_code != 0) {\n                prom->set_value({{}, raw_res->error_message, raw_res->error_code});\n                return;\n            }\n"@);
}

#[verifier::rlimit(60)]
proof fn lemma_lit_void_error_branch()
    ensures
        has_part("            if (raw_res->error_code != 0) {\n                prom->set_value({raw_res->error_message, raw_res->error_code});\n                return;\n            }\n            prom->set_value({{}, 0});\n"@, "            if (raw_res->error_code != 0) {\n                prom->set_value({raw_res->error_message, raw_res->error_code});\n                return;\n            }\n"@),
{
    reveal_strlit("            if (raw_res->error_code != 0) {\n                prom->set_value({raw_res->error_message, raw_res->error_code});\n                return;\n            }\n            prom->set_value({{}, 0});\n");
    reveal_strlit("            if (raw_res->error_code != 0) {\n                prom->set_value({raw_res->error_message, raw_res->error_code});\n                return;\n            }\n");
    reveal_strlit("");
    let s = "            if (raw_res->error_code != 0) {\n                prom->set_value({raw_res->error_message, raw_res->error_code});\n                return;\n            }\n            prom->set_value({{}, 0});\n"@;
    let n: int = ""@.len() as int;
    assert(s.subrange(n, n + "            if (raw_res->error_code != 0) {\n                prom->set_value({raw_res->error_message, raw_res->error_code});\n                return;\n            }\n"@.len() as int) =~= "            if (raw_res->error_code != 0) {\n                prom->set_value({raw_res->error_message, raw_res->error_code});\n                return;\n            }\n"@);
}

#[verifier::rlimit(60)]
proof fn lemma_lit_array_len()
    ensures
        has_part("_t));\n    (*r)->len = (size_t)dc_json_len(v);\n(*r)->items = ("@, "    (*r)->len = (size_t)dc_json_len(v);\n"@),
{
    reveal_strlit("_t));\n    (*r)->len = (size_t)dc_json_len(v);\n(*r)->items = (");
    reveal_strlit("    (*r)->len = (size_t)dc_json_len(v);\n");
    reveal_strlit("_t));\n");
    let s = "_t));\n    (*r)->len = (size_t)dc_json_len(v);\n(*r)->items = ("@;
    let n: int = "_t));\n"@.len() as int;
    assert(s.subrange(n, n + "    (*r)->len = (size_t)dc_json_len(v);\n"@.len() as int) =~= "    (*r)->len = (size_t)dc_json_len(v);\n"@);
}

#[verifier::rlimit(60)]
proof fn lemma_lit_array_loop()
    ensures
        has_part("*)calloc((*r)->len, sizeof((*r)->items[0]));\n    dc_json_array_iter_t it = dc_json_array_iter_new(v);\n    for (size_t i = 0; i < (*r)->len; i++, it = dc_json_array_iter_next(it)) {\n        if (!dc_json_array_iter_is_valid(it)) return -1;\n        if ("@, "    for (size_t i = 0; i < (*r)->len; i++, it = dc_json_array_iter_next(it)) {\n"@),
{
    reveal_strlit("*)calloc((*r)->len, sizeof((*r)->items[0]));\n    dc_json_array_iter_t it = dc_json_array_iter_new(v);\n    for (size_t i = 0; i < (*r)->len; i++, it = dc_json_array_iter_next(it)) {\n        if (!dc_json_array_iter_is_valid(it)) return -1;\n        if (");
    reveal_strlit("    for (size_t i = 0; i < (*r)->len; i++, it = dc_json_array_iter_next(it)) {\n");
    reveal_strlit("*)calloc((*r)->len, sizeof((*r)->items[0]));\n    dc_json_array_iter_t it = dc_json_array_iter_new(v);\n");
    let s = "*)calloc((*r)->len, sizeof((*r)->items[0]));\n    dc_json_array_iter_t it = dc_json_array_iter_new(v);\n    for (size_t i = 0; i < (*r)->len; i++, it = dc_json_array_iter_next(it)) {\n        if (!dc_json_array_iter_is_valid(it)) return -1;\n        if ("@;
    let n: int = "*)calloc((*r)->len, sizeof((*r)->items[0]));\n    dc_json_array_iter_t it = dc_json_array_iter_new(v);\n"@.len() as int;
    assert(s.subrange(n, n + "    for (size_t i = 0; i < (*r)->len; i++, it = dc_json_array_iter_next(it)) {\n"@.len() as int) =~= "    for (size_t i = 0; i < (*r)->len; i++, it = dc_json_array_iter_next(it)) {\n"@);
}

#[verifier::rlimit(60)]
proof fn lemma_lit_result_branch()
    ensures
        has_part("result_t));\n    if (!r) return NULL;\n\n    r->doc_ = dc_json_doc_parse(json);\n    dc_json_t root = dc_json_root(r->doc_);\n    if (!dc_json_is_valid(root)) {\n        r->error_code = -32700;\n        r->error_message = strdup(\"Failed to parse JSON\");\n        return r;\n    }\n\n    dc_json_t id = dc_json_get(root, \"id\");\n    if (!dc_json_is_number(id)) {\n        r->error_code = -32700;\n        r->error_message = strdup(\"Repsonse does not have a valid `id`\");\n        return r;\n    }\n    r->id = (uint32_t)dc_json_get_double(id);\n\n    dc_json_t error = dc_json_get(root, \"error\");\n    if (dc_json_is_valid(error) && dc_json_is_object(error)) {\n        dc_json_t code = dc_json_get(error, \"code\");\n        dc_json_t message = dc_json_get(error, \"message\");\n        r->error_code = dc_json_is_number(code) ? (int32_t)dc_json_get_double(code) : -32700;\n        r->error_message = dc_json_is_string(message) ? dc_json_copy_string(message) : strdup(\"Unknown error\");\n        return r;\n    }\n\n    dc_json_t result = dc_json_get(root, \"result\");\n    if (!dc_json_is_valid(result)) {\n        r->error_code = -32700;\n        r->error_message = strdup(\"Response has neither 'result' nor 'error'\");\n        return r;\n    }\n\n    r->result = result;\n    return r;\n}\n\nstatic inline void "@, "    dc_json_t result = dc_json_get(root, \"result\");\n    if (!dc_json_is_valid(result)) {\n        r->error_code = -32700;\n        r->error_message = strdup(\"Response has neither 'result' nor 'error'\");\n        return r;\n    }\n\n    r->result = result;\n    return r;\n}\n"@),
{
    reveal_strlit("result_t));\n    if (!r) return NULL;\n\n    r->doc_ = dc_json_doc_parse(json);\n    dc_json_t root = dc_json_root(r->doc_);\n    if (!dc_json_is_valid(root)) {\n        r->error_code = -32700;\n        r->error_message = strdup(\"Failed to parse JSON\");\n        return r;\n    }\n\n    dc_json_t id = dc_json_get(root, \"id\");\n    if (!dc_json_is_number(id)) {\n        r->error_code = -32700;\n        r->error_message = strdup(\"Repsonse does not have a valid `id`\");\n        return r;\n    }\n    r->id = (uint32_t)dc_json_get_double(id);\n\n    dc_json_t error = dc_json_get(root, \"error\");\n    if (dc_json_is_valid(error) && dc_json_is_object(error)) {\n        dc_json_t code = dc_json_get(error, \"code\");\n        dc_json_t message = dc_json_get(error, \"message\");\n        r->error_code = dc_json_is_number(code) ? (int32_t)dc_json_get_double(code) : -32700;\n        r->error_message = dc_json_is_string(message) ? dc_json_copy_string(message) : strdup(\"Unknown error\");\n        return r;\n    }\n\n    dc_json_t result = dc_json_get(root, \"result\");\n    if (!dc_json_is_valid(result)) {\n        r->error_code = -32700;\n        r->error_message = strdup(\"Response has neither 'result' nor 'error'\");\n        return r;\n    }\n\n    r->result = result;\n    return r;\n}\n\nstatic inline void ");
    reveal_strlit("    dc_json_t result = dc_json_get(root, \"result\");\n    if (!dc_json_is_valid(result)) {\n        r->error_code = -32700;\n        r->error_message = strdup(\"Response has neither 'result' nor 'error'\");\n        return r;\n    }\n\n    r->result = result;\n    return r;\n}\n");
    reveal_strlit("result_t));\n    if (!r) return NULL;\n\n    r->doc_ = dc_json_doc_parse(json);\n    dc_json_t root = dc_json_root(r->doc_);\n    if (!dc_json_is_valid(root)) {\n        r->error_code = -32700;\n        r->error_message = strdup(\"Failed to parse JSON\");\n        return r;\n    }\n\n    dc_json_t id = dc_json_get(root, \"id\");\n    if (!dc_json_is_number(id)) {\n        r->error_code = -32700;\n        r->error_message = strdup(\"Repsonse does not have a valid `id`\");\n        return r;\n    }\n    r->id = (uint32_t)dc_json_get_double(id);\n\n    dc_json_t error = dc_json_get(root, \"error\");\n    if (dc_json_is_valid(error) && dc_json_is_object(error)) {\n        dc_json_t code = dc_json_get(error, \"code\");\n        dc_json_t message = dc_json_get(error, \"message\");\n        r->error_code = dc_json_is_number(code) ? (int32_t)dc_json_get_double(code) : -32700;\n        r->error_message = dc_json_is_string(message) ? dc_json_copy_string(message) : strdup(\"Unknown error\");\n        return r;\n    }\n\n");
    let s = "result_t));\n    if (!r) return NULL;\n\n    r->doc_ = dc_json_doc_parse(json);\n    dc_json_t root = dc_json_root(r->doc_);\n    if (!dc_json_is_valid(root)) {\n        r->error_code = -32700;\n        r->error_message = strdup(\"Failed to parse JSON\");\n        return r;\n    }\n\n    dc_json_t id = dc_json_get(root, \"id\");\n    if (!dc_json_is_number(id)) {\n        r->error_code = -32700;\n        r->error_message = strdup(\"Repsonse does not have a valid `id`\");\n        return r;\n    }\n    r->id = (uint32_t)dc_json_get_double(id);\n\n    dc_json_t error = dc_json_get(root, \"error\");\n    if (dc_json_is_valid(error) && dc_json_is_object(error)) {\n        dc_json_t code = dc_json_get(error, \"code\");\n        dc_json_t message = dc_json_get(error, \"message\");\n        r->error_code = dc_json_is_number(code) ? (int32_t)dc_json_get_double(code) : -32700;\n        r->error_message = dc_json_is_string(message) ? dc_json_copy_string(message) : strdup(\"Unknown error\");\n        return r;\n    }\n\n    dc_json_t result = dc_json_get(root, \"result\");\n    if (!dc_json_is_valid(result)) {\n        r->error_code = -32700;\n        r->error_message = strdup(\"Response has neither 'result' nor 'error'\");\n        return r;\n    }\n\n    r->result = result;\n    return r;\n}\n\nstatic inline void "@;
    let n: int = "result_t));\n    if (!r) return NULL;\n\n    r->doc_ = dc_json_doc_parse(json);\n    dc_json_t root = dc_json_root(r->doc_);\n    if (!dc_json_is_valid(root)) {\n        r->error_code = -32700;\n        r->error_message = strdup(\"Failed to parse JSON\");\n        return r;\n    }\n\n    dc_json_t id = dc_json_get(root, \"id\");\n    if (!dc_json_is_number(id)) {\n        r->error_code = -32700;\n        r->error_message = strdup(\"Repsonse does not have a valid `id`\");\n        return r;\n    }\n    r->id = (uint32_t)dc_json_get_double(id);\n\n    dc_json_t error = dc_json_get(root, \"error\");\n    if (dc_json_is_valid(error) && dc_json_is_object(error)) {\n        dc_json_t code = dc_json_get(error, \"code\");\n        dc_json_t message = dc_json_get(error, \"message\");\n        r->error_code = dc_json_is_number(code) ? (int32_t)dc_json_get_double(code) : -32700;\n        r->error_message = dc_json_is_string(message) ? dc_json_copy_string(message) : strdup(\"Unknown error\");\n        return r;\n    }\n\n"@.len() as int;
    assert(s.subrange(n, n + "    dc_json_t result = dc_json_get(root, \"result\");\n    if (!dc_json_is_valid(result)) {\n        r->error_code = -32700;\n        r->error_message = strdup(\"Response has neither 'result' nor 'error'\");\n        return r;\n    }\n\n    r->result = result;\n    return r;\n}\n"@.len() as int) =~= "    dc_json_t result = dc_json_get(root, \"result\");\n    if (!dc_json_is_valid(result)) {\n        r->error_code = -32700;\n        r->error_message = strdup(\"Response has neither 'result' nor 'error'\");\n        return r;\n    }\n\n    r->result = result;\n    return r;\n}\n"@);
}

/// The error branch of a C++ response callback for a method with a result.
pub open spec fn error_passed_on() -> Seq<char> {
    "            if (raw_res->error_code != 0) {\n                prom->set_value({{}, raw_res->error_message, raw_res->error_code});\n                return;\n            }\n"@
}

/// The error branch of a C++ response callback for a method without a result.
pub open spec fn void_error_passed_on() -> Seq<char> {
    "            if (raw_res->error_code != 0) {\n                prom->set_value({raw_res->error_message, raw_res->error_code});\n                return;\n            }\n"@
}

proof fn lemma_handler_error_branch(t: CType, ns: Seq<char>)
    ensures
        has_part(rpc_result_handler(t, ns), if t is Void { void_error_passed_on() } else { error_passed_on() }),
{
    if t is Void {
        lemma_lit_void_error_branch();
    } else {
        lemma_lit_error_branch();
        let a1 = "            if (raw_res->error_code != 0) {\n                prom->set_value({{}, raw_res->error_message, raw_res->error_code});\n                return;\n            }\n            "@ + c_type(t, ns);
        lemma_part_left("            if (raw_res->error_code != 0) {\n                prom->set_value({{}, raw_res->error_message, raw_res->error_code});\n                return;\n            }\n            "@, c_type(t, ns), error_passed_on());
        let a2 = a1 + " res;\n            if ("@;
        lemma_part_left(a1, " res;\n            if ("@, error_passed_on());
        let a3 = a2 + type_id(t, ns);
        lemma_part_left(a2, type_id(t, ns), error_passed_on());
        let l3 = "_from_json(raw_res->result, &res) != 0) {\n                prom->set_value({{}, \"parse error\", -32700});\n                return;\n            }\n            prom->set_value({res, {}, 0});\n"@;
        let a4 = a3 + l3;
        lemma_part_left(a3, l3, error_passed_on());
        lemma_part_left(a4, string_result_unref(t, ns), error_passed_on());
    }
}

/// In the C++ client, the response callback of every method that is not a
/// notification hands a response's non-zero error code on, unchanged, into the
/// `Result` it resolves (with an empty value where the method has a result).
pub proof fn law_cpp_errors_passed_on(
    ms: Seq<MethodModel>,
    ds: Seq<TypeDefModel>,
    c_header: Seq<char>,
    ns: Seq<char>,
    k: int,
)
    requires
        0 <= k < ms.len(),
        !ms[k].is_notification,
    ensures
        has_part(
            hpp_text(ms, ds, c_header, ns),
            if rpc_output(ms[k]) is Void { void_error_passed_on() } else { error_passed_on() },
        ),
{
    let m = ms[k];
    let q = if rpc_output(m) is Void { void_error_passed_on() } else { error_passed_on() };
    let h = rpc_result_handler(rpc_output(m), ns);
    lemma_handler_error_branch(rpc_output(m), ns);
    let x = "    "@ + rpc_ret_type(m, ns) + " "@ + m.c_name + "("@ + cpp_argument_list(m.args, ns) + ") {\n        Result<"@ + rpc_ret_type(m, ns) + "> r = "@ + m.c_name + "_request("@ + argument_list_move_text(m.args) + ").get();\n        if (r.error_code) { line_logger_(\"Error \" + std::to_string(r.error_code) + \" in `"@ + m.c_name + "`: \" + r.error_message); }\n"@ + rpc_return_stmt(m) + "    }\n    std::future<Result<"@ + rpc_ret_type(m, ns) + ">> "@ + m.c_name + "_request("@ + cpp_argument_list(m.args, ns) + ") {\n        uint32_t _id = next_id();\n        auto* raw_prom = new std::promise<Result<"@ + rpc_ret_type(m, ns) + ">>();\n        auto fut = raw_prom->get_future();\n        dispatch(_id, "@ + ns + "build_"@ + m.c_name + "("@ + argument_list_accessors_text(seq![("_id"@, CType::U32)] + m.args) + "), [raw_prom]("@ + ns + "result_t* raw_res) {\n            std::unique_ptr<std::promise<Result<"@ + rpc_ret_type(m, ns) + ">>> prom{raw_prom};\n"@;
    lemma_part_right(x, h, q);
    lemma_part_left(x + h, "        });\n        return fut;\n    }\n\n"@, q);
    assert(rpc_method_text(ns, m) == x + h + "        });\n        return fut;\n    }\n\n"@);
    lemma_part_concat_map(ms, rpc_method_text_fn(ns), k);
    lemma_part_trans(concat_map(ms, rpc_method_text_fn(ns)), rpc_method_text(ns, m), q);
    let all = all_type_exprs(ms, ds);
    let before = hpp_preamble_text(c_header) + concat_map(ds, defined_forward_declarations_fn(ns))
        + type_expr_declarations_text(all, ns) + concat_map(ds, defined_declarations_fn(ns))
        + concat_map(ds, defined_definitions_fn(ns)) + type_expr_definitions_text(all, ns)
        + rpc_class_head_text(ns);
    let cm = concat_map(ms, rpc_method_text_fn(ns));
    lemma_part_right(before, cm, q);
    lemma_part_left(before + cm, "};\n\n} // namespace dc\n"@, q);
}

/// The loop of an array serializer: every item `o->items[i]` with `i < o->len`.
pub open spec fn array_items_loop(inner: CType, ns: Seq<char>) -> Seq<char> {
    "    for (size_t i = 0; i < o->len; i++) {\n        dc_json_add_to_array(json, "@ + type_id(inner, ns) + "_to_json(o->items[i]));\n    }\n"@
}

proof fn lemma_array_body_loop(inner: CType, ns: Seq<char>)
    ensures
        has_part(to_json_body(CType::Array(Box::new(inner)), ns), array_items_loop(inner, ns)),
{
    reveal_strlit("    dc_json_t json = dc_json_new_array();\n    for (size_t i = 0; i < o->len; i++) {\n        dc_json_add_to_array(json, ");
    reveal_strlit("    dc_json_t json = dc_json_new_array();\n");
    reveal_strlit("    for (size_t i = 0; i < o->len; i++) {\n        dc_json_add_to_array(json, ");
    reveal_strlit("_to_json(o->items[i]));\n    }\n    return json;\n");
    reveal_strlit("_to_json(o->items[i]));\n    }\n");
    reveal_strlit("    return json;\n");
    let a = "    dc_json_t json = dc_json_new_array();\n"@;
    let b = "    return json;\n"@;
    assert("    dc_json_t json = dc_json_new_array();\n    for (size_t i = 0; i < o->len; i++) {\n        dc_json_add_to_array(json, "@ =~= a + "    for (size_t i = 0; i < o->len; i++) {\n        dc_json_add_to_array(json, "@);
    assert("_to_json(o->items[i]));\n    }\n    return json;\n"@ =~= "_to_json(o->items[i]));\n    }\n"@ + b);
    assert(to_json_body(CType::Array(Box::new(inner)), ns) =~= a + array_items_loop(inner, ns) + b);
    lemma_part_self(array_items_loop(inner, ns));
    lemma_part_right(a, array_items_loop(inner, ns), array_items_loop(inner, ns));
    lemma_part_left(a + array_items_loop(inner, ns), b, array_items_loop(inner, ns));
}

/// The serializer of an array type writes every item `o->items[0..len)`, and its
/// parser sizes the array by the JSON array's length and reads that many items:
/// so a serialized array is read back with the same length.
pub proof fn law_array_json_all_items(inner: CType, ns: Seq<char>)
    ensures
        has_part(to_json_text(CType::Array(Box::new(inner)), ns), array_items_loop(inner, ns)),
        has_part(from_json_text(CType::Array(Box::new(inner)), ns), "    (*r)->len = (size_t)dc_json_len(v);\n"@),
        has_part(from_json_text(CType::Array(Box::new(inner)), ns), "    for (size_t i = 0; i < (*r)->len; i++, it = dc_json_array_iter_next(it)) {\n"@),
{
    let t = CType::Array(Box::new(inner));
    let q = array_items_loop(inner, ns);
    lemma_array_body_loop(inner, ns);
    let pre = "static inline dc_json_t "@ + type_id(t, ns) + "_to_json("@ + c_type(t, ns) + " o) {\n"@;
    lemma_part_right(pre, to_json_body(t, ns), q);
    lemma_part_left(pre + to_json_body(t, ns), "}\n"@, q);

    let f1 = "    if (!dc_json_is_array(v)) return -1;\n    *r = ("@ + c_type(t, ns) + ")calloc(1, sizeof("@ + type_id(t, ns);
    let f3 = "_t));\n    (*r)->len = (size_t)dc_json_len(v);\n(*r)->items = ("@;
    let f4 = "*)calloc((*r)->len, sizeof((*r)->items[0]));\n    dc_json_array_iter_t it = dc_json_array_iter_new(v);\n    for (size_t i = 0; i < (*r)->len; i++, it = dc_json_array_iter_next(it)) {\n        if (!dc_json_array_iter_is_valid(it)) return -1;\n        if ("@;
    let g1 = f1 + f3;
    let g2 = g1 + c_type(inner, ns);
    let g3 = g2 + f4;
    let g4 = g3 + type_id(inner, ns);
    let l5 = "_from_json(dc_json_array_iter_value(it), &(*r)->items[i])) { "@;
    let g5 = g4 + l5;
    let g6 = g5 + type_id(t, ns);
    let l6 = "_unref(*r); return -1; };\n    }\n"@;
    let fb = from_json_body(t, ns);
    assert(fb == g6 + l6);
    let fpre = "static inline int "@ + type_id(t, ns) + "_from_json(dc_json_t v, "@ + c_type(t, ns) + "* r) {\n"@;
    let lenl = "    (*r)->len = (size_t)dc_json_len(v);\n"@;
    lemma_lit_array_len();
    lemma_part_right(f1, f3, lenl);
    lemma_part_left(g1, c_type(inner, ns), lenl);
    lemma_part_left(g2, f4, lenl);
    lemma_part_left(g3, type_id(inner, ns), lenl);
    lemma_part_left(g4, l5, lenl);
    lemma_part_left(g5, type_id(t, ns), lenl);
    lemma_part_left(g6, l6, lenl);
    lemma_part_right(fpre, fb, lenl);
    lemma_part_left(fpre + fb, "    return 0;\n}\n"@, lenl);
    let loopl = "    for (size_t i = 0; i < (*r)->len; i++, it = dc_json_array_iter_next(it)) {\n"@;
    lemma_lit_array_loop();
    lemma_part_right(g2, f4, loopl);
    lemma_part_left(g3, type_id(inner, ns), loopl);
    lemma_part_left(g4, l5, loopl);
    lemma_part_left(g5, type_id(t, ns), loopl);
    lemma_part_left(g6, l6, loopl);
    lemma_part_right(fpre, fb, loopl);
    lemma_part_left(fpre + fb, "    return 0;\n}\n"@, loopl);
}

/// The C name of the enumerator of variant `v` in the string enum `id`.
pub open spec fn enumerator(id: Seq<char>, v: Seq<char>) -> Seq<char> {
    uppercased(id) + "_"@ + case_converted(v, CaseStyle::ScreamingSnake)
}

/// The case of a string enum's serializer for variant `v`: the literal `v` itself.
pub open spec fn enum_to_json_case(id: Seq<char>, v: Seq<char>) -> Seq<char> {
    "    case "@ + enumerator(id, v) + ": return dc_json_new_string(\""@ + v + "\");\n"@
}

/// The test of a string enum's parser for variant `v`: the literal `v` gives `v`'s enumerator.
pub open spec fn enum_from_json_case(id: Seq<char>, v: Seq<char>) -> Seq<char> {
    "    if (dc_json_string_eq(j, \""@ + v + "\")) { *out = "@ + enumerator(id, v) + "; return 0; }\n"@
}

proof fn lemma_enum_texts(id: Seq<char>, variants: Seq<Seq<char>>, k: int)
    requires
        0 <= k < variants.len(),
    ensures
        has_part(string_enum_to_json_text(id, variants), enum_to_json_case(id, variants[k])),
        has_part(string_enum_from_json_text(id, variants), enum_from_json_case(id, variants[k])),
{
    let v = variants[k];
    let u = uppercased(id);
    let tq = enum_to_json_case(id, v);
    let fq = enum_from_json_case(id, v);
    assert(string_enum_to_json_line(u, v) =~= tq);
    assert(string_enum_from_json_line(u, v) =~= fq);
    lemma_part_concat_map(variants, string_enum_to_json_line_fn(u), k);
    lemma_part_concat_map(variants, string_enum_from_json_line_fn(u), k);
    let to_cm = concat_map(variants, string_enum_to_json_line_fn(u));
    let from_cm = concat_map(variants, string_enum_from_json_line_fn(u));
    let tp = "static inline dc_json_t "@ + id + "_to_json("@ + id + "_t v) {\n    switch (v) {\n"@;
    lemma_part_right(tp, to_cm, tq);
    lemma_part_left(tp + to_cm, "    default: break;\n    }\n    return dc_json_new_null();\n}\n"@, tq);
    let fp = "static inline int "@ + id + "_from_json(dc_json_t j, "@ + id + "_t* out) {\n    if (!dc_json_is_string(j)) { *out = "@ + u + "_UNPARSED; return -1; }\n"@;
    lemma_part_right(fp, from_cm, fq);
    lemma_part_left(fp + from_cm, "    *out = "@, fq);
    lemma_part_left(fp + from_cm + "    *out = "@, u, fq);
    lemma_part_left(fp + from_cm + "    *out = "@ + u, "_UNPARSED;\n    return 0;\n}\n"@, fq);
}

/// For every variant string `v` of a string enum, the header's serializer
/// returns the literal `v` itself at `v`'s enumerator, and its parser maps that
/// same literal to that same enumerator: the two are inverse on the variants.
pub proof fn law_string_enum_json_inverse(
    ms: Seq<MethodModel>,
    ds: Seq<TypeDefModel>,
    ns: Seq<char>,
    i: int,
    k: int,
)
    requires
        0 <= i < ds.len(),
        ds[i].def matches DefModel::StringEnum { variants } && 0 <= k < variants.len(),
    ensures
        has_part(
            header_text(ms, ds, ns),
            enum_to_json_case(def_id(ds[i], ns), ds[i].def->StringEnum_variants[k]),
        ),
        has_part(
            header_text(ms, ds, ns),
            enum_from_json_case(def_id(ds[i], ns), ds[i].def->StringEnum_variants[k]),
        ),
{
    let variants = ds[i].def->StringEnum_variants;
    let id = def_id(ds[i], ns);
    let tq = enum_to_json_case(id, variants[k]);
    let fq = enum_from_json_case(id, variants[k]);
    lemma_enum_texts(id, variants, k);
    let to_text = string_enum_to_json_text(id, variants);
    let from_text = string_enum_from_json_text(id, variants);
    let dt = string_enum_def_text(id, variants);
    let fwd = forward_decls_text(ds[i], ns);
    assert(fwd == dt + "\n"@ + to_text + "\n"@ + from_text + "\n"@);
    lemma_part_right(dt + "\n"@, to_text, tq);
    lemma_part_left(dt + "\n"@ + to_text, "\n"@, tq);
    lemma_part_left(dt + "\n"@ + to_text + "\n"@, from_text, tq);
    lemma_part_left(dt + "\n"@ + to_text + "\n"@ + from_text, "\n"@, tq);
    lemma_part_right(dt + "\n"@ + to_text + "\n"@, from_text, fq);
    lemma_part_left(dt + "\n"@ + to_text + "\n"@ + from_text, "\n"@, fq);
    lemma_part_concat_map(ds, forward_decls_fn(ns), i);
    let all = all_type_exprs(ms, ds);
    let cm = concat_map(ds, forward_decls_fn(ns));
    lemma_part_trans(cm, fwd, tq);
    lemma_part_trans(cm, fwd, fq);
    let b0 = header_preamble_text(ns) + forward_declarations_text(all, ns);
    let b1 = b0 + cm;
    let b2 = b1 + concat_map(ds, late_decls_fn(ns));
    let b3 = b2 + early_text(all, ns);
    let b4 = b3 + concat_map(ds, definitions_fn(ns));
    let b5 = b4 + late_text(all, ns);
    assert(header_text(ms, ds, ns) == b5 + concat_map(ms, method_text_fn(ns)));
    lemma_part_right(b0, cm, tq);
    lemma_part_left(b1, concat_map(ds, late_decls_fn(ns)), tq);
    lemma_part_left(b2, early_text(all, ns), tq);
    lemma_part_left(b3, concat_map(ds, definitions_fn(ns)), tq);
    lemma_part_left(b4, late_text(all, ns), tq);
    lemma_part_left(b5, concat_map(ms, method_text_fn(ns)), tq);
    lemma_part_right(b0, cm, fq);
    lemma_part_left(b1, concat_map(ds, late_decls_fn(ns)), fq);
    lemma_part_left(b2, early_text(all, ns), fq);
    lemma_part_left(b3, concat_map(ds, definitions_fn(ns)), fq);
    lemma_part_left(b4, late_text(all, ns), fq);
    lemma_part_left(b5, concat_map(ms, method_text_fn(ns)), fq);
}

/// The C type that a numeric definition stands for, by its name: the signed
/// integers `I8`..`I64`, the unsigned `U8`..`U64`, the floats, and `uint64_t`
/// for the pointer-sized integers.
pub open spec fn numeric_ctype(nm: Seq<char>) -> Option<CType> {
    if nm == "I8"@ {
        Some(CType::I8)
    } else if nm == "I16"@ {
        Some(CType::I16)
    } else if nm == "I32"@ {
        Some(CType::I32)
    } else if nm == "I64"@ {
        Some(CType::I64)
    } else if nm == "U8"@ {
        Some(CType::U8)
    } else if nm == "U16"@ {
        Some(CType::U16)
    } else if nm == "U32"@ {
        Some(CType::U32)
    } else if nm == "U64"@ {
        Some(CType::U64)
    } else if nm == "F32"@ {
        Some(CType::F32)
    } else if nm == "F64"@ {
        Some(CType::F64)
    } else if nm == "Usize"@ || nm == "Isize"@ {
        Some(CType::U64)
    } else {
        None
    }
}

/// A definition named after a Rust number converts to the C number of that
/// signedness and width (see [`numeric_ctype`]); the signed names give signed
/// C integers.
pub proof fn law_numeric_definitions(g: TypeGraph, j: usize, d: ts::TypeDefinition, t: CType, ns: Seq<char>)
    requires
        definition_at(g, j) == Some(d),
        numeric_ctype(d.name@) == Some(t),
    ensures
        ctype_from_info(g, j) == t,
        d.name@ == "I8"@ ==> c_type(ctype_from_info(g, j), ns) == "int8_t"@,
        d.name@ == "I16"@ ==> c_type(ctype_from_info(g, j), ns) == "int16_t"@,
        d.name@ == "I32"@ ==> c_type(ctype_from_info(g, j), ns) == "int32_t"@,
        d.name@ == "I64"@ ==> c_type(ctype_from_info(g, j), ns) == "int64_t"@,
{
    reveal_strlit("I8");
    reveal_strlit("I16");
    reveal_strlit("I32");
    reveal_strlit("I64");
    reveal_strlit("U8");
    reveal_strlit("U16");
    reveal_strlit("U32");
    reveal_strlit("U64");
    reveal_strlit("F32");
    reveal_strlit("F64");
    reveal_strlit("Usize");
    reveal_strlit("Isize");
    assert("I8"@.len() == 2 && "I8"@[0] == 'I' && "I8"@[1] == '8');
    assert("I16"@.len() == 3 && "I16"@[0] == 'I' && "I16"@[1] == '1' && "I16"@[2] == '6');
    assert("I32"@.len() == 3 && "I32"@[0] == 'I' && "I32"@[1] == '3' && "I32"@[2] == '2');
    assert("I64"@.len() == 3 && "I64"@[0] == 'I' && "I64"@[1] == '6' && "I64"@[2] == '4');
    assert("U8"@.len() == 2 && "U8"@[0] == 'U' && "U8"@[1] == '8');
    assert("U16"@.len() == 3 && "U16"@[0] == 'U' && "U16"@[1] == '1' && "U16"@[2] == '6');
    assert("U32"@.len() == 3 && "U32"@[0] == 'U' && "U32"@[1] == '3' && "U32"@[2] == '2');
    assert("U64"@.len() == 3 && "U64"@[0] == 'U' && "U64"@[1] == '6' && "U64"@[2] == '4');
    assert("F32"@.len() == 3 && "F32"@[0] == 'F' && "F32"@[1] == '3' && "F32"@[2] == '2');
    assert("F64"@.len() == 3 && "F64"@[0] == 'F' && "F64"@[1] == '6' && "F64"@[2] == '4');
    assert("Usize"@.len() == 5 && "Usize"@[0] == 'U' && "Usize"@[1] == 's' && "Usize"@[2] == 'i' && "Usize"@[3] == 'z' && "Usize"@[4] == 'e');
    assert("Isize"@.len() == 5 && "Isize"@[0] == 'I' && "Isize"@[1] == 's' && "Isize"@[2] == 'i' && "Isize"@[3] == 'z' && "Isize"@[4] == 'e');
    assert(j < g.infos@.len());
    match g.infos@[j as int] {
        ts::TypeInfo::Defined(dd) => {
            assert(dd.def == d);
            assert(ctype_from_info(g, j) == if d.name@ == "U8"@ {
                CType::U8
            } else if d.name@ == "U16"@ {
                CType::U16
            } else if d.name@ == "U32"@ {
                CType::U32
            } else if d.name@ == "U64"@ {
                CType::U64
            } else if d.name@ == "I8"@ {
                CType::I8
            } else if d.name@ == "I16"@ {
                CType::I16
            } else if d.name@ == "I32"@ {
                CType::I32
            } else if d.name@ == "I64"@ {
                CType::I64
            } else if d.name@ == "F32"@ {
                CType::F32
            } else if d.name@ == "F64"@ {
                CType::F64
            } else if d.name@ == "Usize"@ || d.name@ == "Isize"@ {
                CType::U64
            } else {
                ctype_from_defined(g, dd, j as nat)
            });
        },
        _ => {},
    }
}

#[verifier::rlimit(60)]
proof fn lemma_lit_error_envelope()
    ensures
        has_part("result_t));\n    if (!r) return NULL;\n\n    r->doc_ = dc_json_doc_parse(json);\n    dc_json_t root = dc_json_root(r->doc_);\n    if (!dc_json_is_valid(root)) {\n        r->error_code = -32700;\n        r->error_message = strdup(\"Failed to parse JSON\");\n        return r;\n    }\n\n    dc_json_t id = dc_json_get(root, \"id\");\n    if (!dc_json_is_number(id)) {\n        r->error_code = -32700;\n        r->error_message = strdup(\"Repsonse does not have a valid `id`\");\n        return r;\n    }\n    r->id = (uint32_t)dc_json_get_double(id);\n\n    dc_json_t error = dc_json_get(root, \"error\");\n    if (dc_json_is_valid(error) && dc_json_is_object(error)) {\n        dc_json_t code = dc_json_get(error, \"code\");\n        dc_json_t message = dc_json_get(error, \"message\");\n        r->error_code = dc_json_is_number(code) ? (int32_t)dc_json_get_double(code) : -32700;\n        r->error_message = dc_json_is_string(message) ? dc_json_copy_string(message) : strdup(\"Unknown error\");\n        return r;\n    }\n\n    dc_json_t result = dc_json_get(root, \"result\");\n    if (!dc_json_is_valid(result)) {\n        r->error_code = -32700;\n        r->error_message = strdup(\"Response has neither 'result' nor 'error'\");\n        return r;\n    }\n\n    r->result = result;\n    return r;\n}\n\nstatic inline void "@, "    dc_json_t error = dc_json_get(root, \"error\");\n    if (dc_json_is_valid(error) && dc_json_is_object(error)) {\n        dc_json_t code = dc_json_get(error, \"code\");\n        dc_json_t message = dc_json_get(error, \"message\");\n        r->error_code = dc_json_is_number(code) ? (int32_t)dc_json_get_double(code) : -32700;\n        r->error_message = dc_json_is_string(message) ? dc_json_copy_string(message) : strdup(\"Unknown error\");\n        return r;\n    }\n\n"@),
{
    reveal_strlit("result_t));\n    if (!r) return NULL;\n\n    r->doc_ = dc_json_doc_parse(json);\n    dc_json_t root = dc_json_root(r->doc_);\n    if (!dc_json_is_valid(root)) {\n        r->error_code = -32700;\n        r->error_message = strdup(\"Failed to parse JSON\");\n        return r;\n    }\n\n    dc_json_t id = dc_json_get(root, \"id\");\n    if (!dc_json_is_number(id)) {\n        r->error_code = -32700;\n        r->error_message = strdup(\"Repsonse does not have a valid `id`\");\n        return r;\n    }\n    r->id = (uint32_t)dc_json_get_double(id);\n\n    dc_json_t error = dc_json_get(root, \"error\");\n    if (dc_json_is_valid(error) && dc_json_is_object(error)) {\n        dc_json_t code = dc_json_get(error, \"code\");\n        dc_json_t message = dc_json_get(error, \"message\");\n        r->error_code = dc_json_is_number(code) ? (int32_t)dc_json_get_double(code) : -32700;\n        r->error_message = dc_json_is_string(message) ? dc_json_copy_string(message) : strdup(\"Unknown error\");\n        return r;\n    }\n\n    dc_json_t result = dc_json_get(root, \"result\");\n    if (!dc_json_is_valid(result)) {\n        r->error_code = -32700;\n        r->error_message = strdup(\"Response has neither 'result' nor 'error'\");\n        return r;\n    }\n\n    r->result = result;\n    return r;\n}\n\nstatic inline void ");
    reveal_strlit("    dc_json_t error = dc_json_get(root, \"error\");\n    if (dc_json_is_valid(error) && dc_json_is_object(error)) {\n        dc_json_t code = dc_json_get(error, \"code\");\n        dc_json_t message = dc_json_get(error, \"message\");\n        r->error_code = dc_json_is_number(code) ? (int32_t)dc_json_get_double(code) : -32700;\n        r->error_message = dc_json_is_string(message) ? dc_json_copy_string(message) : strdup(\"Unknown error\");\n        return r;\n    }\n\n");
    reveal_strlit("result_t));\n    if (!r) return NULL;\n\n    r->doc_ = dc_json_doc_parse(json);\n    dc_json_t root = dc_json_root(r->doc_);\n    if (!dc_json_is_valid(root)) {\n        r->error_code = -32700;\n        r->error_message = strdup(\"Failed to parse JSON\");\n        return r;\n    }\n\n    dc_json_t id = dc_json_get(root, \"id\");\n    if (!dc_json_is_number(id)) {\n        r->error_code = -32700;\n        r->error_message = strdup(\"Repsonse does not have a valid `id`\");\n        return r;\n    }\n    r->id = (uint32_t)dc_json_get_double(id);\n\n");
    let s = "result_t));\n    if (!r) return NULL;\n\n    r->doc_ = dc_json_doc_parse(json);\n    dc_json_t root = dc_json_root(r->doc_);\n    if (!dc_json_is_valid(root)) {\n        r->error_code = -32700;\n        r->error_message = strdup(\"Failed to parse JSON\");\n        return r;\n    }\n\n    dc_json_t id = dc_json_get(root, \"id\");\n    if (!dc_json_is_number(id)) {\n        r->error_code = -32700;\n        r->error_message = strdup(\"Repsonse does not have a valid `id`\");\n        return r;\n    }\n    r->id = (uint32_t)dc_json_get_double(id);\n\n    dc_json_t error = dc_json_get(root, \"error\");\n    if (dc_json_is_valid(error) && dc_json_is_object(error)) {\n        dc_json_t code = dc_json_get(error, \"code\");\n        dc_json_t message = dc_json_get(error, \"message\");\n        r->error_code = dc_json_is_number(code) ? (int32_t)dc_json_get_double(code) : -32700;\n        r->error_message = dc_json_is_string(message) ? dc_json_copy_string(message) : strdup(\"Unknown error\");\n        return r;\n    }\n\n    dc_json_t result = dc_json_get(root, \"result\");\n    if (!dc_json_is_valid(result)) {\n        r->error_code = -32700;\n        r->error_message = strdup(\"Response has neither 'result' nor 'error'\");\n        return r;\n    }\n\n    r->result = result;\n    return r;\n}\n\nstatic inline void "@;
    let n: int = "result_t));\n    if (!r) return NULL;\n\n    r->doc_ = dc_json_doc_parse(json);\n    dc_json_t root = dc_json_root(r->doc_);\n    if (!dc_json_is_valid(root)) {\n        r->error_code = -32700;\n        r->error_message = strdup(\"Failed to parse JSON\");\n        return r;\n    }\n\n    dc_json_t id = dc_json_get(root, \"id\");\n    if (!dc_json_is_number(id)) {\n        r->error_code = -32700;\n        r->error_message = strdup(\"Repsonse does not have a valid `id`\");\n        return r;\n    }\n    r->id = (uint32_t)dc_json_get_double(id);\n\n"@.len() as int;
    assert(s.subrange(n, n + "    dc_json_t error = dc_json_get(root, \"error\");\n    if (dc_json_is_valid(error) && dc_json_is_object(error)) {\n        dc_json_t code = dc_json_get(error, \"code\");\n        dc_json_t message = dc_json_get(error, \"message\");\n        r->error_code = dc_json_is_number(code) ? (int32_t)dc_json_get_double(code) : -32700;\n        r->error_message = dc_json_is_string(message) ? dc_json_copy_string(message) : strdup(\"Unknown error\");\n        return r;\n    }\n\n"@.len() as int) =~= "    dc_json_t error = dc_json_get(root, \"error\");\n    if (dc_json_is_valid(error) && dc_json_is_object(error)) {\n        dc_json_t code = dc_json_get(error, \"code\");\n        dc_json_t message = dc_json_get(error, \"message\");\n        r->error_code = dc_json_is_number(code) ? (int32_t)dc_json_get_double(code) : -32700;\n        r->error_message = dc_json_is_string(message) ? dc_json_copy_string(message) : strdup(\"Unknown error\");\n        return r;\n    }\n\n"@);
}

/// The branch of the response parser that handles an error response.
pub open spec fn error_branch() -> Seq<char> {
    "    dc_json_t error = dc_json_get(root, \"error\");\n    if (dc_json_is_valid(error) && dc_json_is_object(error)) {\n        dc_json_t code = dc_json_get(error, \"code\");\n        dc_json_t message = dc_json_get(error, \"message\");\n        r->error_code = dc_json_is_number(code) ? (int32_t)dc_json_get_double(code) : -32700;\n        r->error_message = dc_json_is_string(message) ? dc_json_copy_string(message) : strdup(\"Unknown error\");\n        return r;\n    }\n\n"@
}

/// The branch of the response parser that handles the result.
pub open spec fn result_branch() -> Seq<char> {
    "    dc_json_t result = dc_json_get(root, \"result\");\n    if (!dc_json_is_valid(result)) {\n        r->error_code = -32700;\n        r->error_message = strdup(\"Response has neither 'result' nor 'error'\");\n        return r;\n    }\n\n    r->result = result;\n    return r;\n}\n"@
}

proof fn lemma_header_has_envelope_part(ms: Seq<MethodModel>, ds: Seq<TypeDefModel>, ns: Seq<char>, q: Seq<char>)
    requires
        has_part("result_t));\n    if (!r) return NULL;\n\n    r->doc_ = dc_json_doc_parse(json);\n    dc_json_t root = dc_json_root(r->doc_);\n    if (!dc_json_is_valid(root)) {\n        r->error_code = -32700;\n        r->error_message = strdup(\"Failed to parse JSON\");\n        return r;\n    }\n\n    dc_json_t id = dc_json_get(root, \"id\");\n    if (!dc_json_is_number(id)) {\n        r->error_code = -32700;\n        r->error_message = strdup(\"Repsonse does not have a valid `id`\");\n        return r;\n    }\n    r->id = (uint32_t)dc_json_get_double(id);\n\n    dc_json_t error = dc_json_get(root, \"error\");\n    if (dc_json_is_valid(error) && dc_json_is_object(error)) {\n        dc_json_t code = dc_json_get(error, \"code\");\n        dc_json_t message = dc_json_get(error, \"message\");\n        r->error_code = dc_json_is_number(code) ? (int32_t)dc_json_get_double(code) : -32700;\n        r->error_message = dc_json_is_string(message) ? dc_json_copy_string(message) : strdup(\"Unknown error\");\n        return r;\n    }\n\n    dc_json_t result = dc_json_get(root, \"result\");\n    if (!dc_json_is_valid(result)) {\n        r->error_code = -32700;\n        r->error_message = strdup(\"Response has neither 'result' nor 'error'\");\n        return r;\n    }\n\n    r->result = result;\n    return r;\n}\n\nstatic inline void "@, q),
    ensures
        has_part(header_text(ms, ds, ns), q),
{
    let pre = "#pragma once\n\n#include <stdbool.h>\n#include <stdint.h>\n#include <stdlib.h>\n#include <string.h>\n\n#include \"dc_json_cjson.h\"\n/* dc_json backend must be included before this header */\n\ntypedef struct {\n    const char* json;   /* serialized JSON-RPC string (owned) */\n} "@ + ns + "request_t;\n\nstatic inline const char* "@ + ns + "string_new(const char* s) { return strdup(s); }\nstatic inline void "@ + ns + "string_unref(const char* s) { free((char*)s); }\n\nstatic inline void "@ + ns + "request_unref("@ + ns + "request_t* r) {\n    if (r) {\n        free((void*)r->json);\n        free(r);\n    }\n}\n\ntypedef struct {\n    uint32_t      id;\n    int32_t       error_code;     /* 0 = success, -32700 = parse fail, else JSON-RPC error */\n    dc_json_t     result;         /* node in doc_, valid when error_code == 0 */\n    const char*   error_message;  /* owned string or literal, valid when error_code != 0 */\n    dc_json_doc_t doc_;        /* owns the parsed tree */\n} "@ + ns + "result_t;\n\nstatic inline "@ + ns + "result_t* "@ + ns + "parse_response(const char* json) {\n    "@ + ns + "result_t* r = ("@ + ns + "result_t*)calloc(1, sizeof("@ + ns;
    let p0 = pre + "result_t));\n    if (!r) return NULL;\n\n    r->doc_ = dc_json_doc_parse(json);\n    dc_json_t root = dc_json_root(r->doc_);\n    if (!dc_json_is_valid(root)) {\n        r->error_code = -32700;\n        r->error_message = strdup(\"Failed to parse JSON\");\n        return r;\n    }\n\n    dc_json_t id = dc_json_get(root, \"id\");\n    if (!dc_json_is_number(id)) {\n        r->error_code = -32700;\n        r->error_message = strdup(\"Repsonse does not have a valid `id`\");\n        return r;\n    }\n    r->id = (uint32_t)dc_json_get_double(id);\n\n    dc_json_t error = dc_json_get(root, \"error\");\n    if (dc_json_is_valid(error) && dc_json_is_object(error)) {\n        dc_json_t code = dc_json_get(error, \"code\");\n        dc_json_t message = dc_json_get(error, \"message\");\n        r->error_code = dc_json_is_number(code) ? (int32_t)dc_json_get_double(code) : -32700;\n        r->error_message = dc_json_is_string(message) ? dc_json_copy_string(message) : strdup(\"Unknown error\");\n        return r;\n    }\n\n    dc_json_t result = dc_json_get(root, \"result\");\n    if (!dc_json_is_valid(result)) {\n        r->error_code = -32700;\n        r->error_message = strdup(\"Response has neither 'result' nor 'error'\");\n        return r;\n    }\n\n    r->result = result;\n    return r;\n}\n\nstatic inline void "@;
    lemma_part_right(pre, "result_t));\n    if (!r) return NULL;\n\n    r->doc_ = dc_json_doc_parse(json);\n    dc_json_t root = dc_json_root(r->doc_);\n    if (!dc_json_is_valid(root)) {\n        r->error_code = -32700;\n        r->error_message = strdup(\"Failed to parse JSON\");\n        return r;\n    }\n\n    dc_json_t id = dc_json_get(root, \"id\");\n    if (!dc_json_is_number(id)) {\n        r->error_code = -32700;\n        r->error_message = strdup(\"Repsonse does not have a valid `id`\");\n        return r;\n    }\n    r->id = (uint32_t)dc_json_get_double(id);\n\n    dc_json_t error = dc_json_get(root, \"error\");\n    if (dc_json_is_valid(error) && dc_json_is_object(error)) {\n        dc_json_t code = dc_json_get(error, \"code\");\n        dc_json_t message = dc_json_get(error, \"message\");\n        r->error_code = dc_json_is_number(code) ? (int32_t)dc_json_get_double(code) : -32700;\n        r->error_message = dc_json_is_string(message) ? dc_json_copy_string(message) : strdup(\"Unknown error\");\n        return r;\n    }\n\n    dc_json_t result = dc_json_get(root, \"result\");\n    if (!dc_json_is_valid(result)) {\n        r->error_code = -32700;\n        r->error_message = strdup(\"Response has neither 'result' nor 'error'\");\n        return r;\n    }\n\n    r->result = result;\n    return r;\n}\n\nstatic inline void "@, q);
    lemma_part_left(p0, ns, q);
    lemma_part_left(p0 + ns, "result_unref("@, q);
    lemma_part_left(p0 + ns + "result_unref("@, ns, q);
    let p = header_preamble_text(ns);
    let tail = "result_t* r) {\n    if (r) {\n        dc_json_doc_free(r->doc_);\n        free((char*)r->error_message);\n        free(r);\n    }\n}\n"@;
    lemma_part_left(p0 + ns + "result_unref("@ + ns, tail, q);
    assert(p == p0 + ns + "result_unref("@ + ns + tail);
    let all = all_type_exprs(ms, ds);
    let b0 = p + forward_declarations_text(all, ns);
    let b1 = b0 + concat_map(ds, forward_decls_fn(ns));
    let b2 = b1 + concat_map(ds, late_decls_fn(ns));
    let b3 = b2 + early_text(all, ns);
    let b4 = b3 + concat_map(ds, definitions_fn(ns));
    let b5 = b4 + late_text(all, ns);
    assert(header_text(ms, ds, ns) == b5 + concat_map(ms, method_text_fn(ns)));
    lemma_part_left(p, forward_declarations_text(all, ns), q);
    lemma_part_left(b0, concat_map(ds, forward_decls_fn(ns)), q);
    lemma_part_left(b1, concat_map(ds, late_decls_fn(ns)), q);
    lemma_part_left(b2, early_text(all, ns), q);
    lemma_part_left(b3, concat_map(ds, definitions_fn(ns)), q);
    lemma_part_left(b4, late_text(all, ns), q);
    lemma_part_left(b5, concat_map(ms, method_text_fn(ns)), q);
}

/// The response parser of `rpc.h` passes an error response's code and message
/// on (with -32700 where the code is not a number), and reports "neither result
/// nor error" only where the response's result is not valid, keeping a valid
/// result with error code 0.
pub proof fn law_response_envelope(ms: Seq<MethodModel>, ds: Seq<TypeDefModel>, ns: Seq<char>)
    ensures
        has_part(header_text(ms, ds, ns), result_branch()),
        has_part(header_text(ms, ds, ns), error_branch()),
{
    lemma_lit_result_branch();
    lemma_header_has_envelope_part(ms, ds, ns, result_branch());
    lemma_lit_error_envelope();
    lemma_header_has_envelope_part(ms, ds, ns, error_branch());
}

} // verus!

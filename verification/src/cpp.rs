//! Generation of the C++ header: owning and view wrappers around the C types and
//! an RPC client class.
use vstd::prelude::*;
use crate::c::type_def::{
    c_argument_list, def_ctype, fields_view, DefModel, EnumDef, EnumModel, EnumVariant, FieldModel,
    TypeDef, TypeDefInner, TypeDefModel, VariantModel,
};
use crate::c::{
    all_type_exprs, apply_recursive, c_type, has_type_def, collect_all_type_exprs, defs_view, is_scalar,
    lemma_views_of_len, methods_view, needs_heap_free, slug, type_id, views_of, visit_order,
    zero_val, CType, Method, MethodModel, TypeExpr,
};
use crate::text::{
    case_converted, concat_map, concat_mapi, decimal, decimal_string, join_map, join_mapi,
    lemma_concat_map_step, lemma_concat_mapi_step, lemma_join_map_step, lemma_join_mapi_step,
    lemma_take_all, to_case, CaseStyle,
};

verus! {

/// The C++ owning type of `t`: the Pascal-cased slug for containers and named
/// structs, the C type otherwise.
pub open spec fn cpp_type(t: CType, ns: Seq<char>) -> Seq<char> {
    match t {
        CType::Optional(_) | CType::Array(_) | CType::Record(_) | CType::Struct(_)
        | CType::TaggedEnum(_) | CType::Tuple(_) => case_converted(slug(t), CaseStyle::Pascal),
        _ => c_type(t, ns),
    }
}

/// The C++ borrowing (view) type of `t`.
pub open spec fn cpp_view_type(t: CType, ns: Seq<char>) -> Seq<char> {
    match t {
        CType::String => c_type(t, ns),
        CType::Optional(_) => if !needs_heap_free(t) {
            cpp_type(t, ns)
        } else {
            cpp_type(t, ns) + "View"@
        },
        CType::Array(_) | CType::Record(_) | CType::Struct(_) | CType::TaggedEnum(_)
        | CType::Tuple(_) => cpp_type(t, ns) + "View"@,
        _ => cpp_type(t, ns),
    }
}

/// How a C++ value named `name` is handed to a C constructor: strings are copied,
/// optional scalars passed as their C struct, owning wrappers released.
pub open spec fn release_or_copy_string(t: CType, name: Seq<char>, ns: Seq<char>) -> Seq<char> {
    match t {
        CType::String => ns + "string_new("@ + name + ")"@,
        CType::Optional(inner) if is_scalar(*inner) => name + "._c"@,
        _ => if needs_heap_free(t) {
            name + "._c.release()"@
        } else {
            name
        },
    }
}

/// The C type that an owning wrapper of `t` points to.
pub open spec fn pointee_type(t: CType, ns: Seq<char>) -> Seq<char>
    decreases t,
{
    match t {
        CType::String => "const char"@,
        CType::Optional(inner) if needs_heap_free(*inner) => pointee_type(*inner, ns),
        _ => ns + slug(t) + "_t"@,
    }
}

impl TypeExpr {
    pub fn cpp_type(&self, ns: &str) -> (r: String)
        ensures
            r@ == cpp_type(self@, ns@),
    {
        match self {
            TypeExpr::Optional(_) | TypeExpr::Array(_) | TypeExpr::Record(_) | TypeExpr::Struct(_)
            | TypeExpr::TaggedEnum(_) | TypeExpr::Tuple(_) => to_case(
                self.type_slug().as_str(),
                CaseStyle::Pascal,
            ),
            _ => self.c_type(ns),
        }
    }

    pub fn cpp_view_type(&self, ns: &str) -> (r: String)
        ensures
            r@ == cpp_view_type(self@, ns@),
    {
        match self {
            TypeExpr::String => self.c_type(ns),
            TypeExpr::Optional(_) => if !self.needs_heap_free() {
                self.cpp_type(ns)
            } else {
                let mut r = self.cpp_type(ns);
                r.append("View");
                r
            },
            TypeExpr::Array(_) | TypeExpr::Record(_) | TypeExpr::Struct(_) | TypeExpr::TaggedEnum(_)
            | TypeExpr::Tuple(_) => {
                let mut r = self.cpp_type(ns);
                r.append("View");
                r
            },
            _ => self.cpp_type(ns),
        }
    }

    pub(crate) fn release_or_copy_string(&self, name: &str, ns: &str) -> (r: String)
        ensures
            r@ == release_or_copy_string(self@, name@, ns@),
    {
        match self {
            TypeExpr::String => {
                let mut r = String::from_str(ns);
                r.append("string_new(");
                r.append(name);
                r.append(")");
                r
            },
            TypeExpr::Optional(inner) if inner.is_scalar() => {
                let mut r = String::from_str(name);
                r.append("._c");
                r
            },
            _ => if self.needs_heap_free() {
                let mut r = String::from_str(name);
                r.append("._c.release()");
                r
            } else {
                String::from_str(name)
            },
        }
    }
}

pub(crate) fn pointed_to_type(t: &TypeExpr, ns: &str) -> (r: String)
    requires
        needs_heap_free(t@),
    ensures
        r@ == pointee_type(t@, ns@),
    decreases t,
{
    match t {
        TypeExpr::String => String::from_str("const char"),
        TypeExpr::Optional(inner) if inner.needs_heap_free() => pointed_to_type(inner, ns),
        _ => {
            let mut r = String::from_str(ns);
            r.append(t.type_slug().as_str());
            r.append("_t");
            r
        },
    }
}

pub open spec fn cpp_param(ns: Seq<char>, f: FieldModel) -> Seq<char> {
    cpp_type(f.1, ns) + " "@ + f.0
}

pub open spec fn cpp_param_fn(ns: Seq<char>) -> spec_fn(FieldModel) -> Seq<char> {
    |f: FieldModel| cpp_param(ns, f)
}

/// The C++ parameter list of the fields.
pub open spec fn cpp_argument_list(fields: Seq<FieldModel>, ns: Seq<char>) -> Seq<char> {
    join_map(fields, cpp_param_fn(ns), ", "@)
}

#[verifier::loop_isolation(false)]
fn argument_list(fields: &Vec<(String, TypeExpr)>, ns: &str) -> (r: String)
    ensures
        r@ == cpp_argument_list(fields_view(fields@), ns@),
{
    let mut r = String::new();
    let mut i: usize = 0;
    while i < fields.len()
        invariant
            i <= fields.len(),
            r@ == join_map(fields_view(fields@).take(i as int), cpp_param_fn(ns@), ", "@),
        decreases fields.len() - i,
    {
        let fname = &fields[i].0;
        let fty = &fields[i].1;
        let fcpp = fty.cpp_type(ns);
        let mut line = String::from_str(fcpp.as_str());
        line.append(" ");
        line.append(fname.as_str());
        proof {
            lemma_join_map_step(fields_view(fields@), i as int, cpp_param_fn(ns@), ", "@);
        }
        if i > 0 {
            r.append(", ");
        }
        r.append(line.as_str());
        i = i + 1;
    }
    proof {
        lemma_take_all(fields_view(fields@));
    }
    r
}

/// One argument handed on to a request: owning wrappers are moved, the rest passed.
pub open spec fn move_arg(f: FieldModel) -> Seq<char> {
    match f.1 {
        CType::String => f.0,
        _ => if needs_heap_free(f.1) {
            "std::move("@ + f.0 + ")"@
        } else {
            f.0
        },
    }
}

pub open spec fn move_arg_fn() -> spec_fn(FieldModel) -> Seq<char> {
    |f: FieldModel| move_arg(f)
}

pub open spec fn argument_list_move_text(fields: Seq<FieldModel>) -> Seq<char> {
    join_map(fields, move_arg_fn(), ", "@)
}

/// One argument handed to a C function: strings as they are, optional scalars as
/// their C struct, owning wrappers as the borrowed pointer.
pub open spec fn accessor_arg(f: FieldModel) -> Seq<char> {
    f.0 + match f.1 {
        CType::String => Seq::empty(),
        CType::Optional(inner) if is_scalar(*inner) => "._c"@,
        _ => if needs_heap_free(f.1) {
            "._c.get()"@
        } else {
            Seq::empty()
        },
    }
}

pub open spec fn accessor_arg_fn() -> spec_fn(FieldModel) -> Seq<char> {
    |f: FieldModel| accessor_arg(f)
}

pub open spec fn argument_list_accessors_text(fields: Seq<FieldModel>) -> Seq<char> {
    join_map(fields, accessor_arg_fn(), ", "@)
}

pub open spec fn release_arg(ns: Seq<char>, f: FieldModel) -> Seq<char> {
    release_or_copy_string(f.1, f.0, ns)
}

pub open spec fn release_arg_fn(ns: Seq<char>) -> spec_fn(FieldModel) -> Seq<char> {
    |f: FieldModel| release_arg(ns, f)
}

pub open spec fn argument_list_release_text(fields: Seq<FieldModel>, ns: Seq<char>) -> Seq<char> {
    join_map(fields, release_arg_fn(ns), ", "@)
}

#[verifier::loop_isolation(false)]
fn argument_list_move(fields: &Vec<(String, TypeExpr)>) -> (r: String)
    ensures
        r@ == argument_list_move_text(fields_view(fields@)),
{
    let mut r = String::new();
    let mut i: usize = 0;
    while i < fields.len()
        invariant
            i <= fields.len(),
            r@ == join_map(fields_view(fields@).take(i as int), move_arg_fn(), ", "@),
        decreases fields.len() - i,
    {
        let fname = &fields[i].0;
        let fty = &fields[i].1;
        let line = match fty {
            TypeExpr::String => fname.clone(),
            _ => if fty.needs_heap_free() {
                let mut m = String::from_str("std::move(");
                m.append(fname.as_str());
                m.append(")");
                m
            } else {
                fname.clone()
            },
        };
        proof {
            lemma_join_map_step(fields_view(fields@), i as int, move_arg_fn(), ", "@);
        }
        if i > 0 {
            r.append(", ");
        }
        r.append(line.as_str());
        i = i + 1;
    }
    proof {
        lemma_take_all(fields_view(fields@));
    }
    r
}

#[verifier::loop_isolation(false)]
fn argument_list_accessors(fields: &Vec<(String, TypeExpr)>) -> (r: String)
    ensures
        r@ == argument_list_accessors_text(fields_view(fields@)),
{
    let mut r = String::new();
    let mut i: usize = 0;
    while i < fields.len()
        invariant
            i <= fields.len(),
            r@ == join_map(fields_view(fields@).take(i as int), accessor_arg_fn(), ", "@),
        decreases fields.len() - i,
    {
        let fname = &fields[i].0;
        let fty = &fields[i].1;
        let mut line = fname.clone();
        match fty {
            TypeExpr::String => {},
            TypeExpr::Optional(inner) if inner.is_scalar() => line.append("._c"),
            _ => if fty.needs_heap_free() {
                line.append("._c.get()");
            },
        }
        proof {
            assert(line@ =~= accessor_arg(fields_view(fields@)[i as int]));
        }
        proof {
            lemma_join_map_step(fields_view(fields@), i as int, accessor_arg_fn(), ", "@);
        }
        if i > 0 {
            r.append(", ");
        }
        r.append(line.as_str());
        i = i + 1;
    }
    proof {
        lemma_take_all(fields_view(fields@));
    }
    r
}

#[verifier::loop_isolation(false)]
fn argument_list_release(fields: &Vec<(String, TypeExpr)>, ns: &str) -> (r: String)
    ensures
        r@ == argument_list_release_text(fields_view(fields@), ns@),
{
    let mut r = String::new();
    let mut i: usize = 0;
    while i < fields.len()
        invariant
            i <= fields.len(),
            r@ == join_map(fields_view(fields@).take(i as int), release_arg_fn(ns@), ", "@),
        decreases fields.len() - i,
    {
        let fname = &fields[i].0;
        let fty = &fields[i].1;
        let line = fty.release_or_copy_string(fname.as_str(), ns);
        proof {
            lemma_join_map_step(fields_view(fields@), i as int, release_arg_fn(ns@), ", "@);
        }
        if i > 0 {
            r.append(", ");
        }
        r.append(line.as_str());
        i = i + 1;
    }
    proof {
        lemma_take_all(fields_view(fields@));
    }
    r
}

/// The view struct and the owning struct of a heap type, with the members `imp`
/// in both and `imp_owned_only` in the owning one.
pub open spec fn cpp_structs_text(t: CType, imp: Seq<char>, imp_owned_only: Seq<char>, ns: Seq<char>) -> Seq<char> {
    "struct "@ + cpp_view_type(t, ns) + " {\n"@ + imp + "\n    operator bool() { return bool(_c); }\n    "@ + c_type(t, ns) + " _c;\n};\nstruct "@ + cpp_type(t, ns) + " {\n"@ + imp_owned_only + "\n"@ + imp + "\n    operator bool() { return bool(_c); }\n    "@ + cpp_view_type(t, ns) + " view() const;\n    "@ + cpp_type(t, ns) + "("@ + c_type(t, ns) + " owned_ptr) : _c(owned_ptr) {}\n    "@ + cpp_type(t, ns) + "() : _c{} {}\n    struct Deleter { void operator()("@ + c_type(t, ns) + " p) { "@ + type_id(t, ns) + "_unref(p); } };\n    std::unique_ptr<"@ + pointee_type(t, ns) + ", Deleter> _c;\n};\n\n"@
}

fn cpp_structs(t: &TypeExpr, imp: &str, imp_owned_only: &str, ns: &str) -> (r: String)
    requires
        needs_heap_free(t@),
    ensures
        r@ == cpp_structs_text(t@, imp@, imp_owned_only@, ns@),
{
    let ct = t.c_type(ns);
    let id = t.id(ns);
    let name = t.cpp_type(ns);
    let view_name = t.cpp_view_type(ns);
    let ptr = pointed_to_type(t, ns);
    let mut s = String::from_str("struct ");
    s.append(view_name.as_str());
    s.append(" {\n");
    s.append(imp);
    s.append("\n    operator bool() { return bool(_c); }\n    ");
    s.append(ct.as_str());
    s.append(" _c;\n};\nstruct ");
    s.append(name.as_str());
    s.append(" {\n");
    s.append(imp_owned_only);
    s.append("\n");
    s.append(imp);
    s.append("\n    operator bool() { return bool(_c); }\n    ");
    s.append(view_name.as_str());
    s.append(" view() const;\n    ");
    s.append(name.as_str());
    s.append("(");
    s.append(ct.as_str());
    s.append(" owned_ptr) : _c(owned_ptr) {}\n    ");
    s.append(name.as_str());
    s.append("() : _c{} {}\n    struct Deleter { void operator()(");
    s.append(ct.as_str());
    s.append(" p) { ");
    s.append(id.as_str());
    s.append("_unref(p); } };\n    std::unique_ptr<");
    s.append(ptr.as_str());
    s.append(", Deleter> _c;\n};\n\n");
    s
}

fn emit_cpp_structs(out: &mut String, t: &TypeExpr, imp: &str, imp_owned_only: &str, ns: &str)
    requires
        needs_heap_free(t@),
    ensures
        final(out)@ == old(out)@ + cpp_structs_text(t@, imp@, imp_owned_only@, ns@),
{
    out.append(cpp_structs(t, imp, imp_owned_only, ns).as_str());
}

/// The definition of `view()` of the owning struct.
pub open spec fn view_fn_declaration_text(t: CType, ns: Seq<char>) -> Seq<char> {
    "inline "@ + cpp_view_type(t, ns) + " "@ + cpp_type(t, ns) + "::view() const { return ("@ + cpp_view_type(t, ns) + "){_c.get()}; }\n"@
}

fn emit_view_fn_declaration(out: &mut String, t: &TypeExpr, ns: &str)
    ensures
        final(out)@ == old(out)@ + view_fn_declaration_text(t@, ns@),
{
    let name = t.cpp_type(ns);
    let view_name = t.cpp_view_type(ns);
    let mut s = String::from_str("inline ");
    s.append(view_name.as_str());
    s.append(" ");
    s.append(name.as_str());
    s.append("::view() const { return (");
    s.append(view_name.as_str());
    s.append("){_c.get()}; }\n");
    out.append(s.as_str());
}

/// The forward declarations of a definition's two structs (none for a string enum).
pub open spec fn defined_forward_declarations_text(d: TypeDefModel, ns: Seq<char>) -> Seq<char> {
    match d.def {
        DefModel::StringEnum { .. } => Seq::empty(),
        _ => "struct "@ + cpp_view_type(def_ctype(d), ns) + ";\nstruct "@ + cpp_type(def_ctype(d), ns) + ";\n"@,
    }
}

fn emit_defined_forward_declarations(out: &mut String, d: &TypeDef, ns: &str)
    ensures
        final(out)@ == old(out)@ + defined_forward_declarations_text(d@, ns@),
{
    match &d.def {
        TypeDefInner::StringEnum { .. } => {
            assert(out@ =~= out@ + Seq::<char>::empty());
        },
        _ => {
            let t = d.as_ctype();
            let v = t.cpp_view_type(ns);
            let n = t.cpp_type(ns);
            let mut s = String::from_str("struct ");
            s.append(v.as_str());
            s.append(";\nstruct ");
            s.append(n.as_str());
            s.append(";\n");
            out.append(s.as_str());
        },
    }
}

pub open spec fn struct_member_decl(ns: Seq<char>, f: FieldModel) -> Seq<char> {
    "    "@ + cpp_view_type(f.1, ns) + " "@ + f.0 + "() const;"@
}

pub open spec fn struct_member_decl_fn(ns: Seq<char>) -> spec_fn(FieldModel) -> Seq<char> {
    |f: FieldModel| struct_member_decl(ns, f)
}

pub open spec fn struct_ctor_decl(t: CType, fields: Seq<FieldModel>, ns: Seq<char>) -> Seq<char> {
    "    "@ + cpp_type(t, ns) + "("@ + cpp_argument_list(fields, ns) + ") : _c("@ + type_id(t, ns) + "_new("@ + argument_list_release_text(fields, ns) + ")) {}"@
}

/// The two C++ structs of a struct definition: field accessors in both, the
/// field-wise constructor in the owning one.
pub open spec fn struct_declarations_text(d: TypeDefModel, fields: Seq<FieldModel>, ns: Seq<char>) -> Seq<char> {
    cpp_structs_text(def_ctype(d), join_map(fields, struct_member_decl_fn(ns), "\n"@), struct_ctor_decl(def_ctype(d), fields, ns), ns)
}

#[verifier::loop_isolation(false)]
fn emit_struct_declarations(out: &mut String, d: &TypeDef, fields: &Vec<(String, TypeExpr)>, ns: &str)
    requires
        d@.def == (DefModel::Struct { fields: fields_view(fields@) }),
    ensures
        final(out)@ == old(out)@ + struct_declarations_text(d@, fields_view(fields@), ns@),
{
    let t = d.as_ctype();
    let mut imp = String::new();
    let mut i: usize = 0;
    while i < fields.len()
        invariant
            i <= fields.len(),
            imp@ == join_map(fields_view(fields@).take(i as int), struct_member_decl_fn(ns@), "\n"@),
        decreases fields.len() - i,
    {
        let fname = &fields[i].0;
        let fty = &fields[i].1;
        let fcv = fty.cpp_view_type(ns);
        let mut line = String::from_str("    ");
        line.append(fcv.as_str());
        line.append(" ");
        line.append(fname.as_str());
        line.append("() const;");
        proof {
            lemma_join_map_step(fields_view(fields@), i as int, struct_member_decl_fn(ns@), "\n"@);
        }
        if i > 0 {
            imp.append("\n");
        }
        imp.append(line.as_str());
        i = i + 1;
    }
    proof {
        lemma_take_all(fields_view(fields@));
    }
    let name = t.cpp_type(ns);
    let id = t.id(ns);
    let args = argument_list(fields, ns);
    let rel = argument_list_release(fields, ns);
    let mut ctor = String::from_str("    ");
    ctor.append(name.as_str());
    ctor.append("(");
    ctor.append(args.as_str());
    ctor.append(") : _c(");
    ctor.append(id.as_str());
    ctor.append("_new(");
    ctor.append(rel.as_str());
    ctor.append(")) {}");
    emit_cpp_structs(out, &t, imp.as_str(), ctor.as_str(), ns);
}

pub open spec fn te_view_accessor(ns: Seq<char>, vname: Seq<char>, f: FieldModel) -> Seq<char> {
    "    "@ + cpp_view_type(f.1, ns) + " "@ + f.0 + "() { if (!*this) return ("@ + cpp_view_type(f.1, ns) + "){"@ + zero_val(f.1, ns) + "}; return ("@ + cpp_view_type(f.1, ns) + "){_c->data."@ + vname + "."@ + f.0 + "}; }\n"@
}

pub open spec fn te_view_accessor_fn(ns: Seq<char>, vname: Seq<char>) -> spec_fn(FieldModel) -> Seq<char> {
    |f: FieldModel| te_view_accessor(ns, vname, f)
}

/// The view struct of one variant: a test for the variant and accessors of its
/// fields, which give zero values on another variant.
pub open spec fn te_variant_view(ns: Seq<char>, idu: Seq<char>, ct: Seq<char>, name: Seq<char>, v: VariantModel) -> Seq<char> {
    "struct "@ + name + "Variant"@ + case_converted(v.tag_value, CaseStyle::UpperCamel) + "View {\n    operator bool() { return _c->kind == "@ + idu + "_"@ + case_converted(v.tag_value, CaseStyle::ScreamingSnake) + "; }\n"@ + concat_map(v.fields, te_view_accessor_fn(ns, case_converted(v.tag_value, CaseStyle::Snake))) + "    "@ + ct + " _c;\n};\n"@
}

pub open spec fn te_variant_view_fn(ns: Seq<char>, idu: Seq<char>, ct: Seq<char>, name: Seq<char>) -> spec_fn(VariantModel) -> Seq<char> {
    |v: VariantModel| te_variant_view(ns, idu, ct, name, v)
}

#[verifier::loop_isolation(false)]
fn te_variant_view_string(ns: &str, idu: &str, ct: &str, name: &str, v: &EnumVariant) -> (r: String)
    ensures
        r@ == te_variant_view(ns@, idu@, ct@, name@, v@),
{
    let fields = &v.fields;
    let vname = to_case(v.tag_value.as_str(), CaseStyle::Snake);
    let uc = to_case(v.tag_value.as_str(), CaseStyle::UpperCamel);
    let tss = to_case(v.tag_value.as_str(), CaseStyle::ScreamingSnake);
    let mut body = String::new();
    let mut i: usize = 0;
    while i < fields.len()
        invariant
            i <= fields.len(),
            body@ == concat_map(fields_view(fields@).take(i as int), te_view_accessor_fn(ns@, vname@)),
        decreases fields.len() - i,
    {
        let fname = &fields[i].0;
        let fty = &fields[i].1;
        let fcv = fty.cpp_view_type(ns);
        let zv = fty.zero_val(ns);
        let vname = vname.as_str();
        let mut line = String::from_str("    ");
        line.append(fcv.as_str());
        line.append(" ");
        line.append(fname.as_str());
        line.append("() { if (!*this) return (");
        line.append(fcv.as_str());
        line.append("){");
        line.append(zv.as_str());
        line.append("}; return (");
        line.append(fcv.as_str());
        line.append("){_c->data.");
        line.append(vname);
        line.append(".");
        line.append(fname.as_str());
        line.append("}; }\n");
        proof {
            lemma_concat_map_step(fields_view(fields@), i as int, te_view_accessor_fn(ns@, vname@));
        }
        body.append(line.as_str());
        i = i + 1;
    }
    proof {
        lemma_take_all(fields_view(fields@));
    }
    let mut s = String::from_str("struct ");
    s.append(name);
    s.append("Variant");
    s.append(uc.as_str());
    s.append("View {\n    operator bool() { return _c->kind == ");
    s.append(idu);
    s.append("_");
    s.append(tss.as_str());
    s.append("; }\n");
    s.append(body.as_str());
    s.append("    ");
    s.append(ct);
    s.append(" _c;\n};\n");
    s
}

pub open spec fn te_set_data(ns: Seq<char>, v: VariantModel) -> Seq<char> {
    if v.fields.len() > 0 {
        "        _c->data."@ + case_converted(v.tag_value, CaseStyle::Snake) + " = decltype(_c->data."@ + case_converted(v.tag_value, CaseStyle::Snake) + "){"@ + argument_list_release_text(v.fields, ns) + "};\n"@
    } else {
        Seq::empty()
    }
}

/// The setter and the view getter of one variant.
pub open spec fn te_method(ns: Seq<char>, idu: Seq<char>, name: Seq<char>, acc: Seq<char>, v: VariantModel) -> Seq<char> {
    "    void set_variant_"@ + case_converted(v.tag_value, CaseStyle::Snake) + "("@ + cpp_argument_list(v.fields, ns) + ") {\n        _c->kind = "@ + idu + "_"@ + case_converted(v.tag_value, CaseStyle::ScreamingSnake) + ";\n"@ + te_set_data(ns, v) + "    }\n    "@ + name + "Variant"@ + case_converted(v.tag_value, CaseStyle::UpperCamel) + "View as_variant_"@ + case_converted(v.tag_value, CaseStyle::Snake) + "() { return "@ + name + "Variant"@ + case_converted(v.tag_value, CaseStyle::UpperCamel) + "View{_c"@ + acc + "}; }\n"@
}

pub open spec fn te_method_fn(ns: Seq<char>, idu: Seq<char>, name: Seq<char>, acc: Seq<char>) -> spec_fn(VariantModel) -> Seq<char> {
    |v: VariantModel| te_method(ns, idu, name, acc, v)
}

#[verifier::loop_isolation(false)]
fn te_method_string(ns: &str, idu: &str, name: &str, acc: &str, v: &EnumVariant) -> (r: String)
    ensures
        r@ == te_method(ns@, idu@, name@, acc@, v@),
{
    let fields = &v.fields;
    let vname = to_case(v.tag_value.as_str(), CaseStyle::Snake);
    let uc = to_case(v.tag_value.as_str(), CaseStyle::UpperCamel);
    let tss = to_case(v.tag_value.as_str(), CaseStyle::ScreamingSnake);
    let args = argument_list(fields, ns);
    let rel = argument_list_release(fields, ns);
    let sd = if v.fields.len() > 0 {
        let mut u = String::from_str("        _c->data.");
        u.append(vname.as_str());
        u.append(" = decltype(_c->data.");
        u.append(vname.as_str());
        u.append("){");
        u.append(rel.as_str());
        u.append("};\n");
        u
    } else {
        String::new()
    };
    let mut s = String::from_str("    void set_variant_");
    s.append(vname.as_str());
    s.append("(");
    s.append(args.as_str());
    s.append(") {\n        _c->kind = ");
    s.append(idu);
    s.append("_");
    s.append(tss.as_str());
    s.append(";\n");
    s.append(sd.as_str());
    s.append("    }\n    ");
    s.append(name);
    s.append("Variant");
    s.append(uc.as_str());
    s.append("View as_variant_");
    s.append(vname.as_str());
    s.append("() { return ");
    s.append(name);
    s.append("Variant");
    s.append(uc.as_str());
    s.append("View{_c");
    s.append(acc);
    s.append("}; }\n");
    s
}

/// The variant setters and getters of a tagged enum's C++ structs; `acc` turns the
/// `_c` member into the raw pointer.
pub open spec fn tagged_enum_methods_text(ns: Seq<char>, e: EnumModel, id: Seq<char>, name: Seq<char>, acc: Seq<char>) -> Seq<char> {
    concat_map(e.variants, te_method_fn(ns, case_converted(id, CaseStyle::ScreamingSnake), name, acc))
}

#[verifier::loop_isolation(false)]
fn emit_tagged_enum_methods(out: &mut String, ns: &str, def: &EnumDef, id: &String, name: &String, ptr_accessor: &str)
    ensures
        final(out)@ == old(out)@ + tagged_enum_methods_text(ns@, def@, id@, name@, ptr_accessor@),
{
    let variants = &def.variants;
    let idu = to_case(id.as_str(), CaseStyle::ScreamingSnake);
    let mut body = String::new();
    let mut i: usize = 0;
    while i < variants.len()
        invariant
            i <= variants.len(),
            body@ == concat_map(def@.variants.take(i as int), te_method_fn(ns@, idu@, name@, ptr_accessor@)),
        decreases variants.len() - i,
    {
        let line = te_method_string(ns, idu.as_str(), name.as_str(), ptr_accessor, &variants[i]);
        proof {
            lemma_concat_map_step(def@.variants, i as int, te_method_fn(ns@, idu@, name@, ptr_accessor@));
        }
        body.append(line.as_str());
        i = i + 1;
    }
    proof {
        lemma_take_all(def@.variants);
    }
    out.append(body.as_str());
}

/// The C++ structs of a tagged enum: a view struct per variant, the view struct and
/// the owning struct with the variant setters and getters.
pub open spec fn tagged_enum_declarations_text(t: CType, e: EnumModel, ns: Seq<char>) -> Seq<char> {
    concat_map(e.variants, te_variant_view_fn(ns, case_converted(type_id(t, ns), CaseStyle::ScreamingSnake), c_type(t, ns), cpp_type(t, ns))) + "struct "@ + cpp_view_type(t, ns) + " {\n"@ + tagged_enum_methods_text(ns, e, type_id(t, ns), cpp_type(t, ns), ""@) + "    operator bool() { return bool(_c); }\n    "@ + c_type(t, ns) + " _c;\n};\nstruct "@ + cpp_type(t, ns) + " {\n"@ + tagged_enum_methods_text(ns, e, type_id(t, ns), cpp_type(t, ns), ".get()"@) + "    "@ + cpp_type(t, ns) + "() : _c("@ + type_id(t, ns) + "_new()) {};\n    operator bool() { return bool(_c); }\n    "@ + cpp_view_type(t, ns) + " view() const;\n    "@ + cpp_type(t, ns) + "("@ + c_type(t, ns) + " owned_ptr) : _c(owned_ptr) {}\n    struct Deleter { void operator()("@ + c_type(t, ns) + " p) { "@ + type_id(t, ns) + "_unref(p); } };\n    std::unique_ptr<"@ + pointee_type(t, ns) + ", Deleter> _c;\n};\n\n"@
}

#[verifier::loop_isolation(false)]
fn te_variant_views(ns: &str, idu: &str, ct: &str, name: &str, e: &EnumDef) -> (r: String)
    ensures
        r@ == concat_map(e@.variants, te_variant_view_fn(ns@, idu@, ct@, name@)),
{
    let variants = &e.variants;
    let mut views = String::new();
    let mut i: usize = 0;
    while i < variants.len()
        invariant
            i <= variants.len(),
            views@ == concat_map(e@.variants.take(i as int), te_variant_view_fn(ns@, idu@, ct@, name@)),
        decreases variants.len() - i,
    {
        let line = te_variant_view_string(ns, idu, ct, name, &variants[i]);
        proof {
            lemma_concat_map_step(e@.variants, i as int, te_variant_view_fn(ns@, idu@, ct@, name@));
        }
        views.append(line.as_str());
        i = i + 1;
    }
    proof {
        lemma_take_all(e@.variants);
    }
    views
}

#[verifier::loop_isolation(false)]
fn emit_tagged_enum_declarations(out: &mut String, t: &TypeExpr, e: &EnumDef, ns: &str)
    requires
        t@ is TaggedEnum,
    ensures
        final(out)@ == old(out)@ + tagged_enum_declarations_text(t@, e@, ns@),
{
    let variants = &e.variants;
    let ct = t.c_type(ns);
    let id = t.id(ns);
    let name = t.cpp_type(ns);
    let view_name = t.cpp_view_type(ns);
    let ptr = pointed_to_type(t, ns);
    let idu = to_case(id.as_str(), CaseStyle::ScreamingSnake);
    let views = te_variant_views(ns, idu.as_str(), ct.as_str(), name.as_str(), e);
    let mut m1 = String::new();
    emit_tagged_enum_methods(&mut m1, ns, e, &id, &name, "");
    let mut m2 = String::new();
    emit_tagged_enum_methods(&mut m2, ns, e, &id, &name, ".get()");
    proof {
        assert(m1@ =~= tagged_enum_methods_text(ns@, e@, id@, name@, ""@));
        assert(m2@ =~= tagged_enum_methods_text(ns@, e@, id@, name@, ".get()"@));
    }
    let mut s = String::from_str(views.as_str());
    s.append("struct ");
    s.append(view_name.as_str());
    s.append(" {\n");
    s.append(m1.as_str());
    s.append("    operator bool() { return bool(_c); }\n    ");
    s.append(ct.as_str());
    s.append(" _c;\n};\nstruct ");
    s.append(name.as_str());
    s.append(" {\n");
    s.append(m2.as_str());
    s.append("    ");
    s.append(name.as_str());
    s.append("() : _c(");
    s.append(id.as_str());
    s.append("_new()) {};\n    operator bool() { return bool(_c); }\n    ");
    s.append(view_name.as_str());
    s.append(" view() const;\n    ");
    s.append(name.as_str());
    s.append("(");
    s.append(ct.as_str());
    s.append(" owned_ptr) : _c(owned_ptr) {}\n    struct Deleter { void operator()(");
    s.append(ct.as_str());
    s.append(" p) { ");
    s.append(id.as_str());
    s.append("_unref(p); } };\n    std::unique_ptr<");
    s.append(ptr.as_str());
    s.append(", Deleter> _c;\n};\n\n");
    out.append(s.as_str());
}

/// The C++ structs of a definition (none for a string enum).
pub open spec fn defined_declarations_text(d: TypeDefModel, ns: Seq<char>) -> Seq<char> {
    match d.def {
        DefModel::StringEnum { .. } => Seq::empty(),
        DefModel::Struct { fields } => struct_declarations_text(d, fields, ns),
        DefModel::TaggedEnum { def } => tagged_enum_declarations_text(def_ctype(d), def, ns),
    }
}

fn emit_defined_declarations(out: &mut String, d: &TypeDef, ns: &str)
    ensures
        final(out)@ == old(out)@ + defined_declarations_text(d@, ns@),
{
    match &d.def {
        TypeDefInner::StringEnum { .. } => {
            assert(out@ =~= out@ + Seq::<char>::empty());
        },
        TypeDefInner::Struct { fields } => emit_struct_declarations(out, d, fields, ns),
        TypeDefInner::TaggedEnum { def } => {
            let t = d.as_ctype();
            emit_tagged_enum_declarations(out, &t, def, ns);
        },
    }
}

pub open spec fn field_accessor_def(ns: Seq<char>, nsp: Seq<char>, f: FieldModel) -> Seq<char> {
    "inline "@ + cpp_view_type(f.1, ns) + " "@ + nsp + "::"@ + f.0 + "() const { return ("@ + cpp_view_type(f.1, ns) + "){_c->"@ + f.0 + "}; }\n"@
}

pub open spec fn field_accessor_pair(ns: Seq<char>, name: Seq<char>, view: Seq<char>, f: FieldModel) -> Seq<char> {
    field_accessor_def(ns, name, f) + field_accessor_def(ns, view, f)
}

pub open spec fn field_accessor_pair_fn(ns: Seq<char>, name: Seq<char>, view: Seq<char>) -> spec_fn(FieldModel) -> Seq<char> {
    |f: FieldModel| field_accessor_pair(ns, name, view, f)
}

/// The out-of-line accessors and `view()` of a struct definition's C++ structs.
pub open spec fn defined_definitions_text(d: TypeDefModel, ns: Seq<char>) -> Seq<char> {
    match d.def {
        DefModel::Struct { fields } => concat_map(fields, field_accessor_pair_fn(ns, cpp_type(def_ctype(d), ns), cpp_view_type(def_ctype(d), ns)))
            + view_fn_declaration_text(def_ctype(d), ns) + "\n"@,
        _ => Seq::empty(),
    }
}

#[verifier::loop_isolation(false)]
fn emit_defined_definitions(out: &mut String, d: &TypeDef, ns: &str)
    ensures
        final(out)@ == old(out)@ + defined_definitions_text(d@, ns@),
{
    match &d.def {
        TypeDefInner::Struct { fields } => {
            let t = d.as_ctype();
            let name = t.cpp_type(ns);
            let view = t.cpp_view_type(ns);
            let mut body = String::new();
            let mut i: usize = 0;
            while i < fields.len()
                invariant
                    i <= fields.len(),
                    body@ == concat_map(fields_view(fields@).take(i as int), field_accessor_pair_fn(ns@, name@, view@)),
                decreases fields.len() - i,
            {
                let fname = &fields[i].0;
                let fty = &fields[i].1;
                let fcv = fty.cpp_view_type(ns);
                let nsp = name.as_str();
                let mut a = String::from_str("inline ");
                a.append(fcv.as_str());
                a.append(" ");
                a.append(nsp);
                a.append("::");
                a.append(fname.as_str());
                a.append("() const { return (");
                a.append(fcv.as_str());
                a.append("){_c->");
                a.append(fname.as_str());
                a.append("}; }\n");
                let nsp = view.as_str();
                let mut b = String::from_str("inline ");
                b.append(fcv.as_str());
                b.append(" ");
                b.append(nsp);
                b.append("::");
                b.append(fname.as_str());
                b.append("() const { return (");
                b.append(fcv.as_str());
                b.append("){_c->");
                b.append(fname.as_str());
                b.append("}; }\n");
                let mut line = a;
                line.append(b.as_str());
                proof {
                    lemma_concat_map_step(fields_view(fields@), i as int, field_accessor_pair_fn(ns@, name@, view@));
                }
                body.append(line.as_str());
                i = i + 1;
            }
            proof {
                lemma_take_all(fields_view(fields@));
            }
            let ghost o = out@;
            out.append(body.as_str());
            emit_view_fn_declaration(out, &t, ns);
            out.append("\n");
            assert(out@ =~= o + defined_definitions_text(d@, ns@));
        },
        _ => {
            assert(out@ =~= out@ + Seq::<char>::empty());
        },
    }
}

pub open spec fn tuple_member_decl(ns: Seq<char>, i: int, e: CType) -> Seq<char> {
    "    "@ + cpp_view_type(e, ns) + " field_"@ + decimal(i as nat) + "() const;"@
}

pub open spec fn tuple_member_decl_fn(ns: Seq<char>) -> spec_fn(int, CType) -> Seq<char> {
    |i: int, e: CType| tuple_member_decl(ns, i, e)
}

pub open spec fn tuple_cpp_param(ns: Seq<char>, i: int, e: CType) -> Seq<char> {
    cpp_type(e, ns) + " field_"@ + decimal(i as nat)
}

pub open spec fn tuple_cpp_param_fn(ns: Seq<char>) -> spec_fn(int, CType) -> Seq<char> {
    |i: int, e: CType| tuple_cpp_param(ns, i, e)
}

pub open spec fn optional_ctor_decl(t: CType, inner: CType, ns: Seq<char>) -> Seq<char> {
    if inner is String {
        Seq::empty()
    } else {
        "    "@ + cpp_type(t, ns) + "("@ + cpp_type(inner, ns) + ");"@
    }
}

/// The C++ structs of a container type; an optional scalar is a plain struct.
pub open spec fn type_cpp_decl_body(t: CType, ns: Seq<char>) -> Seq<char> {
    match t {
        CType::Array(inner) => cpp_structs_text(t, "    size_t size() const;\n    "@ + cpp_view_type(*inner, ns) + " operator[](size_t i) const;"@, "    template<class... Args, enable_if_not_same<"@ + cpp_type(t, ns) + ", Args...> = 0> "@ + cpp_type(t, ns) + "(Args&&...);"@, ns),
        CType::Record(inner) => cpp_structs_text(t, "    size_t size() const;\n    "@ + cpp_view_type(*inner, ns) + " find(const char* k) const;"@, "    template<class... Args, enable_if_not_same<"@ + cpp_type(t, ns) + ", Args...> = 0> "@ + cpp_type(t, ns) + "(Args&&...);\n    using kv = std::pair<const char*, "@ + cpp_type(*inner, ns) + ">;"@, ns),
        CType::Tuple(es) => cpp_structs_text(t, join_mapi(es, tuple_member_decl_fn(ns), "\n"@), "    "@ + cpp_type(t, ns) + "("@ + join_mapi(es, tuple_cpp_param_fn(ns), ", "@) + ");"@, ns),
        CType::Optional(inner) => if needs_heap_free(t) {
            cpp_structs_text(t, "    "@ + cpp_view_type(*inner, ns) + " inner();"@, optional_ctor_decl(t, *inner, ns), ns)
        } else {
            "struct "@ + cpp_type(t, ns) + " {\n    "@ + cpp_type(t, ns) + "("@ + cpp_type(*inner, ns) + " val) : _c{true, val} {}\n    "@ + cpp_type(t, ns) + "() : _c{} {}\n    "@ + cpp_type(t, ns) + "("@ + c_type(t, ns) + " inner) : _c{inner} {}\n    "@ + cpp_type(*inner, ns) + " inner() { return _c.has_value ? _c.value : "@ + zero_val(*inner, ns) + "; };\n    operator bool() { return _c.has_value; }\n    "@ + c_type(t, ns) + " _c;\n};\n\n"@
        },
        _ => Seq::empty(),
    }
}

/// What the C++ header declares for a type; nothing for named and scalar types.
pub open spec fn type_cpp_decl(ns: Seq<char>, t: CType) -> Seq<char> {
    if has_type_def(t) || is_scalar(t) {
        Seq::empty()
    } else {
        type_cpp_decl_body(t, ns)
    }
}

pub open spec fn type_cpp_decl_fn(ns: Seq<char>) -> spec_fn(CType) -> Seq<char> {
    |t: CType| type_cpp_decl(ns, t)
}

pub open spec fn type_expr_declarations_text(types: Seq<CType>, ns: Seq<char>) -> Seq<char> {
    concat_map(visit_order(types), type_cpp_decl_fn(ns))
}

#[verifier::loop_isolation(false)]
fn tuple_cpp_decl(t: &TypeExpr, elems: &Vec<TypeExpr>, ns: &str) -> (r: String)
    requires
        t@ == CType::Tuple(views_of(elems@)),
    ensures
        r@ == type_cpp_decl_body(t@, ns@),
{
    let name = t.cpp_type(ns);
    proof {
        lemma_views_of_len(elems@);
    }
    let mut imp = String::new();
    let mut i: usize = 0;
    while i < elems.len()
        invariant
            i <= elems.len(),
            imp@ == join_mapi(views_of(elems@).take(i as int), tuple_member_decl_fn(ns@), "\n"@),
        decreases elems.len() - i,
    {
        let e = &elems[i];
        let ecv = e.cpp_view_type(ns);
        let di = decimal_string(i);
        let mut line = String::from_str("    ");
        line.append(ecv.as_str());
        line.append(" field_");
        line.append(di.as_str());
        line.append("() const;");
        proof {
            lemma_join_mapi_step(views_of(elems@), i as int, tuple_member_decl_fn(ns@), "\n"@);
        }
        if i > 0 {
            imp.append("\n");
        }
        imp.append(line.as_str());
        i = i + 1;
    }
    proof {
        lemma_take_all(views_of(elems@));
    }
    let mut params = String::new();
    let mut i: usize = 0;
    while i < elems.len()
        invariant
            i <= elems.len(),
            params@ == join_mapi(views_of(elems@).take(i as int), tuple_cpp_param_fn(ns@), ", "@),
        decreases elems.len() - i,
    {
        let e = &elems[i];
        let ecpp = e.cpp_type(ns);
        let di = decimal_string(i);
        let mut line = String::from_str(ecpp.as_str());
        line.append(" field_");
        line.append(di.as_str());
        proof {
            lemma_join_mapi_step(views_of(elems@), i as int, tuple_cpp_param_fn(ns@), ", "@);
        }
        if i > 0 {
            params.append(", ");
        }
        params.append(line.as_str());
        i = i + 1;
    }
    proof {
        lemma_take_all(views_of(elems@));
    }
    let mut own = String::from_str("    ");
    own.append(name.as_str());
    own.append("(");
    own.append(params.as_str());
    own.append(");");
    cpp_structs(t, imp.as_str(), own.as_str(), ns)
}

#[verifier::rlimit(40)]
fn type_cpp_decl_string(t: &TypeExpr, ns: &str) -> (r: String)
    ensures
        r@ == type_cpp_decl_body(t@, ns@),
{
    let name = t.cpp_type(ns);
    let ct = t.c_type(ns);
    match t {
        TypeExpr::Array(inner) => {
            let icv = inner.cpp_view_type(ns);
            let mut imp = String::from_str("    size_t size() const;\n    ");
            imp.append(icv.as_str());
            imp.append(" operator[](size_t i) const;");
            let mut own = String::from_str("    template<class... Args, enable_if_not_same<");
            own.append(name.as_str());
            own.append(", Args...> = 0> ");
            own.append(name.as_str());
            own.append("(Args&&...);");
            cpp_structs(t, imp.as_str(), own.as_str(), ns)
        },
        TypeExpr::Record(inner) => {
            let icv = inner.cpp_view_type(ns);
            let icpp = inner.cpp_type(ns);
            let mut imp = String::from_str("    size_t size() const;\n    ");
            imp.append(icv.as_str());
            imp.append(" find(const char* k) const;");
            let mut own = String::from_str("    template<class... Args, enable_if_not_same<");
            own.append(name.as_str());
            own.append(", Args...> = 0> ");
            own.append(name.as_str());
            own.append("(Args&&...);\n    using kv = std::pair<const char*, ");
            own.append(icpp.as_str());
            own.append(">;");
            cpp_structs(t, imp.as_str(), own.as_str(), ns)
        },
        TypeExpr::Tuple(elems) => tuple_cpp_decl(t, elems, ns),
        TypeExpr::Optional(inner) => {
            let icv = inner.cpp_view_type(ns);
            let icpp = inner.cpp_type(ns);
            if t.needs_heap_free() {
                let ctors = match **inner {
                    TypeExpr::String => String::new(),
                    _ => {
                        let mut c = String::from_str("    ");
                        c.append(name.as_str());
                        c.append("(");
                        c.append(icpp.as_str());
                        c.append(");");
                        c
                    },
                };
                let mut imp = String::from_str("    ");
                imp.append(icv.as_str());
                imp.append(" inner();");
                cpp_structs(t, imp.as_str(), ctors.as_str(), ns)
            } else {
                let zv = inner.zero_val(ns);
                let mut s = String::from_str("struct ");
                s.append(name.as_str());
                s.append(" {\n    ");
                s.append(name.as_str());
                s.append("(");
                s.append(icpp.as_str());
                s.append(" val) : _c{true, val} {}\n    ");
                s.append(name.as_str());
                s.append("() : _c{} {}\n    ");
                s.append(name.as_str());
                s.append("(");
                s.append(ct.as_str());
                s.append(" inner) : _c{inner} {}\n    ");
                s.append(icpp.as_str());
                s.append(" inner() { return _c.has_value ? _c.value : ");
                s.append(zv.as_str());
                s.append("; };\n    operator bool() { return _c.has_value; }\n    ");
                s.append(ct.as_str());
                s.append(" _c;\n};\n\n");
                s
            }
        },
        _ => String::new(),
    }
}

#[verifier::loop_isolation(false)]
fn emit_type_expr_declarations(out: &mut String, types: &[TypeExpr], ns: &str)
    ensures
        final(out)@ == old(out)@ + type_expr_declarations_text(views_of(types@), ns@),
{
    let order = apply_recursive(types);
    proof {
        lemma_views_of_len(order@);
    }
    let mut body = String::new();
    let mut i: usize = 0;
    while i < order.len()
        invariant
            i <= order.len(),
            body@ == concat_map(views_of(order@).take(i as int), type_cpp_decl_fn(ns@)),
        decreases order.len() - i,
    {
        let t = &order[i];
        let line = if t.has_type_def() || t.is_scalar() {
            String::new()
        } else {
            type_cpp_decl_string(t, ns)
        };
        proof {
            lemma_concat_map_step(views_of(order@), i as int, type_cpp_decl_fn(ns@));
        }
        body.append(line.as_str());
        i = i + 1;
    }
    proof {
        lemma_take_all(views_of(order@));
    }
    out.append(body.as_str());
}

pub open spec fn record_find_def(nsp: Seq<char>, vv: Seq<char>) -> Seq<char> {
    "inline size_t "@ + nsp + "::size() const { return _c ? _c->len : 0; }\ninline "@ + vv + " "@ + nsp + "::find(const char* k) const {\n    for (size_t i = 0; i < _c->len; i++) if (strcmp(_c->keys[i], k) == 0) return ("@ + vv + "){_c->values[i]};\n    return {};\n}\n"@
}

pub open spec fn tuple_accessor_defs(ns: Seq<char>, view: Seq<char>, name: Seq<char>, i: int, e: CType) -> Seq<char> {
    "inline "@ + cpp_view_type(e, ns) + " "@ + view + "::field_"@ + decimal(i as nat) + "() const { return ("@ + cpp_view_type(e, ns) + "){_c->field_"@ + decimal(i as nat) + "}; }\ninline "@ + cpp_view_type(e, ns) + " "@ + name + "::field_"@ + decimal(i as nat) + "() const { return ("@ + cpp_view_type(e, ns) + "){_c->field_"@ + decimal(i as nat) + "}; }\n"@
}

pub open spec fn tuple_accessor_defs_fn(ns: Seq<char>, view: Seq<char>, name: Seq<char>) -> spec_fn(int, CType) -> Seq<char> {
    |i: int, e: CType| tuple_accessor_defs(ns, view, name, i, e)
}

/// The elements of a tuple as fields `field_0`, `field_1`, ...
pub open spec fn tuple_named(es: Seq<CType>) -> Seq<FieldModel> {
    Seq::new(es.len(), |i: int| ("field_"@ + decimal(i as nat), es[i]))
}

pub open spec fn optional_ctor_def(t: CType, inner: CType, ns: Seq<char>) -> Seq<char> {
    if inner is String {
        Seq::empty()
    } else {
        cpp_type(t, ns) + "::"@ + cpp_type(t, ns) + "("@ + cpp_type(inner, ns) + " inner) : _c{inner._c.release()} {}\n"@
    }
}

/// The out-of-line members of a container type's C++ structs.
pub open spec fn type_cpp_def_body(t: CType, ns: Seq<char>) -> Seq<char> {
    match t {
        CType::Array(inner) => "inline size_t "@ + cpp_view_type(t, ns) + "::size() const { return _c->len; }\ninline "@ + cpp_view_type(*inner, ns) + " "@ + cpp_view_type(t, ns) + "::operator[](size_t i) const { return ("@ + cpp_view_type(*inner, ns) + "){_c->items[i]}; }\ntemplate<class... Args, enable_if_not_same<"@ + cpp_type(t, ns) + ", Args...>>\ninline "@ + cpp_type(t, ns) + "::"@ + cpp_type(t, ns) + "(Args&&... args) : _c("@ + type_id(t, ns) + "_new(sizeof...(args))) {\n   size_t i = 0;\n    int dummy[] = {0, (_c->items[i++] = "@ + release_or_copy_string(*inner, "std::forward<Args>(args)"@, ns) + ", 0)...};\n    (void)dummy;\n}\n"@ + view_fn_declaration_text(t, ns) + "inline size_t "@ + cpp_type(t, ns) + "::size() const { return _c ? _c->len : 0; }\ninline "@ + cpp_view_type(*inner, ns) + " "@ + cpp_type(t, ns) + "::operator[](size_t i) const { return ("@ + cpp_view_type(*inner, ns) + "){_c->items[i]}; }\n\n"@,
        CType::Record(inner) => "template<class... Args, enable_if_not_same<"@ + cpp_type(t, ns) + ", Args...>>\n"@ + cpp_type(t, ns) + "::"@ + cpp_type(t, ns) + "(Args&&... args) : _c("@ + type_id(t, ns) + "_new(sizeof...(args))) {\n    size_t i = 0;\n    int dummy[] = {0, (_c->keys[i] = "@ + ns + "string_new(args.first), _c->values[i++] = "@ + release_or_copy_string(*inner, "std::forward<Args>(args).second"@, ns) + ", 0)...};\n    (void)dummy;\n}\n"@ + record_find_def(cpp_view_type(t, ns), cpp_view_type(*inner, ns)) + record_find_def(cpp_type(t, ns), cpp_view_type(*inner, ns)),
        CType::Tuple(es) => concat_mapi(es, tuple_accessor_defs_fn(ns, cpp_view_type(t, ns), cpp_type(t, ns))) + "inline "@ + cpp_type(t, ns) + "::"@ + cpp_type(t, ns) + "("@ + cpp_argument_list(tuple_named(es), ns) + ") : _c("@ + type_id(t, ns) + "_new("@ + argument_list_release_text(tuple_named(es), ns) + ")) {}\n"@ + view_fn_declaration_text(t, ns) + "\n"@,
        CType::Optional(inner) => if needs_heap_free(*inner) {
            "inline "@ + cpp_view_type(*inner, ns) + " "@ + cpp_type(t, ns) + "::inner() { return ("@ + cpp_view_type(*inner, ns) + "){_c.get()}; }\n"@ + optional_ctor_def(t, *inner, ns) + "\n"@
        } else {
            Seq::empty()
        },
        _ => Seq::empty(),
    }
}

pub open spec fn type_cpp_def(ns: Seq<char>, t: CType) -> Seq<char> {
    if has_type_def(t) || is_scalar(t) {
        Seq::empty()
    } else {
        type_cpp_def_body(t, ns)
    }
}

pub open spec fn type_cpp_def_fn(ns: Seq<char>) -> spec_fn(CType) -> Seq<char> {
    |t: CType| type_cpp_def(ns, t)
}

pub open spec fn type_expr_definitions_text(types: Seq<CType>, ns: Seq<char>) -> Seq<char> {
    concat_map(visit_order(types), type_cpp_def_fn(ns))
}

/// The tuple's elements named `field_0`, `field_1`, ...
#[verifier::loop_isolation(false)]
fn vec_with_tuple_names(elems: &Vec<TypeExpr>) -> (r: Vec<(String, TypeExpr)>)
    ensures
        fields_view(r@) == tuple_named(views_of(elems@)),
{
    proof {
        lemma_views_of_len(elems@);
    }
    let mut r: Vec<(String, TypeExpr)> = Vec::new();
    let mut i: usize = 0;
    while i < elems.len()
        invariant
            i <= elems.len(),
            fields_view(r@) == tuple_named(views_of(elems@)).take(i as int),
        decreases elems.len() - i,
    {
        let mut n = String::from_str("field_");
        n.append(decimal_string(i).as_str());
        let e = elems[i].copied();
        let ghost before = r@;
        r.push((n, e));
        proof {
            assert(fields_view(r@) =~= fields_view(before).push((n@, e@)));
            assert(tuple_named(views_of(elems@)).take(i as int + 1) =~= tuple_named(views_of(elems@)).take(i as int).push((n@, e@)));
        }
        i = i + 1;
    }
    proof {
        lemma_take_all(tuple_named(views_of(elems@)));
    }
    r
}

#[verifier::loop_isolation(false)]
fn tuple_cpp_def(t: &TypeExpr, elems: &Vec<TypeExpr>, ns: &str) -> (r: String)
    requires
        t@ == CType::Tuple(views_of(elems@)),
    ensures
        r@ == type_cpp_def_body(t@, ns@),
{
    proof {
        lemma_views_of_len(elems@);
    }
    let name = t.cpp_type(ns);
    let view = t.cpp_view_type(ns);
    let id = t.id(ns);
    let mut acc = String::new();
    let mut i: usize = 0;
    while i < elems.len()
        invariant
            i <= elems.len(),
            acc@ == concat_mapi(views_of(elems@).take(i as int), tuple_accessor_defs_fn(ns@, view@, name@)),
        decreases elems.len() - i,
    {
        let e = &elems[i];
        let et = e.cpp_view_type(ns);
        let di = decimal_string(i);
        let view = view.as_str();
        let name = name.as_str();
        let mut line = String::from_str("inline ");
        line.append(et.as_str());
        line.append(" ");
        line.append(view);
        line.append("::field_");
        line.append(di.as_str());
        line.append("() const { return (");
        line.append(et.as_str());
        line.append("){_c->field_");
        line.append(di.as_str());
        line.append("}; }\ninline ");
        line.append(et.as_str());
        line.append(" ");
        line.append(name);
        line.append("::field_");
        line.append(di.as_str());
        line.append("() const { return (");
        line.append(et.as_str());
        line.append("){_c->field_");
        line.append(di.as_str());
        line.append("}; }\n");
        proof {
            lemma_concat_mapi_step(views_of(elems@), i as int, tuple_accessor_defs_fn(ns@, view@, name@));
        }
        acc.append(line.as_str());
        i = i + 1;
    }
    proof {
        lemma_take_all(views_of(elems@));
    }
    let named = vec_with_tuple_names(elems);
    let args = argument_list(&named, ns);
    let rels = argument_list_release(&named, ns);
    let mut vfd = String::new();
    emit_view_fn_declaration(&mut vfd, t, ns);
    assert(vfd@ =~= view_fn_declaration_text(t@, ns@));
    let mut s = String::from_str(acc.as_str());
    s.append("inline ");
    s.append(name.as_str());
    s.append("::");
    s.append(name.as_str());
    s.append("(");
    s.append(args.as_str());
    s.append(") : _c(");
    s.append(id.as_str());
    s.append("_new(");
    s.append(rels.as_str());
    s.append(")) {}\n");
    s.append(vfd.as_str());
    s.append("\n");
    s
}

fn array_cpp_def(t: &TypeExpr, inner: &TypeExpr, ns: &str) -> (r: String)
    requires
        t@ == CType::Array(Box::new(inner@)),
    ensures
        r@ == type_cpp_def_body(t@, ns@),
{
    let name = t.cpp_type(ns);
    let view_name = t.cpp_view_type(ns);
    let id = t.id(ns);
    let iv = inner.cpp_view_type(ns);
    let rel = inner.release_or_copy_string("std::forward<Args>(args)", ns);
    let mut vfd = String::new();
    emit_view_fn_declaration(&mut vfd, t, ns);
    assert(vfd@ =~= view_fn_declaration_text(t@, ns@));
    let mut s = String::from_str("inline size_t ");
    s.append(view_name.as_str());
    s.append("::size() const { return _c->len; }\ninline ");
    s.append(iv.as_str());
    s.append(" ");
    s.append(view_name.as_str());
    s.append("::operator[](size_t i) const { return (");
    s.append(iv.as_str());
    s.append("){_c->items[i]}; }\ntemplate<class... Args, enable_if_not_same<");
    s.append(name.as_str());
    s.append(", Args...>>\ninline ");
    s.append(name.as_str());
    s.append("::");
    s.append(name.as_str());
    s.append("(Args&&... args) : _c(");
    s.append(id.as_str());
    s.append("_new(sizeof...(args))) {\n   size_t i = 0;\n    int dummy[] = {0, (_c->items[i++] = ");
    s.append(rel.as_str());
    s.append(", 0)...};\n    (void)dummy;\n}\n");
    s.append(vfd.as_str());
    s.append("inline size_t ");
    s.append(name.as_str());
    s.append("::size() const { return _c ? _c->len : 0; }\ninline ");
    s.append(iv.as_str());
    s.append(" ");
    s.append(name.as_str());
    s.append("::operator[](size_t i) const { return (");
    s.append(iv.as_str());
    s.append("){_c->items[i]}; }\n\n");
    s
}

fn record_cpp_def(t: &TypeExpr, inner: &TypeExpr, ns: &str) -> (r: String)
    requires
        t@ == CType::Record(Box::new(inner@)),
    ensures
        r@ == type_cpp_def_body(t@, ns@),
{
    let name = t.cpp_type(ns);
    let view_name = t.cpp_view_type(ns);
    let id = t.id(ns);
    let vv = inner.cpp_view_type(ns);
    let rel = inner.release_or_copy_string("std::forward<Args>(args).second", ns);
    let vv = vv.as_str();
    let nsp = view_name.as_str();
    let mut f1 = String::from_str("inline size_t ");
    f1.append(nsp);
    f1.append("::size() const { return _c ? _c->len : 0; }\ninline ");
    f1.append(vv);
    f1.append(" ");
    f1.append(nsp);
    f1.append("::find(const char* k) const {\n    for (size_t i = 0; i < _c->len; i++) if (strcmp(_c->keys[i], k) == 0) return (");
    f1.append(vv);
    f1.append("){_c->values[i]};\n    return {};\n}\n");
    let nsp = name.as_str();
    let mut f2 = String::from_str("inline size_t ");
    f2.append(nsp);
    f2.append("::size() const { return _c ? _c->len : 0; }\ninline ");
    f2.append(vv);
    f2.append(" ");
    f2.append(nsp);
    f2.append("::find(const char* k) const {\n    for (size_t i = 0; i < _c->len; i++) if (strcmp(_c->keys[i], k) == 0) return (");
    f2.append(vv);
    f2.append("){_c->values[i]};\n    return {};\n}\n");
    let mut s = String::from_str("template<class... Args, enable_if_not_same<");
    s.append(name.as_str());
    s.append(", Args...>>\n");
    s.append(name.as_str());
    s.append("::");
    s.append(name.as_str());
    s.append("(Args&&... args) : _c(");
    s.append(id.as_str());
    s.append("_new(sizeof...(args))) {\n    size_t i = 0;\n    int dummy[] = {0, (_c->keys[i] = ");
    s.append(ns);
    s.append("string_new(args.first), _c->values[i++] = ");
    s.append(rel.as_str());
    s.append(", 0)...};\n    (void)dummy;\n}\n");
    s.append(f1.as_str());
    s.append(f2.as_str());
    s
}

fn type_cpp_def_string(t: &TypeExpr, ns: &str) -> (r: String)
    ensures
        r@ == type_cpp_def_body(t@, ns@),
{
    match t {
        TypeExpr::Array(inner) => array_cpp_def(t, inner, ns),
        TypeExpr::Record(inner) => record_cpp_def(t, inner, ns),
        TypeExpr::Tuple(elems) => tuple_cpp_def(t, elems, ns),
        TypeExpr::Optional(inner) => {
            if inner.needs_heap_free() {
                let name = t.cpp_type(ns);
                let icv = inner.cpp_view_type(ns);
                let icpp = inner.cpp_type(ns);
                let oc = match **inner {
                    TypeExpr::String => String::new(),
                    _ => {
                        let mut c = String::from_str(name.as_str());
                        c.append("::");
                        c.append(name.as_str());
                        c.append("(");
                        c.append(icpp.as_str());
                        c.append(" inner) : _c{inner._c.release()} {}\n");
                        c
                    },
                };
                let mut s = String::from_str("inline ");
                s.append(icv.as_str());
                s.append(" ");
                s.append(name.as_str());
                s.append("::inner() { return (");
                s.append(icv.as_str());
                s.append("){_c.get()}; }\n");
                s.append(oc.as_str());
                s.append("\n");
                s
            } else {
                String::new()
            }
        },
        _ => String::new(),
    }
}

#[verifier::loop_isolation(false)]
fn emit_type_expr_definitions(out: &mut String, types: &[TypeExpr], ns: &str)
    ensures
        final(out)@ == old(out)@ + type_expr_definitions_text(views_of(types@), ns@),
{
    let order = apply_recursive(types);
    proof {
        lemma_views_of_len(order@);
    }
    let mut body = String::new();
    let mut i: usize = 0;
    while i < order.len()
        invariant
            i <= order.len(),
            body@ == concat_map(views_of(order@).take(i as int), type_cpp_def_fn(ns@)),
        decreases order.len() - i,
    {
        let t = &order[i];
        let line = if t.has_type_def() || t.is_scalar() {
            String::new()
        } else {
            type_cpp_def_string(t, ns)
        };
        proof {
            lemma_concat_map_step(views_of(order@), i as int, type_cpp_def_fn(ns@));
        }
        body.append(line.as_str());
        i = i + 1;
    }
    proof {
        lemma_take_all(views_of(order@));
    }
    out.append(body.as_str());
}

/// The fixed start of the C++ header, which includes the C header `c_header`.
pub open spec fn hpp_preamble_text(c_header: Seq<char>) -> Seq<char> {
    "#pragma once\n\n#include <unordered_map>\n#include <future>\n#include <mutex>\n#include <thread>\n#include <atomic>\n#include <functional>\n#include <cstring>\n\nextern \"C\" {\n#include \""@ + c_header + "\"\n}\n\nnamespace dc {\n\ntemplate<typename T, typename... Args>\nstruct is_single_same : std::false_type {};\n\ntemplate<typename T, typename Arg>\nstruct is_single_same<T, Arg> : std::is_same<typename std::decay<Arg>::type, T> {};\n\n// We need this to show better error messages when the deleted copy constructor is requested\ntemplate<typename Self, typename... Args>\nusing enable_if_not_same = typename std::enable_if<\n!is_single_same<Self, Args...>::value, int>::type;\n\n"@
}

fn emit_header_preamble(out: &mut String, c_header: &str)
    ensures
        final(out)@ == old(out)@ + hpp_preamble_text(c_header@),
{
    let mut s = String::from_str("#pragma once\n\n#include <unordered_map>\n#include <future>\n#include <mutex>\n#include <thread>\n#include <atomic>\n#include <functional>\n#include <cstring>\n\nextern \"C\" {\n#include \"");
    s.append(c_header);
    s.append("\"\n}\n\nnamespace dc {\n\ntemplate<typename T, typename... Args>\nstruct is_single_same : std::false_type {};\n\ntemplate<typename T, typename Arg>\nstruct is_single_same<T, Arg> : std::is_same<typename std::decay<Arg>::type, T> {};\n\n// We need this to show better error messages when the deleted copy constructor is requested\ntemplate<typename Self, typename... Args>\nusing enable_if_not_same = typename std::enable_if<\n!is_single_same<Self, Args...>::value, int>::type;\n\n");
    out.append(s.as_str());
}

/// The `Result` template and the private part of the `Rpc` client class.
pub open spec fn rpc_class_head_text(ns: Seq<char>) -> Seq<char> {
    "template<typename T>\nstruct Result {\n    T result;\n    std::string error_message;\n    int32_t error_code;\n};\n\ntemplate<>\nstruct Result<void> {\n    std::string error_message;\n    int32_t error_code;\n};\n\ntemplate<typename Transport>\nclass Rpc {\n    using Handler = std::function<void("@ + ns + "result_t*)>;\n\n    Transport transport_;\n    std::mutex mu_;\n    std::atomic<uint32_t> next_id_{1};\n    std::atomic<bool> done_{false};\n    std::unordered_map<uint32_t, Handler> pending_;\n    std::thread reader_;\n\n    std::function<void(std::string)> line_logger_;\n\n    uint32_t next_id() { return next_id_++; }\n\n    void reader_loop() {\n        while (true) {\n            const char* line = transport_.read();\n            if (!line || done_) break;\n            "@ + ns + "result_t* r = "@ + ns + "parse_response(line);\n            Handler h;\n            {\n                std::lock_guard<std::mutex> lk(mu_);\n                auto it = pending_.find(r->id);\n                if (it != pending_.end()) { h = std::move(it->second); pending_.erase(it); }\n            }\n            if (h) h(r);\n            "@ + ns + "result_unref(r);\n        }\n    }\n\n    void notify("@ + ns + "request_t* raw) {\n        transport_.send(raw->json);\n        "@ + ns + "request_unref(raw);\n    }\n\n    void dispatch(uint32_t id, "@ + ns + "request_t* raw, Handler h) {\n        { std::lock_guard<std::mutex> lk(mu_); pending_[id] = std::move(h); }\n        transport_.send(raw->json);\n        "@ + ns + "request_unref(raw);\n    }\n\npublic:\n    Rpc(Transport t, std::function<void(std::string)> line_logger) : transport_(std::move(t)), line_logger_(line_logger) { reader_ = std::thread([this]{ reader_loop(); }); }\n    ~Rpc() {\n        done_ = true;\n        transport_.close();\n        if (reader_.joinable()) reader_.join();\n        std::lock_guard<std::mutex> lk(mu_);\n        for (auto& kv : pending_) kv.second(nullptr);\n        pending_.clear();\n    }\n    Rpc(const Rpc&) = delete;\n    Rpc& operator=(const Rpc&) = delete;\n\n"@
}

/// The method's output type, `void` when it has none.
pub open spec fn rpc_output(m: MethodModel) -> CType {
    match m.output {
        Some(t) => t,
        None => CType::Void,
    }
}

/// The C++ result type of a method: `std::string` for a string.
pub open spec fn rpc_ret_type(m: MethodModel, ns: Seq<char>) -> Seq<char> {
    if rpc_output(m) is String {
        "std::string"@
    } else {
        cpp_type(rpc_output(m), ns)
    }
}

pub open spec fn rpc_return_stmt(m: MethodModel) -> Seq<char> {
    if rpc_output(m) is Void {
        "        return;\n"@
    } else {
        "        return std::move(r.result);\n"@
    }
}

pub open spec fn string_result_unref(t: CType, ns: Seq<char>) -> Seq<char> {
    if t is String {
        "            "@ + ns + "string_unref(res);\n"@
    } else {
        Seq::empty()
    }
}

/// The response callback: an error is passed on, a result parsed (a parse failure
/// reported as error -32700).
pub open spec fn rpc_result_handler(t: CType, ns: Seq<char>) -> Seq<char> {
    if t is Void {
        "            if (raw_res->error_code != 0) {\n                prom->set_value({raw_res->error_message, raw_res->error_code});\n                return;\n            }\n            prom->set_value({{}, 0});\n"@
    } else {
        "            if (raw_res->error_code != 0) {\n                prom->set_value({{}, raw_res->error_message, raw_res->error_code});\n                return;\n            }\n            "@ + c_type(t, ns) + " res;\n            if ("@ + type_id(t, ns) + "_from_json(raw_res->result, &res) != 0) {\n                prom->set_value({{}, \"parse error\", -32700});\n                return;\n            }\n            prom->set_value({res, {}, 0});\n"@ + string_result_unref(t, ns)
    }
}

/// The client methods of one RPC method: a notification sends and returns; a call
/// has a blocking form and a `_request` form that returns a future.
pub open spec fn rpc_method_text(ns: Seq<char>, m: MethodModel) -> Seq<char> {
    if m.is_notification {
        "    void "@ + m.c_name + "("@ + cpp_argument_list(m.args, ns) + ") {\n        notify("@ + ns + "build_"@ + m.c_name + "("@ + argument_list_accessors_text(m.args) + "));\n    }\n\n"@
    } else {
        "    "@ + rpc_ret_type(m, ns) + " "@ + m.c_name + "("@ + cpp_argument_list(m.args, ns) + ") {\n        Result<"@ + rpc_ret_type(m, ns) + "> r = "@ + m.c_name + "_request("@ + argument_list_move_text(m.args) + ").get();\n        if (r.error_code) { line_logger_(\"Error \" + std::to_string(r.error_code) + \" in `"@ + m.c_name + "`: \" + r.error_message); }\n"@ + rpc_return_stmt(m) + "    }\n    std::future<Result<"@ + rpc_ret_type(m, ns) + ">> "@ + m.c_name + "_request("@ + cpp_argument_list(m.args, ns) + ") {\n        uint32_t _id = next_id();\n        auto* raw_prom = new std::promise<Result<"@ + rpc_ret_type(m, ns) + ">>();\n        auto fut = raw_prom->get_future();\n        dispatch(_id, "@ + ns + "build_"@ + m.c_name + "("@ + argument_list_accessors_text(seq![("_id"@, CType::U32)] + m.args) + "), [raw_prom]("@ + ns + "result_t* raw_res) {\n            std::unique_ptr<std::promise<Result<"@ + rpc_ret_type(m, ns) + ">>> prom{raw_prom};\n"@ + rpc_result_handler(rpc_output(m), ns) + "        });\n        return fut;\n    }\n\n"@
    }
}

pub open spec fn rpc_method_text_fn(ns: Seq<char>) -> spec_fn(MethodModel) -> Seq<char> {
    |m: MethodModel| rpc_method_text(ns, m)
}

/// The arguments behind a leading `_id: u32`.
#[verifier::loop_isolation(false)]
fn with_id_arg(args: &Vec<(String, TypeExpr)>) -> (r: Vec<(String, TypeExpr)>)
    ensures
        fields_view(r@) == seq![("_id"@, CType::U32)] + fields_view(args@),
{
    let mut r: Vec<(String, TypeExpr)> = Vec::new();
    r.push((String::from_str("_id"), TypeExpr::U32));
    let mut i: usize = 0;
    while i < args.len()
        invariant
            i <= args.len(),
            fields_view(r@) == seq![("_id"@, CType::U32)] + fields_view(args@).take(i as int),
        decreases args.len() - i,
    {
        let a = (args[i].0.clone(), args[i].1.copied());
        let ghost before = r@;
        r.push(a);
        proof {
            assert(fields_view(r@) =~= fields_view(before).push((a.0@, a.1@)));
            assert(seq![("_id"@, CType::U32)] + fields_view(args@).take(i as int + 1) =~= (seq![("_id"@, CType::U32)] + fields_view(args@).take(i as int)).push((a.0@, a.1@)));
        }
        i = i + 1;
    }
    proof {
        lemma_take_all(fields_view(args@));
    }
    r
}

fn result_handler_string(t: &TypeExpr, ns: &str) -> (r: String)
    ensures
        r@ == rpc_result_handler(t@, ns@),
{
    if matches!(t, TypeExpr::Void) {
        String::from_str("            if (raw_res->error_code != 0) {\n                prom->set_value({raw_res->error_message, raw_res->error_code});\n                return;\n            }\n            prom->set_value({{}, 0});\n")
    } else {
        let ct = t.c_type(ns);
        let tid = t.id(ns);
        let su = if matches!(t, TypeExpr::String) {
            let mut u = String::from_str("            ");
            u.append(ns);
            u.append("string_unref(res);\n");
            u
        } else {
            String::new()
        };
        let mut s = String::from_str("            if (raw_res->error_code != 0) {\n                prom->set_value({{}, raw_res->error_message, raw_res->error_code});\n                return;\n            }\n            ");
        s.append(ct.as_str());
        s.append(" res;\n            if (");
        s.append(tid.as_str());
        s.append("_from_json(raw_res->result, &res) != 0) {\n                prom->set_value({{}, \"parse error\", -32700});\n                return;\n            }\n            prom->set_value({res, {}, 0});\n");
        s.append(su.as_str());
        s
    }
}

fn rpc_method_string(m: &Method, ns: &str) -> (r: String)
    ensures
        r@ == rpc_method_text(ns@, m@),
{
    let args = argument_list(&m.args, ns);
    if m.is_notification {
        let acc = argument_list_accessors(&m.args);
        let mut s = String::from_str("    void ");
        s.append(m.c_name.as_str());
        s.append("(");
        s.append(args.as_str());
        s.append(") {\n        notify(");
        s.append(ns);
        s.append("build_");
        s.append(m.c_name.as_str());
        s.append("(");
        s.append(acc.as_str());
        s.append("));\n    }\n\n");
        s
    } else {
        let void_t = TypeExpr::Void;
        let t = match &m.output {
            Some(t) => t,
            None => &void_t,
        };
        let ret = if matches!(t, TypeExpr::String) {
            String::from_str("std::string")
        } else {
            t.cpp_type(ns)
        };
        let mv = argument_list_move(&m.args);
        let rs = if matches!(t, TypeExpr::Void) {
            String::from_str("        return;\n")
        } else {
            String::from_str("        return std::move(r.result);\n")
        };
        let chained = with_id_arg(&m.args);
        let cargs = argument_list_accessors(&chained);
        let h = result_handler_string(t, ns);
        let mut s = String::from_str("    ");
        s.append(ret.as_str());
        s.append(" ");
        s.append(m.c_name.as_str());
        s.append("(");
        s.append(args.as_str());
        s.append(") {\n        Result<");
        s.append(ret.as_str());
        s.append("> r = ");
        s.append(m.c_name.as_str());
        s.append("_request(");
        s.append(mv.as_str());
        s.append(").get();\n        if (r.error_code) { line_logger_(\"Error \" + std::to_string(r.error_code) + \" in `");
        s.append(m.c_name.as_str());
        s.append("`: \" + r.error_message); }\n");
        s.append(rs.as_str());
        s.append("    }\n    std::future<Result<");
        s.append(ret.as_str());
        s.append(">> ");
        s.append(m.c_name.as_str());
        s.append("_request(");
        s.append(args.as_str());
        s.append(") {\n        uint32_t _id = next_id();\n        auto* raw_prom = new std::promise<Result<");
        s.append(ret.as_str());
        s.append(">>();\n        auto fut = raw_prom->get_future();\n        dispatch(_id, ");
        s.append(ns);
        s.append("build_");
        s.append(m.c_name.as_str());
        s.append("(");
        s.append(cargs.as_str());
        s.append("), [raw_prom](");
        s.append(ns);
        s.append("result_t* raw_res) {\n            std::unique_ptr<std::promise<Result<");
        s.append(ret.as_str());
        s.append(">>> prom{raw_prom};\n");
        s.append(h.as_str());
        s.append("        });\n        return fut;\n    }\n\n");
        s
    }
}

fn emit_rpc_methods(out: &mut String, methods: &[Method], ns: &str)
    ensures
        final(out)@ == old(out)@ + concat_map(methods_view(methods@), rpc_method_text_fn(ns@)),
{
    let mut body = String::new();
    let mut i: usize = 0;
    while i < methods.len()
        invariant
            i <= methods.len(),
            body@ == concat_map(methods_view(methods@).take(i as int), rpc_method_text_fn(ns@)),
        decreases methods.len() - i,
    {
        let line = rpc_method_string(&methods[i], ns);
        proof {
            lemma_concat_map_step(methods_view(methods@), i as int, rpc_method_text_fn(ns@));
        }
        body.append(line.as_str());
        i = i + 1;
    }
    proof {
        lemma_take_all(methods_view(methods@));
    }
    out.append(body.as_str());
}

pub open spec fn defined_forward_declarations_fn(ns: Seq<char>) -> spec_fn(TypeDefModel) -> Seq<char> {
    |d: TypeDefModel| defined_forward_declarations_text(d, ns)
}

fn emit_all_defined_forward_declarations(out: &mut String, defs: &[TypeDef], ns: &str)
    ensures
        final(out)@ == old(out)@ + concat_map(defs_view(defs@), defined_forward_declarations_fn(ns@)),
{
    let ghost o = out@;
    let mut i: usize = 0;
    while i < defs.len()
        invariant
            i <= defs.len(),
            out@ == o + concat_map(defs_view(defs@).take(i as int), defined_forward_declarations_fn(ns@)),
        decreases defs.len() - i,
    {
        emit_defined_forward_declarations(out, &defs[i], ns);
        proof {
            lemma_concat_map_step(defs_view(defs@), i as int, defined_forward_declarations_fn(ns@));
            assert(out@ =~= o + concat_map(defs_view(defs@).take(i as int + 1), defined_forward_declarations_fn(ns@)));
        }
        i = i + 1;
    }
    proof {
        lemma_take_all(defs_view(defs@));
    }
}

pub open spec fn defined_declarations_fn(ns: Seq<char>) -> spec_fn(TypeDefModel) -> Seq<char> {
    |d: TypeDefModel| defined_declarations_text(d, ns)
}

fn emit_all_defined_declarations(out: &mut String, defs: &[TypeDef], ns: &str)
    ensures
        final(out)@ == old(out)@ + concat_map(defs_view(defs@), defined_declarations_fn(ns@)),
{
    let ghost o = out@;
    let mut i: usize = 0;
    while i < defs.len()
        invariant
            i <= defs.len(),
            out@ == o + concat_map(defs_view(defs@).take(i as int), defined_declarations_fn(ns@)),
        decreases defs.len() - i,
    {
        emit_defined_declarations(out, &defs[i], ns);
        proof {
            lemma_concat_map_step(defs_view(defs@), i as int, defined_declarations_fn(ns@));
            assert(out@ =~= o + concat_map(defs_view(defs@).take(i as int + 1), defined_declarations_fn(ns@)));
        }
        i = i + 1;
    }
    proof {
        lemma_take_all(defs_view(defs@));
    }
}

pub open spec fn defined_definitions_fn(ns: Seq<char>) -> spec_fn(TypeDefModel) -> Seq<char> {
    |d: TypeDefModel| defined_definitions_text(d, ns)
}

fn emit_all_defined_definitions(out: &mut String, defs: &[TypeDef], ns: &str)
    ensures
        final(out)@ == old(out)@ + concat_map(defs_view(defs@), defined_definitions_fn(ns@)),
{
    let ghost o = out@;
    let mut i: usize = 0;
    while i < defs.len()
        invariant
            i <= defs.len(),
            out@ == o + concat_map(defs_view(defs@).take(i as int), defined_definitions_fn(ns@)),
        decreases defs.len() - i,
    {
        emit_defined_definitions(out, &defs[i], ns);
        proof {
            lemma_concat_map_step(defs_view(defs@), i as int, defined_definitions_fn(ns@));
            assert(out@ =~= o + concat_map(defs_view(defs@).take(i as int + 1), defined_definitions_fn(ns@)));
        }
        i = i + 1;
    }
    proof {
        lemma_take_all(defs_view(defs@));
    }
}

/// The complete C++ header for the methods and definitions.
pub open spec fn hpp_text(ms: Seq<MethodModel>, ds: Seq<TypeDefModel>, c_header: Seq<char>, ns: Seq<char>) -> Seq<char> {
    let all = all_type_exprs(ms, ds);
    hpp_preamble_text(c_header) + concat_map(ds, defined_forward_declarations_fn(ns))
        + type_expr_declarations_text(all, ns) + concat_map(ds, defined_declarations_fn(ns))
        + concat_map(ds, defined_definitions_fn(ns)) + type_expr_definitions_text(all, ns)
        + rpc_class_head_text(ns) + concat_map(ms, rpc_method_text_fn(ns)) + "};\n\n} // namespace dc\n"@
}

/// Writes the C++ header (`rpc.hpp`), which includes the C header `c_header`.
pub fn generate_hpp(out: &mut String, methods: &[Method], defs: &[TypeDef], c_header: &str, ns: &str)
    ensures
        final(out)@ == old(out)@ + hpp_text(methods_view(methods@), defs_view(defs@), c_header@, ns@),
{
    let mut s = String::new();
    emit_header_preamble(&mut s, c_header);
    emit_all_defined_forward_declarations(&mut s, defs, ns);
    let all_type_exprs = collect_all_type_exprs(methods, defs);
    emit_type_expr_declarations(&mut s, all_type_exprs.as_slice(), ns);
    emit_all_defined_declarations(&mut s, defs, ns);
    emit_all_defined_definitions(&mut s, defs, ns);
    emit_type_expr_definitions(&mut s, all_type_exprs.as_slice(), ns);
    let head = {
        let mut h = String::from_str("template<typename T>\nstruct Result {\n    T result;\n    std::string error_message;\n    int32_t error_code;\n};\n\ntemplate<>\nstruct Result<void> {\n    std::string error_message;\n    int32_t error_code;\n};\n\ntemplate<typename Transport>\nclass Rpc {\n    using Handler = std::function<void(");
        h.append(ns);
        h.append("result_t*)>;\n\n    Transport transport_;\n    std::mutex mu_;\n    std::atomic<uint32_t> next_id_{1};\n    std::atomic<bool> done_{false};\n    std::unordered_map<uint32_t, Handler> pending_;\n    std::thread reader_;\n\n    std::function<void(std::string)> line_logger_;\n\n    uint32_t next_id() { return next_id_++; }\n\n    void reader_loop() {\n        while (true) {\n            const char* line = transport_.read();\n            if (!line || done_) break;\n            ");
        h.append(ns);
        h.append("result_t* r = ");
        h.append(ns);
        h.append("parse_response(line);\n            Handler h;\n            {\n                std::lock_guard<std::mutex> lk(mu_);\n                auto it = pending_.find(r->id);\n                if (it != pending_.end()) { h = std::move(it->second); pending_.erase(it); }\n            }\n            if (h) h(r);\n            ");
        h.append(ns);
        h.append("result_unref(r);\n        }\n    }\n\n    void notify(");
        h.append(ns);
        h.append("request_t* raw) {\n        transport_.send(raw->json);\n        ");
        h.append(ns);
        h.append("request_unref(raw);\n    }\n\n    void dispatch(uint32_t id, ");
        h.append(ns);
        h.append("request_t* raw, Handler h) {\n        { std::lock_guard<std::mutex> lk(mu_); pending_[id] = std::move(h); }\n        transport_.send(raw->json);\n        ");
        h.append(ns);
        h.append("request_unref(raw);\n    }\n\npublic:\n    Rpc(Transport t, std::function<void(std::string)> line_logger) : transport_(std::move(t)), line_logger_(line_logger) { reader_ = std::thread([this]{ reader_loop(); }); }\n    ~Rpc() {\n        done_ = true;\n        transport_.close();\n        if (reader_.joinable()) reader_.join();\n        std::lock_guard<std::mutex> lk(mu_);\n        for (auto& kv : pending_) kv.second(nullptr);\n        pending_.clear();\n    }\n    Rpc(const Rpc&) = delete;\n    Rpc& operator=(const Rpc&) = delete;\n\n");
        h
    };
    s.append(head.as_str());
    emit_rpc_methods(&mut s, methods, ns);
    s.append("};\n\n} // namespace dc\n");
    let ghost o = out@;
    out.append(s.as_str());
    assert(s@ =~= hpp_text(methods_view(methods@), defs_view(defs@), c_header@, ns@));
}

} // verus!

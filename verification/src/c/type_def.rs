//! Type definitions (structs, tagged unions, string enums) and the C text
//! that declares, constructs, frees and converts them.
use vstd::prelude::*;
use super::{c_type, lemma_views_of_push, needs_heap_free, type_id, views_of, CType, TypeExpr};
use crate::text::{
    case_converted, concat_map, concat_mapi, decimal, decimal_string, join_map, lemma_concat_map_step,
    lemma_concat_mapi_step, lemma_join_map_step, lemma_take_all, to_case, to_uppercase,
    uppercased, CaseStyle,
};

verus! {

/// A named type that the bindings define.
#[derive(Debug, Clone)]
pub struct TypeDef {
    pub name: String,
    pub def: TypeDefInner,
}

/// The shape of a [`TypeDef`].
#[derive(Debug, Clone)]
pub enum TypeDefInner {
    Struct { fields: Vec<(String, TypeExpr)> },
    TaggedEnum { def: EnumDef },
    StringEnum { variants: Vec<String> },
}

/// One variant of an internally tagged union: its tag and its data fields.
#[derive(Debug, Clone)]
pub struct EnumVariant {
    pub tag_value: String,
    pub fields: Vec<(String, TypeExpr)>,
}

/// An internally tagged union: the tag's field name and the variants.
#[derive(Debug, Clone)]
pub struct EnumDef {
    pub tag_field: String,
    pub variants: Vec<EnumVariant>,
}

/// A named field with its type, as values.
pub type FieldModel = (Seq<char>, CType);

pub struct VariantModel {
    pub tag_value: Seq<char>,
    pub fields: Seq<FieldModel>,
}

pub struct EnumModel {
    pub tag_field: Seq<char>,
    pub variants: Seq<VariantModel>,
}

pub enum DefModel {
    Struct { fields: Seq<FieldModel> },
    TaggedEnum { def: EnumModel },
    StringEnum { variants: Seq<Seq<char>> },
}

pub struct TypeDefModel {
    pub name: Seq<char>,
    pub def: DefModel,
}

pub open spec fn fields_view(v: Seq<(String, TypeExpr)>) -> Seq<FieldModel> {
    v.map_values(|f: (String, TypeExpr)| (f.0@, f.1@))
}

pub open spec fn strings_view(v: Seq<String>) -> Seq<Seq<char>> {
    v.map_values(|s: String| s@)
}

impl View for EnumVariant {
    type V = VariantModel;

    open spec fn view(&self) -> VariantModel {
        VariantModel { tag_value: self.tag_value@, fields: fields_view(self.fields@) }
    }
}

impl View for EnumDef {
    type V = EnumModel;

    open spec fn view(&self) -> EnumModel {
        EnumModel {
            tag_field: self.tag_field@,
            variants: self.variants@.map_values(|v: EnumVariant| v@),
        }
    }
}

impl View for TypeDefInner {
    type V = DefModel;

    open spec fn view(&self) -> DefModel {
        match self {
            TypeDefInner::Struct { fields } => DefModel::Struct { fields: fields_view(fields@) },
            TypeDefInner::TaggedEnum { def } => DefModel::TaggedEnum { def: def@ },
            TypeDefInner::StringEnum { variants } => DefModel::StringEnum {
                variants: strings_view(variants@),
            },
        }
    }
}

impl View for TypeDef {
    type V = TypeDefModel;

    open spec fn view(&self) -> TypeDefModel {
        TypeDefModel { name: self.name@, def: self.def@ }
    }
}

/// The C type that names the definition.
pub open spec fn def_ctype(d: TypeDefModel) -> CType {
    match d.def {
        DefModel::Struct { .. } => CType::Struct(d.name),
        DefModel::TaggedEnum { .. } => CType::TaggedEnum(d.name),
        DefModel::StringEnum { .. } => CType::StringEnum(d.name),
    }
}

/// The identifier prefix of the definition's generated functions.
pub open spec fn def_id(d: TypeDefModel, ns: Seq<char>) -> Seq<char> {
    ns + case_converted(d.name, CaseStyle::Snake)
}

/// The types of the definition's fields, variant by variant.
pub open spec fn def_field_types(d: DefModel) -> Seq<CType> {
    match d {
        DefModel::Struct { fields } => fields.map_values(|f: FieldModel| f.1),
        DefModel::TaggedEnum { def } => variants_field_types(def.variants),
        DefModel::StringEnum { .. } => Seq::empty(),
    }
}

pub open spec fn variants_field_types(vs: Seq<VariantModel>) -> Seq<CType>
    decreases vs.len(),
{
    if vs.len() == 0 {
        Seq::empty()
    } else {
        variants_field_types(vs.drop_last()) + vs.last().fields.map_values(|f: FieldModel| f.1)
    }
}
/// One enumerator, numbered from one.
pub open spec fn string_enum_def_line(idu: Seq<char>, i: int, v: Seq<char>) -> Seq<char> {
    "    "@ + idu + "_"@ + case_converted(v, CaseStyle::ScreamingSnake) + " = "@ + decimal((i + 1) as nat) + ",\n"@
}

pub open spec fn string_enum_def_line_fn(idu: Seq<char>) -> spec_fn(int, Seq<char>) -> Seq<char> {
    |i: int, v: Seq<char>| string_enum_def_line(idu, i, v)
}

/// The C `enum` of a string enum: `_UNPARSED = 0`, then the variants numbered from one.
pub open spec fn string_enum_def_text(id: Seq<char>, variants: Seq<Seq<char>>) -> Seq<char> {
    "typedef enum {\n    "@ + uppercased(id) + "_UNPARSED = 0,\n"@ + concat_mapi(variants, string_enum_def_line_fn(uppercased(id))) + "} "@ + id + "_t;\n"@
}

#[verifier::loop_isolation(false)]
pub(crate) fn string_enum_def(out: &mut String, id: &str, variants: &Vec<String>)
    ensures
        final(out)@ == old(out)@ + string_enum_def_text(id@, strings_view(variants@)),
{
    let idu = to_uppercase(id);
    let mut body = String::new();
    let mut i: usize = 0;
    while i < variants.len()
        invariant
            i <= variants.len(),
            body@ == concat_mapi(strings_view(variants@).take(i as int), string_enum_def_line_fn(uppercased(id@))),
        decreases variants.len() - i,
    {
        let v = &variants[i];
        let vss = to_case(v.as_str(), CaseStyle::ScreamingSnake);
        let num = decimal_string(i + 1);
        let mut line = String::from_str("    ");
        line.append(idu.as_str());
        line.append("_");
        line.append(vss.as_str());
        line.append(" = ");
        line.append(num.as_str());
        line.append(",\n");
        proof {
            lemma_concat_mapi_step(strings_view(variants@), i as int, string_enum_def_line_fn(uppercased(id@)));
        }
        body.append(line.as_str());
        i = i + 1;
    }
    proof {
        lemma_take_all(strings_view(variants@));
    }
    let mut s = String::from_str("typedef enum {\n    ");
    s.append(idu.as_str());
    s.append("_UNPARSED = 0,\n");
    s.append(body.as_str());
    s.append("} ");
    s.append(id);
    s.append("_t;\n");
    out.append(s.as_str());
}

pub open spec fn string_enum_from_json_line(idu: Seq<char>, v: Seq<char>) -> Seq<char> {
    "    if (dc_json_string_eq(j, \""@ + v + "\")) { *out = "@ + idu + "_"@ + case_converted(v, CaseStyle::ScreamingSnake) + "; return 0; }\n"@
}

pub open spec fn string_enum_from_json_line_fn(idu: Seq<char>) -> spec_fn(Seq<char>) -> Seq<char> {
    |v: Seq<char>| string_enum_from_json_line(idu, v)
}

/// The parser of a string enum: a listed string gives its enumerator, another string
/// `_UNPARSED` with success, a non-string `_UNPARSED` with failure.
pub open spec fn string_enum_from_json_text(id: Seq<char>, variants: Seq<Seq<char>>) -> Seq<char> {
    "static inline int "@ + id + "_from_json(dc_json_t j, "@ + id + "_t* out) {\n    if (!dc_json_is_string(j)) { *out = "@ + uppercased(id) + "_UNPARSED; return -1; }\n"@ + concat_map(variants, string_enum_from_json_line_fn(uppercased(id))) + "    *out = "@ + uppercased(id) + "_UNPARSED;\n    return 0;\n}\n"@
}

#[verifier::loop_isolation(false)]
pub(crate) fn string_enum_from_json(out: &mut String, id: &str, variants: &Vec<String>)
    ensures
        final(out)@ == old(out)@ + string_enum_from_json_text(id@, strings_view(variants@)),
{
    let idu = to_uppercase(id);
    let mut body = String::new();
    let mut i: usize = 0;
    while i < variants.len()
        invariant
            i <= variants.len(),
            body@ == concat_map(strings_view(variants@).take(i as int), string_enum_from_json_line_fn(uppercased(id@))),
        decreases variants.len() - i,
    {
        let v = &variants[i];
        let vss = to_case(v.as_str(), CaseStyle::ScreamingSnake);
        let mut line = String::from_str("    if (dc_json_string_eq(j, \"");
        line.append(v.as_str());
        line.append("\")) { *out = ");
        line.append(idu.as_str());
        line.append("_");
        line.append(vss.as_str());
        line.append("; return 0; }\n");
        proof {
            lemma_concat_map_step(strings_view(variants@), i as int, string_enum_from_json_line_fn(uppercased(id@)));
        }
        body.append(line.as_str());
        i = i + 1;
    }
    proof {
        lemma_take_all(strings_view(variants@));
    }
    let mut s = String::from_str("static inline int ");
    s.append(id);
    s.append("_from_json(dc_json_t j, ");
    s.append(id);
    s.append("_t* out) {\n    if (!dc_json_is_string(j)) { *out = ");
    s.append(idu.as_str());
    s.append("_UNPARSED; return -1; }\n");
    s.append(body.as_str());
    s.append("    *out = ");
    s.append(idu.as_str());
    s.append("_UNPARSED;\n    return 0;\n}\n");
    out.append(s.as_str());
}

pub open spec fn string_enum_to_json_line(idu: Seq<char>, v: Seq<char>) -> Seq<char> {
    "    case "@ + idu + "_"@ + case_converted(v, CaseStyle::ScreamingSnake) + ": return dc_json_new_string(\""@ + v + "\");\n"@
}

pub open spec fn string_enum_to_json_line_fn(idu: Seq<char>) -> spec_fn(Seq<char>) -> Seq<char> {
    |v: Seq<char>| string_enum_to_json_line(idu, v)
}

/// The serializer of a string enum: each enumerator gives its string, any other value `null`.
pub open spec fn string_enum_to_json_text(id: Seq<char>, variants: Seq<Seq<char>>) -> Seq<char> {
    "static inline dc_json_t "@ + id + "_to_json("@ + id + "_t v) {\n    switch (v) {\n"@ + concat_map(variants, string_enum_to_json_line_fn(uppercased(id))) + "    default: break;\n    }\n    return dc_json_new_null();\n}\n"@
}

#[verifier::loop_isolation(false)]
pub(crate) fn string_enum_to_json(out: &mut String, id: &str, variants: &Vec<String>)
    ensures
        final(out)@ == old(out)@ + string_enum_to_json_text(id@, strings_view(variants@)),
{
    let idu = to_uppercase(id);
    let mut body = String::new();
    let mut i: usize = 0;
    while i < variants.len()
        invariant
            i <= variants.len(),
            body@ == concat_map(strings_view(variants@).take(i as int), string_enum_to_json_line_fn(uppercased(id@))),
        decreases variants.len() - i,
    {
        let v = &variants[i];
        let vss = to_case(v.as_str(), CaseStyle::ScreamingSnake);
        let mut line = String::from_str("    case ");
        line.append(idu.as_str());
        line.append("_");
        line.append(vss.as_str());
        line.append(": return dc_json_new_string(\"");
        line.append(v.as_str());
        line.append("\");\n");
        proof {
            lemma_concat_map_step(strings_view(variants@), i as int, string_enum_to_json_line_fn(uppercased(id@)));
        }
        body.append(line.as_str());
        i = i + 1;
    }
    proof {
        lemma_take_all(strings_view(variants@));
    }
    let mut s = String::from_str("static inline dc_json_t ");
    s.append(id);
    s.append("_to_json(");
    s.append(id);
    s.append("_t v) {\n    switch (v) {\n");
    s.append(body.as_str());
    s.append("    default: break;\n    }\n    return dc_json_new_null();\n}\n");
    out.append(s.as_str());
}

pub open spec fn struct_def_line(ns: Seq<char>, f: FieldModel) -> Seq<char> {
    "    "@ + c_type(f.1, ns) + " "@ + f.0 + ";\n"@
}

pub open spec fn struct_def_line_fn(ns: Seq<char>) -> spec_fn(FieldModel) -> Seq<char> {
    |f: FieldModel| struct_def_line(ns, f)
}

/// The C `struct` of a struct definition.
pub open spec fn struct_def_text(id: Seq<char>, ns: Seq<char>, fields: Seq<FieldModel>) -> Seq<char> {
    "typedef struct "@ + id + " {\n"@ + concat_map(fields, struct_def_line_fn(ns)) + "} "@ + id + "_t;\n\n"@
}

#[verifier::loop_isolation(false)]
pub(crate) fn struct_def(out: &mut String, id: &str, ns: &str, fields: &Vec<(String, TypeExpr)>)
    ensures
        final(out)@ == old(out)@ + struct_def_text(id@, ns@, fields_view(fields@)),
{
    let mut body = String::new();
    let mut i: usize = 0;
    while i < fields.len()
        invariant
            i <= fields.len(),
            body@ == concat_map(fields_view(fields@).take(i as int), struct_def_line_fn(ns@)),
        decreases fields.len() - i,
    {
        let fname = &fields[i].0;
        let fty = &fields[i].1;
        let fct = fty.c_type(ns);
        let mut line = String::from_str("    ");
        line.append(fct.as_str());
        line.append(" ");
        line.append(fname.as_str());
        line.append(";\n");
        proof {
            lemma_concat_map_step(fields_view(fields@), i as int, struct_def_line_fn(ns@));
        }
        body.append(line.as_str());
        i = i + 1;
    }
    proof {
        lemma_take_all(fields_view(fields@));
    }
    let mut s = String::from_str("typedef struct ");
    s.append(id);
    s.append(" {\n");
    s.append(body.as_str());
    s.append("} ");
    s.append(id);
    s.append("_t;\n\n");
    out.append(s.as_str());
}

pub open spec fn c_param(ns: Seq<char>, f: FieldModel) -> Seq<char> {
    c_type(f.1, ns) + " "@ + f.0
}

pub open spec fn c_param_fn(ns: Seq<char>) -> spec_fn(FieldModel) -> Seq<char> {
    |f: FieldModel| c_param(ns, f)
}

/// The C parameter list `type name, type name` of the fields.
pub open spec fn c_argument_list(fields: Seq<FieldModel>, ns: Seq<char>) -> Seq<char> {
    join_map(fields, c_param_fn(ns), ", "@)
}

#[verifier::loop_isolation(false)]
pub(crate) fn argument_list(fields: &Vec<(String, TypeExpr)>, ns: &str) -> (r: String)
    ensures
        r@ == c_argument_list(fields_view(fields@), ns@),
{
    let mut r = String::new();
    let mut i: usize = 0;
    while i < fields.len()
        invariant
            i <= fields.len(),
            r@ == join_map(fields_view(fields@).take(i as int), c_param_fn(ns@), ", "@),
        decreases fields.len() - i,
    {
        let fname = &fields[i].0;
        let fty = &fields[i].1;
        let fct = fty.c_type(ns);
        let mut line = String::from_str(fct.as_str());
        line.append(" ");
        line.append(fname.as_str());
        proof {
            lemma_join_map_step(fields_view(fields@), i as int, c_param_fn(ns@), ", "@);
        }
        if i > 0 {
            r.append(", ");
        }
        r.append(line.as_str());
        i = i + 1;
    }
    proof {
        lemma_take_all(fields_view(fields@));
    }
    r
}

pub open spec fn struct_new_line(f: FieldModel) -> Seq<char> {
    "    __result->"@ + f.0 + " = "@ + f.0 + ";\n"@
}

pub open spec fn struct_new_line_fn() -> spec_fn(FieldModel) -> Seq<char> {
    |f: FieldModel| struct_new_line(f)
}

/// The constructor of a struct definition, which takes every field.
pub open spec fn struct_new_text(id: Seq<char>, ns: Seq<char>, fields: Seq<FieldModel>) -> Seq<char> {
    "static inline "@ + id + "_t* "@ + id + "_new("@ + c_argument_list(fields, ns) + ") {\n    "@ + id + "_t* __result = ("@ + id + "_t*)calloc(1, sizeof("@ + id + "_t));\n    if (!__result) return __result;\n"@ + concat_map(fields, struct_new_line_fn()) + "    return __result;\n}\n\n"@
}

#[verifier::loop_isolation(false)]
pub(crate) fn struct_new(out: &mut String, id: &str, ns: &str, fields: &Vec<(String, TypeExpr)>)
    ensures
        final(out)@ == old(out)@ + struct_new_text(id@, ns@, fields_view(fields@)),
{
    let args = argument_list(fields, ns);
    let mut body = String::new();
    let mut i: usize = 0;
    while i < fields.len()
        invariant
            i <= fields.len(),
            body@ == concat_map(fields_view(fields@).take(i as int), struct_new_line_fn()),
        decreases fields.len() - i,
    {
        let fname = &fields[i].0;
        let fty = &fields[i].1;
        let mut line = String::from_str("    __result->");
        line.append(fname.as_str());
        line.append(" = ");
        line.append(fname.as_str());
        line.append(";\n");
        proof {
            lemma_concat_map_step(fields_view(fields@), i as int, struct_new_line_fn());
        }
        body.append(line.as_str());
        i = i + 1;
    }
    proof {
        lemma_take_all(fields_view(fields@));
    }
    let mut s = String::from_str("static inline ");
    s.append(id);
    s.append("_t* ");
    s.append(id);
    s.append("_new(");
    s.append(args.as_str());
    s.append(") {\n    ");
    s.append(id);
    s.append("_t* __result = (");
    s.append(id);
    s.append("_t*)calloc(1, sizeof(");
    s.append(id);
    s.append("_t));\n    if (!__result) return __result;\n");
    s.append(body.as_str());
    s.append("    return __result;\n}\n\n");
    out.append(s.as_str());
}

/// Frees one field, where it owns heap memory.
pub open spec fn struct_unref_line(ns: Seq<char>, f: FieldModel) -> Seq<char> {
    if needs_heap_free(f.1) {
        "    "@ + type_id(f.1, ns) + "_unref(o->"@ + f.0 + ");\n"@
    } else {
        Seq::empty()
    }
}

pub open spec fn struct_unref_line_fn(ns: Seq<char>) -> spec_fn(FieldModel) -> Seq<char> {
    |f: FieldModel| struct_unref_line(ns, f)
}

/// The destructor of a struct definition: frees the owning fields, then the struct.
pub open spec fn struct_unref_text(id: Seq<char>, ns: Seq<char>, fields: Seq<FieldModel>) -> Seq<char> {
    "static inline void "@ + id + "_unref("@ + id + "_t* o) {\n    if (!o) return;\n"@ + concat_map(fields, struct_unref_line_fn(ns)) + "    free(o);\n}\n\n"@
}

#[verifier::loop_isolation(false)]
pub(crate) fn struct_unref(out: &mut String, id: &str, ns: &str, fields: &Vec<(String, TypeExpr)>)
    ensures
        final(out)@ == old(out)@ + struct_unref_text(id@, ns@, fields_view(fields@)),
{
    let mut body = String::new();
    let mut i: usize = 0;
    while i < fields.len()
        invariant
            i <= fields.len(),
            body@ == concat_map(fields_view(fields@).take(i as int), struct_unref_line_fn(ns@)),
        decreases fields.len() - i,
    {
        let fname = &fields[i].0;
        let fty = &fields[i].1;
        let line = if fty.needs_heap_free() {
            let fid = fty.id(ns);
            let mut line = String::from_str("    ");
            line.append(fid.as_str());
            line.append("_unref(o->");
            line.append(fname.as_str());
            line.append(");\n");
            line
        } else {
            String::new()
        };
        proof {
            lemma_concat_map_step(fields_view(fields@), i as int, struct_unref_line_fn(ns@));
        }
        body.append(line.as_str());
        i = i + 1;
    }
    proof {
        lemma_take_all(fields_view(fields@));
    }
    let mut s = String::from_str("static inline void ");
    s.append(id);
    s.append("_unref(");
    s.append(id);
    s.append("_t* o) {\n    if (!o) return;\n");
    s.append(body.as_str());
    s.append("    free(o);\n}\n\n");
    out.append(s.as_str());
}

pub open spec fn struct_from_json_line(id: Seq<char>, ns: Seq<char>, f: FieldModel) -> Seq<char> {
    "    if ("@ + type_id(f.1, ns) + "_from_json(dc_json_get(json, \""@ + f.0 + "\"), &(*out)->"@ + f.0 + ")) { "@ + id + "_unref(*out); return -1; };\n"@
}

pub open spec fn struct_from_json_line_fn(id: Seq<char>, ns: Seq<char>) -> spec_fn(FieldModel) -> Seq<char> {
    |f: FieldModel| struct_from_json_line(id, ns, f)
}

/// The parser of a struct definition: each field from the member of its name; on a
/// failure the partial struct is freed.
pub open spec fn struct_from_json_text(id: Seq<char>, ns: Seq<char>, fields: Seq<FieldModel>) -> Seq<char> {
    "static inline int "@ + id + "_from_json(dc_json_t json, "@ + id + "_t** out) {\n    if (!dc_json_is_valid(json)) return -1;\n    *out = ("@ + id + "_t*)calloc(1, sizeof("@ + id + "_t));\n"@ + concat_map(fields, struct_from_json_line_fn(id, ns)) + "    return 0;\n}\n\n"@
}

#[verifier::loop_isolation(false)]
pub(crate) fn struct_from_json(out: &mut String, id: &str, ns: &str, fields: &Vec<(String, TypeExpr)>)
    ensures
        final(out)@ == old(out)@ + struct_from_json_text(id@, ns@, fields_view(fields@)),
{
    let mut body = String::new();
    let mut i: usize = 0;
    while i < fields.len()
        invariant
            i <= fields.len(),
            body@ == concat_map(fields_view(fields@).take(i as int), struct_from_json_line_fn(id@, ns@)),
        decreases fields.len() - i,
    {
        let fname = &fields[i].0;
        let fty = &fields[i].1;
        let fid = fty.id(ns);
        let mut line = String::from_str("    if (");
        line.append(fid.as_str());
        line.append("_from_json(dc_json_get(json, \"");
        line.append(fname.as_str());
        line.append("\"), &(*out)->");
        line.append(fname.as_str());
        line.append(")) { ");
        line.append(id);
        line.append("_unref(*out); return -1; };\n");
        proof {
            lemma_concat_map_step(fields_view(fields@), i as int, struct_from_json_line_fn(id@, ns@));
        }
        body.append(line.as_str());
        i = i + 1;
    }
    proof {
        lemma_take_all(fields_view(fields@));
    }
    let mut s = String::from_str("static inline int ");
    s.append(id);
    s.append("_from_json(dc_json_t json, ");
    s.append(id);
    s.append("_t** out) {\n    if (!dc_json_is_valid(json)) return -1;\n    *out = (");
    s.append(id);
    s.append("_t*)calloc(1, sizeof(");
    s.append(id);
    s.append("_t));\n");
    s.append(body.as_str());
    s.append("    return 0;\n}\n\n");
    out.append(s.as_str());
}

pub open spec fn struct_to_json_line(ns: Seq<char>, f: FieldModel) -> Seq<char> {
    "    obj = dc_json_add_to_object(obj, \""@ + f.0 + "\", "@ + type_id(f.1, ns) + "_to_json(o->"@ + f.0 + "));\n"@
}

pub open spec fn struct_to_json_line_fn(ns: Seq<char>) -> spec_fn(FieldModel) -> Seq<char> {
    |f: FieldModel| struct_to_json_line(ns, f)
}

pub open spec fn void_cast_if_empty(n: nat) -> Seq<char> {
    if n == 0 {
        "    (void)o;\n"@
    } else {
        Seq::empty()
    }
}

/// The serializer of a struct definition: an object with a member per field.
pub open spec fn struct_to_json_text(id: Seq<char>, ns: Seq<char>, fields: Seq<FieldModel>) -> Seq<char> {
    "static inline dc_json_t "@ + id + "_to_json("@ + id + "_t* o) {\n"@ + void_cast_if_empty(fields.len()) + "    dc_json_t obj = dc_json_new_object();\n"@ + concat_map(fields, struct_to_json_line_fn(ns)) + "    return obj;\n}\n\n"@
}

#[verifier::loop_isolation(false)]
pub(crate) fn struct_to_json(out: &mut String, id: &str, ns: &str, fields: &Vec<(String, TypeExpr)>)
    ensures
        final(out)@ == old(out)@ + struct_to_json_text(id@, ns@, fields_view(fields@)),
{
    let vc = if fields.len() == 0 {
        String::from_str("    (void)o;\n")
    } else {
        String::new()
    };
    let mut body = String::new();
    let mut i: usize = 0;
    while i < fields.len()
        invariant
            i <= fields.len(),
            body@ == concat_map(fields_view(fields@).take(i as int), struct_to_json_line_fn(ns@)),
        decreases fields.len() - i,
    {
        let fname = &fields[i].0;
        let fty = &fields[i].1;
        let fid = fty.id(ns);
        let mut line = String::from_str("    obj = dc_json_add_to_object(obj, \"");
        line.append(fname.as_str());
        line.append("\", ");
        line.append(fid.as_str());
        line.append("_to_json(o->");
        line.append(fname.as_str());
        line.append("));\n");
        proof {
            lemma_concat_map_step(fields_view(fields@), i as int, struct_to_json_line_fn(ns@));
        }
        body.append(line.as_str());
        i = i + 1;
    }
    proof {
        lemma_take_all(fields_view(fields@));
    }
    let mut s = String::from_str("static inline dc_json_t ");
    s.append(id);
    s.append("_to_json(");
    s.append(id);
    s.append("_t* o) {\n");
    s.append(vc.as_str());
    s.append("    dc_json_t obj = dc_json_new_object();\n");
    s.append(body.as_str());
    s.append("    return obj;\n}\n\n");
    out.append(s.as_str());
}

pub open spec fn te_kind_line(idu: Seq<char>, v: VariantModel) -> Seq<char> {
    "    "@ + idu + "_"@ + case_converted(v.tag_value, CaseStyle::ScreamingSnake) + ",\n"@
}

pub open spec fn te_kind_line_fn(idu: Seq<char>) -> spec_fn(VariantModel) -> Seq<char> {
    |v: VariantModel| te_kind_line(idu, v)
}

pub open spec fn te_union_field(ns: Seq<char>, f: FieldModel) -> Seq<char> {
    "            "@ + c_type(f.1, ns) + " "@ + f.0 + ";\n"@
}

pub open spec fn te_union_field_fn(ns: Seq<char>) -> spec_fn(FieldModel) -> Seq<char> {
    |f: FieldModel| te_union_field(ns, f)
}

/// The data of one variant in the union; nothing for a variant without fields.
pub open spec fn te_union_member_text(ns: Seq<char>, v: VariantModel) -> Seq<char> {
    if v.fields.len() > 0 {
        "        struct {\n"@ + concat_map(v.fields, te_union_field_fn(ns)) + "        } "@ + case_converted(v.tag_value, CaseStyle::Snake) + ";\n"@
    } else {
        Seq::empty()
    }
}

pub open spec fn te_union_member_text_fn(ns: Seq<char>) -> spec_fn(VariantModel) -> Seq<char> {
    |v: VariantModel| te_union_member_text(ns, v)
}

#[verifier::loop_isolation(false)]
pub(crate) fn te_union_member(ns: &str, v: &EnumVariant) -> (r: String)
    ensures
        r@ == te_union_member_text(ns@, v@),
{
    if v.fields.len() > 0 {
        let fields = &v.fields;
        let vname = to_case(v.tag_value.as_str(), CaseStyle::Snake);
        let mut body = String::new();
        let mut i: usize = 0;
        while i < fields.len()
            invariant
                i <= fields.len(),
                body@ == concat_map(fields_view(fields@).take(i as int), te_union_field_fn(ns@)),
            decreases fields.len() - i,
        {
            let fname = &fields[i].0;
            let fty = &fields[i].1;
            let fct = fty.c_type(ns);
            let mut line = String::from_str("            ");
            line.append(fct.as_str());
            line.append(" ");
            line.append(fname.as_str());
            line.append(";\n");
            proof {
                lemma_concat_map_step(fields_view(fields@), i as int, te_union_field_fn(ns@));
            }
            body.append(line.as_str());
            i = i + 1;
        }
        proof {
            lemma_take_all(fields_view(fields@));
        }
        let mut s = String::from_str("        struct {\n");
        s.append(body.as_str());
        s.append("        } ");
        s.append(vname.as_str());
        s.append(";\n");
        s
    } else {
        String::new()
    }
}

/// Whether some variant carries data fields.
pub open spec fn te_has_data(vs: Seq<VariantModel>) -> bool {
    exists|i: int| 0 <= i < vs.len() && #[trigger] vs[i].fields.len() > 0
}

fn has_data(variants: &Vec<EnumVariant>) -> (r: bool)
    ensures
        r == te_has_data(variants@.map_values(|v: EnumVariant| v@)),
{
    let ghost vs = variants@.map_values(|v: EnumVariant| v@);
    let mut i: usize = 0;
    while i < variants.len()
        invariant
            i <= variants.len(),
            vs == variants@.map_values(|v: EnumVariant| v@),
            forall|j: int| 0 <= j < i ==> #[trigger] vs[j].fields.len() == 0,
        decreases variants.len() - i,
    {
        if variants[i].fields.len() > 0 {
            assert(vs[i as int].fields.len() > 0);
            return true;
        }
        i = i + 1;
    }
    false
}

/// The `data` union of a tagged enum; nothing when no variant carries data.
pub open spec fn te_union_block(ns: Seq<char>, vs: Seq<VariantModel>) -> Seq<char> {
    if te_has_data(vs) {
        "    union {\n"@ + concat_map(vs, te_union_member_text_fn(ns)) + "    } data;\n"@
    } else {
        Seq::empty()
    }
}

/// The kind `enum` and the `struct` (tag plus data union) of a tagged enum.
pub open spec fn tagged_enum_def_text(id: Seq<char>, ns: Seq<char>, e: EnumModel) -> Seq<char> {
    "typedef enum {\n"@ + concat_map(e.variants, te_kind_line_fn(uppercased(id))) + "} "@ + id + "_kind_t;\n\ntypedef struct "@ + id + " {\n    "@ + id + "_kind_t "@ + e.tag_field + ";\n"@ + te_union_block(ns, e.variants) + "} "@ + id + "_t;\n\n"@
}

#[verifier::loop_isolation(false)]
pub(crate) fn tagged_enum_def(out: &mut String, id: &str, ns: &str, e: &EnumDef)
    ensures
        final(out)@ == old(out)@ + tagged_enum_def_text(id@, ns@, e@),
{
    let variants = &e.variants;
    let tf = &e.tag_field;
    let idu_owned = to_uppercase(id);
    let idu = idu_owned.as_str();
    let mut kinds = String::new();
    let mut i: usize = 0;
    while i < variants.len()
        invariant
            i <= variants.len(),
            kinds@ == concat_map(e@.variants.take(i as int), te_kind_line_fn(uppercased(id@))),
        decreases variants.len() - i,
    {
        let v = &variants[i];
        let tss = to_case(v.tag_value.as_str(), CaseStyle::ScreamingSnake);
        let mut line = String::from_str("    ");
        line.append(idu);
        line.append("_");
        line.append(tss.as_str());
        line.append(",\n");
        proof {
            lemma_concat_map_step(e@.variants, i as int, te_kind_line_fn(uppercased(id@)));
        }
        kinds.append(line.as_str());
        i = i + 1;
    }
    proof {
        lemma_take_all(e@.variants);
    }
    let ub = if has_data(variants) {
        let mut body = String::new();
        let mut i: usize = 0;
        while i < variants.len()
            invariant
                i <= variants.len(),
                body@ == concat_map(e@.variants.take(i as int), te_union_member_text_fn(ns@)),
            decreases variants.len() - i,
        {
            let line = te_union_member(ns, &variants[i]);
            proof {
                lemma_concat_map_step(e@.variants, i as int, te_union_member_text_fn(ns@));
            }
            body.append(line.as_str());
            i = i + 1;
        }
        proof {
            lemma_take_all(e@.variants);
        }
        let mut u = String::from_str("    union {\n");
        u.append(body.as_str());
        u.append("    } data;\n");
        u
    } else {
        String::new()
    };
    let mut s = String::from_str("typedef enum {\n");
    s.append(kinds.as_str());
    s.append("} ");
    s.append(id);
    s.append("_kind_t;\n\ntypedef struct ");
    s.append(id);
    s.append(" {\n    ");
    s.append(id);
    s.append("_kind_t ");
    s.append(tf.as_str());
    s.append(";\n");
    s.append(ub.as_str());
    s.append("} ");
    s.append(id);
    s.append("_t;\n\n");
    out.append(s.as_str());
}

/// The constructor of a tagged enum: a zeroed value.
pub open spec fn tagged_enum_new_text(id: Seq<char>) -> Seq<char> {
    "static inline "@ + id + "_t* "@ + id + "_new() {\n    "@ + id + "_t* __result = ("@ + id + "_t*)calloc(1, sizeof("@ + id + "_t));\n    return __result;\n}\n"@
}

#[verifier::loop_isolation(false)]
pub(crate) fn tagged_enum_new(out: &mut String, id: &str)
    ensures
        final(out)@ == old(out)@ + tagged_enum_new_text(id@),
{
    let mut s = String::from_str("static inline ");
    s.append(id);
    s.append("_t* ");
    s.append(id);
    s.append("_new() {\n    ");
    s.append(id);
    s.append("_t* __result = (");
    s.append(id);
    s.append("_t*)calloc(1, sizeof(");
    s.append(id);
    s.append("_t));\n    return __result;\n}\n");
    out.append(s.as_str());
}

pub open spec fn te_unref_field(ns: Seq<char>, vname: Seq<char>, f: FieldModel) -> Seq<char> {
    if needs_heap_free(f.1) {
        "        "@ + type_id(f.1, ns) + "_unref(o->data."@ + vname + "."@ + f.0 + ");\n"@
    } else {
        Seq::empty()
    }
}

pub open spec fn te_unref_field_fn(ns: Seq<char>, vname: Seq<char>) -> spec_fn(FieldModel) -> Seq<char> {
    |f: FieldModel| te_unref_field(ns, vname, f)
}

/// Whether some field of the variant owns heap memory.
pub open spec fn variant_needs_free(v: VariantModel) -> bool {
    exists|j: int| 0 <= j < v.fields.len() && needs_heap_free(#[trigger] v.fields[j].1)
}

/// Whether some variant has a field that owns heap memory.
pub open spec fn te_any_freeable(vs: Seq<VariantModel>) -> bool {
    exists|i: int| 0 <= i < vs.len() && variant_needs_free(#[trigger] vs[i])
}

fn variant_needs_free_exec(v: &EnumVariant) -> (r: bool)
    ensures
        r == variant_needs_free(v@),
{
    let mut j: usize = 0;
    while j < v.fields.len()
        invariant
            j <= v.fields.len(),
            forall|k: int| 0 <= k < j ==> !needs_heap_free(#[trigger] fields_view(v.fields@)[k].1),
        decreases v.fields.len() - j,
    {
        if v.fields[j].1.needs_heap_free() {
            assert(needs_heap_free(v@.fields[j as int].1));
            return true;
        }
        j = j + 1;
    }
    false
}

fn any_freeable(variants: &Vec<EnumVariant>) -> (r: bool)
    ensures
        r == te_any_freeable(variants@.map_values(|v: EnumVariant| v@)),
{
    let ghost vs = variants@.map_values(|v: EnumVariant| v@);
    let mut i: usize = 0;
    while i < variants.len()
        invariant
            i <= variants.len(),
            vs == variants@.map_values(|v: EnumVariant| v@),
            forall|j: int| 0 <= j < i ==> !variant_needs_free(#[trigger] vs[j]),
        decreases variants.len() - i,
    {
        if variant_needs_free_exec(&variants[i]) {
            assert(variant_needs_free(vs[i as int]));
            return true;
        }
        i = i + 1;
    }
    false
}

/// The `case` that frees one variant's owning fields; nothing when it owns none.
pub open spec fn te_unref_case_text(idu: Seq<char>, ns: Seq<char>, v: VariantModel) -> Seq<char> {
    if variant_needs_free(v) {
        "    case "@ + idu + "_"@ + case_converted(v.tag_value, CaseStyle::ScreamingSnake) + ":\n"@ + concat_map(v.fields, te_unref_field_fn(ns, case_converted(v.tag_value, CaseStyle::Snake))) + "        break;\n"@
    } else {
        Seq::empty()
    }
}

pub open spec fn te_unref_case_text_fn(idu: Seq<char>, ns: Seq<char>) -> spec_fn(VariantModel) -> Seq<char> {
    |v: VariantModel| te_unref_case_text(idu, ns, v)
}

#[verifier::loop_isolation(false)]
pub(crate) fn te_unref_case(idu: &str, ns: &str, v: &EnumVariant) -> (r: String)
    ensures
        r@ == te_unref_case_text(idu@, ns@, v@),
{
    if variant_needs_free_exec(v) {
        let fields = &v.fields;
        let vname = to_case(v.tag_value.as_str(), CaseStyle::Snake);
        let tss = to_case(v.tag_value.as_str(), CaseStyle::ScreamingSnake);
        let mut body = String::new();
        let mut i: usize = 0;
        while i < fields.len()
            invariant
                i <= fields.len(),
                body@ == concat_map(fields_view(fields@).take(i as int), te_unref_field_fn(ns@, vname@)),
            decreases fields.len() - i,
        {
            let fname = &fields[i].0;
            let fty = &fields[i].1;
            let line = if fty.needs_heap_free() {
                let fid = fty.id(ns);
                let vname = vname.as_str();
                let mut line = String::from_str("        ");
                line.append(fid.as_str());
                line.append("_unref(o->data.");
                line.append(vname);
                line.append(".");
                line.append(fname.as_str());
                line.append(");\n");
                line
            } else {
                String::new()
            };
            proof {
                lemma_concat_map_step(fields_view(fields@), i as int, te_unref_field_fn(ns@, vname@));
            }
            body.append(line.as_str());
            i = i + 1;
        }
        proof {
            lemma_take_all(fields_view(fields@));
        }
        let mut s = String::from_str("    case ");
        s.append(idu);
        s.append("_");
        s.append(tss.as_str());
        s.append(":\n");
        s.append(body.as_str());
        s.append("        break;\n");
        s
    } else {
        String::new()
    }
}

pub open spec fn te_unref_switch(id: Seq<char>, ns: Seq<char>, tf: Seq<char>, vs: Seq<VariantModel>) -> Seq<char> {
    if te_any_freeable(vs) {
        "    switch (o->"@ + tf + ") {\n"@ + concat_map(vs, te_unref_case_text_fn(uppercased(id), ns)) + "    default: break;\n    }\n"@
    } else {
        Seq::empty()
    }
}

/// The destructor of a tagged enum: frees the owning fields of the active variant,
/// then the value.
pub open spec fn tagged_enum_unref_text(id: Seq<char>, ns: Seq<char>, e: EnumModel) -> Seq<char> {
    "static inline void "@ + id + "_unref("@ + id + "_t* o) {\n    if (!o) return;\n"@ + te_unref_switch(id, ns, e.tag_field, e.variants) + "    free(o);\n}\n\n"@
}

#[verifier::loop_isolation(false)]
pub(crate) fn tagged_enum_unref(out: &mut String, id: &str, ns: &str, e: &EnumDef)
    ensures
        final(out)@ == old(out)@ + tagged_enum_unref_text(id@, ns@, e@),
{
    let variants = &e.variants;
    let tf = &e.tag_field;
    let idu = to_uppercase(id);
    let sw = if any_freeable(variants) {
        let mut body = String::new();
        let mut i: usize = 0;
        while i < variants.len()
            invariant
                i <= variants.len(),
                body@ == concat_map(e@.variants.take(i as int), te_unref_case_text_fn(uppercased(id@), ns@)),
            decreases variants.len() - i,
        {
            let line = te_unref_case(idu.as_str(), ns, &variants[i]);
            proof {
                lemma_concat_map_step(e@.variants, i as int, te_unref_case_text_fn(uppercased(id@), ns@));
            }
            body.append(line.as_str());
            i = i + 1;
        }
        proof {
            lemma_take_all(e@.variants);
        }
        let mut u = String::from_str("    switch (o->");
        u.append(tf.as_str());
        u.append(") {\n");
        u.append(body.as_str());
        u.append("    default: break;\n    }\n");
        u
    } else {
        String::new()
    };
    let mut s = String::from_str("static inline void ");
    s.append(id);
    s.append("_unref(");
    s.append(id);
    s.append("_t* o) {\n    if (!o) return;\n");
    s.append(sw.as_str());
    s.append("    free(o);\n}\n\n");
    out.append(s.as_str());
}

pub open spec fn te_from_json_field(id: Seq<char>, ns: Seq<char>, vname: Seq<char>, f: FieldModel) -> Seq<char> {
    "    if ("@ + type_id(f.1, ns) + "_from_json(dc_json_get(json, \""@ + f.0 + "\"), &(*out)->data."@ + vname + "."@ + f.0 + ")) { "@ + id + "_unref(*out); return -1; };\n"@
}

pub open spec fn te_from_json_field_fn(id: Seq<char>, ns: Seq<char>, vname: Seq<char>) -> spec_fn(FieldModel) -> Seq<char> {
    |f: FieldModel| te_from_json_field(id, ns, vname, f)
}

pub open spec fn if_prefix(i: int) -> Seq<char> {
    if i == 0 {
        "if"@
    } else {
        "} else if"@
    }
}

/// The branch that recognizes one variant's tag and parses its fields.
pub open spec fn te_from_json_branch_text(id: Seq<char>, idu: Seq<char>, ns: Seq<char>, tf: Seq<char>, i: int, v: VariantModel) -> Seq<char> {
    "    "@ + if_prefix(i) + " (dc_json_string_eq(_tag, \""@ + v.tag_value + "\")) {\n        (*out)->"@ + tf + " = "@ + idu + "_"@ + case_converted(v.tag_value, CaseStyle::ScreamingSnake) + ";\n"@ + concat_map(v.fields, te_from_json_field_fn(id, ns, case_converted(v.tag_value, CaseStyle::Snake)))
}

pub open spec fn te_from_json_branch_text_fn(id: Seq<char>, idu: Seq<char>, ns: Seq<char>, tf: Seq<char>) -> spec_fn(int, VariantModel) -> Seq<char> {
    |i: int, v: VariantModel| te_from_json_branch_text(id, idu, ns, tf, i, v)
}

#[verifier::loop_isolation(false)]
pub(crate) fn te_from_json_branch(id: &str, idu: &str, ns: &str, tf: &str, i: usize, v: &EnumVariant) -> (r: String)
    ensures
        r@ == te_from_json_branch_text(id@, idu@, ns@, tf@, i as int, v@),
{
    let fields = &v.fields;
    let vname = to_case(v.tag_value.as_str(), CaseStyle::Snake);
    let tss = to_case(v.tag_value.as_str(), CaseStyle::ScreamingSnake);
    let prefix = if i == 0 {
        "if"
    } else {
        "} else if"
    };
    let mut body = String::new();
    let mut i: usize = 0;
    while i < fields.len()
        invariant
            i <= fields.len(),
            body@ == concat_map(fields_view(fields@).take(i as int), te_from_json_field_fn(id@, ns@, vname@)),
        decreases fields.len() - i,
    {
        let fname = &fields[i].0;
        let fty = &fields[i].1;
        let fid = fty.id(ns);
        let vname = vname.as_str();
        let mut line = String::from_str("    if (");
        line.append(fid.as_str());
        line.append("_from_json(dc_json_get(json, \"");
        line.append(fname.as_str());
        line.append("\"), &(*out)->data.");
        line.append(vname);
        line.append(".");
        line.append(fname.as_str());
        line.append(")) { ");
        line.append(id);
        line.append("_unref(*out); return -1; };\n");
        proof {
            lemma_concat_map_step(fields_view(fields@), i as int, te_from_json_field_fn(id@, ns@, vname@));
        }
        body.append(line.as_str());
        i = i + 1;
    }
    proof {
        lemma_take_all(fields_view(fields@));
    }
    let mut s = String::from_str("    ");
    s.append(prefix);
    s.append(" (dc_json_string_eq(_tag, \"");
    s.append(v.tag_value.as_str());
    s.append("\")) {\n        (*out)->");
    s.append(tf);
    s.append(" = ");
    s.append(idu);
    s.append("_");
    s.append(tss.as_str());
    s.append(";\n");
    s.append(body.as_str());
    s
}

pub open spec fn te_from_json_else(id: Seq<char>, n: nat) -> Seq<char> {
    if n > 0 {
        "    } else {\n        "@ + id + "_unref(*out);\n        return -1;\n    }\n"@
    } else {
        Seq::empty()
    }
}

/// The parser of a tagged enum: the tag member selects the variant, whose fields are
/// parsed from the same object; an unknown tag fails.
pub open spec fn tagged_enum_from_json_text(id: Seq<char>, ns: Seq<char>, e: EnumModel) -> Seq<char> {
    "static inline int "@ + id + "_from_json(dc_json_t json, "@ + id + "_t** out) {\n    if (!dc_json_is_valid(json)) return -1;\n    *out = ("@ + id + "_t*)calloc(1, sizeof("@ + id + "_t));\n    dc_json_t _tag = dc_json_get(json, \""@ + e.tag_field + "\");\n    if (!dc_json_is_string(_tag)) { "@ + id + "_unref(*out); return -1; }\n"@ + concat_mapi(e.variants, te_from_json_branch_text_fn(id, uppercased(id), ns, e.tag_field)) + te_from_json_else(id, e.variants.len()) + "    return 0;\n}\n\n"@
}

#[verifier::loop_isolation(false)]
#[verifier::rlimit(60)]
pub(crate) fn tagged_enum_from_json(out: &mut String, id: &str, ns: &str, e: &EnumDef)
    ensures
        final(out)@ == old(out)@ + tagged_enum_from_json_text(id@, ns@, e@),
{
    let variants = &e.variants;
    let tf = &e.tag_field;
    let idu = to_uppercase(id);
    let mut body = String::new();
    let mut i: usize = 0;
    while i < variants.len()
        invariant
            i <= variants.len(),
            body@ == concat_mapi(e@.variants.take(i as int), te_from_json_branch_text_fn(id@, uppercased(id@), ns@, e@.tag_field)),
        decreases variants.len() - i,
    {
        let line = te_from_json_branch(id, idu.as_str(), ns, tf.as_str(), i, &variants[i]);
        proof {
            lemma_concat_mapi_step(e@.variants, i as int, te_from_json_branch_text_fn(id@, uppercased(id@), ns@, e@.tag_field));
        }
        body.append(line.as_str());
        i = i + 1;
    }
    proof {
        lemma_take_all(e@.variants);
    }
    let els = if variants.len() > 0 {
        let mut u = String::from_str("    } else {\n        ");
        u.append(id);
        u.append("_unref(*out);\n        return -1;\n    }\n");
        u
    } else {
        String::new()
    };
    let mut s = String::from_str("static inline int ");
    s.append(id);
    s.append("_from_json(dc_json_t json, ");
    s.append(id);
    s.append("_t** out) {\n    if (!dc_json_is_valid(json)) return -1;\n    *out = (");
    s.append(id);
    s.append("_t*)calloc(1, sizeof(");
    s.append(id);
    s.append("_t));\n    dc_json_t _tag = dc_json_get(json, \"");
    s.append(tf.as_str());
    s.append("\");\n    if (!dc_json_is_string(_tag)) { ");
    s.append(id);
    s.append("_unref(*out); return -1; }\n");
    s.append(body.as_str());
    s.append(els.as_str());
    s.append("    return 0;\n}\n\n");
    out.append(s.as_str());
}

pub open spec fn te_to_json_field(ns: Seq<char>, vname: Seq<char>, f: FieldModel) -> Seq<char> {
    "        obj = dc_json_add_to_object(obj, \""@ + f.0 + "\", "@ + type_id(f.1, ns) + "_to_json(o->data."@ + vname + "."@ + f.0 + "));\n"@
}

pub open spec fn te_to_json_field_fn(ns: Seq<char>, vname: Seq<char>) -> spec_fn(FieldModel) -> Seq<char> {
    |f: FieldModel| te_to_json_field(ns, vname, f)
}

/// The `case` that writes one variant: its tag, then its fields.
pub open spec fn te_to_json_case_text(idu: Seq<char>, ns: Seq<char>, tf: Seq<char>, v: VariantModel) -> Seq<char> {
    "    case "@ + idu + "_"@ + case_converted(v.tag_value, CaseStyle::ScreamingSnake) + ": {\n        obj = dc_json_add_to_object(obj, \""@ + tf + "\", dc_json_new_string(\""@ + v.tag_value + "\"));\n"@ + concat_map(v.fields, te_to_json_field_fn(ns, case_converted(v.tag_value, CaseStyle::Snake))) + "        break;\n    }\n"@
}

pub open spec fn te_to_json_case_text_fn(idu: Seq<char>, ns: Seq<char>, tf: Seq<char>) -> spec_fn(VariantModel) -> Seq<char> {
    |v: VariantModel| te_to_json_case_text(idu, ns, tf, v)
}

#[verifier::loop_isolation(false)]
pub(crate) fn te_to_json_case(idu: &str, ns: &str, tf: &str, v: &EnumVariant) -> (r: String)
    ensures
        r@ == te_to_json_case_text(idu@, ns@, tf@, v@),
{
    let fields = &v.fields;
    let vname = to_case(v.tag_value.as_str(), CaseStyle::Snake);
    let tss = to_case(v.tag_value.as_str(), CaseStyle::ScreamingSnake);
    let mut body = String::new();
    let mut i: usize = 0;
    while i < fields.len()
        invariant
            i <= fields.len(),
            body@ == concat_map(fields_view(fields@).take(i as int), te_to_json_field_fn(ns@, vname@)),
        decreases fields.len() - i,
    {
        let fname = &fields[i].0;
        let fty = &fields[i].1;
        let fid = fty.id(ns);
        let vname = vname.as_str();
        let mut line = String::from_str("        obj = dc_json_add_to_object(obj, \"");
        line.append(fname.as_str());
        line.append("\", ");
        line.append(fid.as_str());
        line.append("_to_json(o->data.");
        line.append(vname);
        line.append(".");
        line.append(fname.as_str());
        line.append("));\n");
        proof {
            lemma_concat_map_step(fields_view(fields@), i as int, te_to_json_field_fn(ns@, vname@));
        }
        body.append(line.as_str());
        i = i + 1;
    }
    proof {
        lemma_take_all(fields_view(fields@));
    }
    let mut s = String::from_str("    case ");
    s.append(idu);
    s.append("_");
    s.append(tss.as_str());
    s.append(": {\n        obj = dc_json_add_to_object(obj, \"");
    s.append(tf);
    s.append("\", dc_json_new_string(\"");
    s.append(v.tag_value.as_str());
    s.append("\"));\n");
    s.append(body.as_str());
    s.append("        break;\n    }\n");
    s
}

/// The serializer of a tagged enum: an object with the tag member and the active
/// variant's fields.
pub open spec fn tagged_enum_to_json_text(id: Seq<char>, ns: Seq<char>, e: EnumModel) -> Seq<char> {
    "static inline dc_json_t "@ + id + "_to_json("@ + id + "_t* o) {\n    dc_json_t obj = dc_json_new_object();\n    switch (o->"@ + e.tag_field + ") {\n"@ + concat_map(e.variants, te_to_json_case_text_fn(uppercased(id), ns, e.tag_field)) + "    }\n    return obj;\n}\n\n"@
}

#[verifier::loop_isolation(false)]
#[verifier::rlimit(60)]
pub(crate) fn tagged_enum_to_json(out: &mut String, id: &str, ns: &str, e: &EnumDef)
    ensures
        final(out)@ == old(out)@ + tagged_enum_to_json_text(id@, ns@, e@),
{
    let variants = &e.variants;
    let tf = &e.tag_field;
    let idu = to_uppercase(id);
    let mut body = String::new();
    let mut i: usize = 0;
    while i < variants.len()
        invariant
            i <= variants.len(),
            body@ == concat_map(e@.variants.take(i as int), te_to_json_case_text_fn(uppercased(id@), ns@, e@.tag_field)),
        decreases variants.len() - i,
    {
        let line = te_to_json_case(idu.as_str(), ns, tf.as_str(), &variants[i]);
        proof {
            lemma_concat_map_step(e@.variants, i as int, te_to_json_case_text_fn(uppercased(id@), ns@, e@.tag_field));
        }
        body.append(line.as_str());
        i = i + 1;
    }
    proof {
        lemma_take_all(e@.variants);
    }
    let mut s = String::from_str("static inline dc_json_t ");
    s.append(id);
    s.append("_to_json(");
    s.append(id);
    s.append("_t* o) {\n    dc_json_t obj = dc_json_new_object();\n    switch (o->");
    s.append(tf.as_str());
    s.append(") {\n");
    s.append(body.as_str());
    s.append("    }\n    return obj;\n}\n\n");
    out.append(s.as_str());
}

/// The forward declarations of a struct or tagged enum.
pub open spec fn opaque_forward_decls(id: Seq<char>) -> Seq<char> {
    "typedef struct "@ + id + " "@ + id + "_t;\nstatic inline void "@ + id + "_unref("@ + id + "_t* o);\nstatic inline int "@ + id + "_from_json(dc_json_t o, "@ + id + "_t** out);\nstatic inline dc_json_t "@ + id + "_to_json("@ + id + "_t* o);\n"@
}

/// What a definition declares before any type's definitions: the `typedef` and
/// function prototypes of a struct or tagged enum, or the complete `enum` and
/// converters of a string enum.
pub open spec fn forward_decls_text(d: TypeDefModel, ns: Seq<char>) -> Seq<char> {
    let id = def_id(d, ns);
    match d.def {
        DefModel::StringEnum { variants } => string_enum_def_text(id, variants) + "\n"@
            + string_enum_to_json_text(id, variants) + "\n"@ + string_enum_from_json_text(id, variants)
            + "\n"@,
        _ => opaque_forward_decls(id),
    }
}

/// The constructor prototype of a struct or tagged enum.
pub open spec fn late_decls_text(d: TypeDefModel, ns: Seq<char>) -> Seq<char> {
    let id = def_id(d, ns);
    match d.def {
        DefModel::Struct { fields } => "static inline "@ + id + "_t* "@ + id + "_new("@ + c_argument_list(fields, ns) + ");\n"@,
        DefModel::TaggedEnum { .. } => "static inline "@ + id + "_t* "@ + id + "_new();\n"@,
        DefModel::StringEnum { .. } => Seq::empty(),
    }
}

/// The definitions of a struct or tagged enum: the C type, constructor, destructor,
/// serializer and parser. A string enum has none here.
pub open spec fn definitions_text(d: TypeDefModel, ns: Seq<char>) -> Seq<char> {
    let id = def_id(d, ns);
    match d.def {
        DefModel::Struct { fields } => struct_def_text(id, ns, fields) + struct_new_text(id, ns, fields)
            + struct_unref_text(id, ns, fields) + struct_to_json_text(id, ns, fields)
            + struct_from_json_text(id, ns, fields),
        DefModel::TaggedEnum { def } => tagged_enum_def_text(id, ns, def) + tagged_enum_new_text(id)
            + tagged_enum_unref_text(id, ns, def) + tagged_enum_to_json_text(id, ns, def)
            + tagged_enum_from_json_text(id, ns, def),
        DefModel::StringEnum { .. } => Seq::empty(),
    }
}

pub open spec fn field_types(fields: Seq<FieldModel>) -> Seq<CType> {
    fields.map_values(|f: FieldModel| f.1)
}

/// Appends copies of the fields' types.
pub(crate) fn push_field_types(r: &mut Vec<TypeExpr>, fields: &Vec<(String, TypeExpr)>)
    ensures
        views_of(final(r)@) == views_of(old(r)@) + field_types(fields_view(fields@)),
{
    let ghost start = views_of(r@);
    let mut i: usize = 0;
    while i < fields.len()
        invariant
            i <= fields.len(),
            views_of(r@) == start + field_types(fields_view(fields@).take(i as int)),
        decreases fields.len() - i,
    {
        let t = fields[i].1.copied();
        proof {
            lemma_views_of_push(r@, t);
            assert(field_types(fields_view(fields@).take(i as int + 1)) =~= field_types(
                fields_view(fields@).take(i as int),
            ).push(t@));
            assert(start + field_types(fields_view(fields@).take(i as int + 1)) =~= (start
                + field_types(fields_view(fields@).take(i as int))).push(t@));
        }
        r.push(t);
        i = i + 1;
    }
    proof {
        lemma_take_all(fields_view(fields@));
    }
}

impl TypeDef {
    pub(crate) fn id(&self, ns: &str) -> (r: String)
        ensures
            r@ == def_id(self@, ns@),
    {
        let mut r = String::from_str(ns);
        r.append(to_case(self.name.as_str(), CaseStyle::Snake).as_str());
        r
    }

    /// The C type that names this definition.
    pub fn as_ctype(&self) -> (r: TypeExpr)
        ensures
            r@ == def_ctype(self@),
    {
        match &self.def {
            TypeDefInner::Struct { .. } => TypeExpr::Struct(self.name.clone()),
            TypeDefInner::TaggedEnum { .. } => TypeExpr::TaggedEnum(self.name.clone()),
            TypeDefInner::StringEnum { .. } => TypeExpr::StringEnum(self.name.clone()),
        }
    }

    pub(crate) fn emit_forward_decls(&self, out: &mut String, ns: &str)
        ensures
            final(out)@ == old(out)@ + forward_decls_text(self@, ns@),
    {
        let id = self.id(ns);
        match &self.def {
            TypeDefInner::StringEnum { variants } => {
                let ghost o = out@;
                string_enum_def(out, id.as_str(), variants);
                out.append("\n");
                string_enum_to_json(out, id.as_str(), variants);
                out.append("\n");
                string_enum_from_json(out, id.as_str(), variants);
                out.append("\n");
                assert(out@ =~= o + forward_decls_text(self@, ns@));
            },
            _ => {
                let mut s = String::from_str("typedef struct ");
                s.append(id.as_str());
                s.append(" ");
                s.append(id.as_str());
                s.append("_t;\nstatic inline void ");
                s.append(id.as_str());
                s.append("_unref(");
                s.append(id.as_str());
                s.append("_t* o);\nstatic inline int ");
                s.append(id.as_str());
                s.append("_from_json(dc_json_t o, ");
                s.append(id.as_str());
                s.append("_t** out);\nstatic inline dc_json_t ");
                s.append(id.as_str());
                s.append("_to_json(");
                s.append(id.as_str());
                s.append("_t* o);\n");
                out.append(s.as_str());
            },
        }
    }

    pub(crate) fn emit_late_decls(&self, out: &mut String, ns: &str)
        ensures
            final(out)@ == old(out)@ + late_decls_text(self@, ns@),
    {
        let id = self.id(ns);
        match &self.def {
            TypeDefInner::Struct { fields } => {
                let args = argument_list(fields, ns);
                let mut s = String::from_str("static inline ");
                s.append(id.as_str());
                s.append("_t* ");
                s.append(id.as_str());
                s.append("_new(");
                s.append(args.as_str());
                s.append(");\n");
                out.append(s.as_str());
            },
            TypeDefInner::TaggedEnum { .. } => {
                let mut s = String::from_str("static inline ");
                s.append(id.as_str());
                s.append("_t* ");
                s.append(id.as_str());
                s.append("_new();\n");
                out.append(s.as_str());
            },
            TypeDefInner::StringEnum { .. } => {
                assert(out@ =~= out@ + Seq::<char>::empty());
            },
        }
    }

    #[verifier::rlimit(50)]
    pub(crate) fn emit_definitions(&self, out: &mut String, ns: &str)
        ensures
            final(out)@ == old(out)@ + definitions_text(self@, ns@),
    {
        let id = self.id(ns);
        let ghost o = out@;
        match &self.def {
            TypeDefInner::Struct { fields } => {
                struct_def(out, id.as_str(), ns, fields);
                struct_new(out, id.as_str(), ns, fields);
                struct_unref(out, id.as_str(), ns, fields);
                struct_to_json(out, id.as_str(), ns, fields);
                struct_from_json(out, id.as_str(), ns, fields);
                assert(out@ =~= o + definitions_text(self@, ns@));
            },
            TypeDefInner::TaggedEnum { def } => {
                tagged_enum_def(out, id.as_str(), ns, def);
                tagged_enum_new(out, id.as_str());
                tagged_enum_unref(out, id.as_str(), ns, def);
                tagged_enum_to_json(out, id.as_str(), ns, def);
                tagged_enum_from_json(out, id.as_str(), ns, def);
                assert(out@ =~= o + definitions_text(self@, ns@));
            },
            TypeDefInner::StringEnum { .. } => {
                assert(out@ =~= o + Seq::<char>::empty());
            },
        }
    }

    /// The types of all fields, in declaration order (variant by variant for a
    /// tagged enum; none for a string enum).
    pub fn field_ctypes(&self) -> (r: Vec<TypeExpr>)
        ensures
            views_of(r@) == def_field_types(self@.def),
    {
        let mut r: Vec<TypeExpr> = Vec::new();
        match &self.def {
            TypeDefInner::Struct { fields } => {
                push_field_types(&mut r, fields);
                assert(views_of(r@) =~= def_field_types(self@.def));
            },
            TypeDefInner::TaggedEnum { def } => {
                let ghost vs = def@.variants;
                let mut i: usize = 0;
                while i < def.variants.len()
                    invariant
                        i <= def.variants.len(),
                        vs == def@.variants,
                        views_of(r@) == variants_field_types(vs.take(i as int)),
                    decreases def.variants.len() - i,
                {
                    let ghost before = views_of(r@);
                    push_field_types(&mut r, &def.variants[i].fields);
                    proof {
                        assert(vs.take(i as int + 1).drop_last() =~= vs.take(i as int));
                        assert(field_types(fields_view(def.variants@[i as int].fields@)) =~= vs[i as int].fields.map_values(|f: FieldModel| f.1));
                    }
                    i = i + 1;
                }
                proof {
                    lemma_take_all(vs);
                }
            },
            TypeDefInner::StringEnum { .. } => {
                assert(views_of(r@) =~= def_field_types(self@.def));
            },
        }
        r
    }
}

} // verus!

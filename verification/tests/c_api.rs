use yerpc::c::{collect_type_defs, generate_header, Method, TypeDef, TypeDefInner, TypeExpr};
use yerpc::cpp::generate_hpp;
use yerpc::ts::{
    DefinedTypeInfo, NativeTypeInfo, ObjectField, TypeArray, TypeDefinition, TypeExpr as Ts, TypeGraph, TypeInfo,
    TypeIntersection, TypeName, TypeObject, TypeString, TypeTuple, TypeUnion,
};

const F64: usize = 0;
const STRING: usize = 1;
const U32: usize = 2;
const U8: usize = 3;
const COORD: usize = 4;
const VEC_COORD: usize = 5;
const SHAPE: usize = 6;
const CUSTOM_RESULT: usize = 7;
const OPT_U8: usize = 8;
const COLOR_NAME: usize = 9;
const COLOR: usize = 10;
const DIRECTION: usize = 11;
const OPT_U32: usize = 12;
const OPT_COORD: usize = 13;
const VEC_U32: usize = 14;
const TUPLE_U32_COORD: usize = 15;
const MAP_U32: usize = 16;
const MAP_COORD: usize = 17;
const MAP_STR: usize = 18;
const OTHER: usize = 19;
const DUMMY: usize = 20;
const F32: usize = 21;
const BOOL: usize = 22;
const PATHBUF: usize = 23;
const USIZE: usize = 24;

fn name(n: &str) -> Ts {
    Ts::Name(TypeName { name: n.to_string(), generic_args: vec![] })
}

fn record(k: usize, v: usize) -> Ts {
    Ts::Name(TypeName { name: "Record".to_string(), generic_args: vec![Ts::Ref(k), Ts::Ref(v)] })
}

fn lit(s: &str) -> Ts {
    Ts::String(TypeString { value: s.to_string() })
}

fn native(e: Ts) -> TypeInfo {
    TypeInfo::Native(NativeTypeInfo { expr: e })
}

fn defined(n: &str, e: Ts) -> TypeInfo {
    TypeInfo::Defined(DefinedTypeInfo {
        def: TypeDefinition { name: n.to_string(), def: e },
        generic_args: vec![],
    })
}

fn field(n: &str, t: Ts) -> ObjectField {
    ObjectField { name: TypeString { value: n.to_string() }, optional: false, ty: t }
}

fn obj(fields: Vec<ObjectField>) -> Ts {
    Ts::Object(TypeObject { has_index_signature: false, fields })
}

fn tag(v: &str) -> Ts {
    obj(vec![field("kind", lit(v))])
}

fn with_data(v: &str, data: Ts) -> Ts {
    Ts::Intersection(TypeIntersection { members: vec![tag(v), data] })
}

fn union(members: Vec<Ts>) -> Ts {
    Ts::Union(TypeUnion { members })
}

fn tuple(elements: Vec<Ts>) -> Ts {
    Ts::Tuple(TypeTuple { elements })
}

fn array(item: usize) -> Ts {
    Ts::Array(TypeArray { item: Box::new(Ts::Ref(item)) })
}

/// The types of the test API: `Coord`, `Shape`, `CustomResult`, `Color`,
/// `ColorName`, `Direction` and `Dummy`, which holds them all.
fn graph() -> TypeGraph {
    let infos = vec![
        defined("F64", name("number")),
        native(name("string")),
        defined("U32", name("number")),
        defined("U8", name("number")),
        defined("Coord", obj(vec![field("x", Ts::Ref(F64)), field("y", Ts::Ref(F64))])),
        native(array(COORD)),
        defined("Shape", obj(vec![field("name", Ts::Ref(STRING)), field("points", Ts::Ref(VEC_COORD))])),
        defined("CustomResult", union(vec![with_data("Ok", Ts::Ref(SHAPE)), tag("Error")])),
        native(union(vec![Ts::Ref(U8), name("null")])),
        defined("ColorName", obj(vec![field("name", Ts::Ref(STRING)), field("hex", Ts::Ref(STRING))])),
        defined(
            "Color",
            union(vec![
                tag("Red"),
                tag("Green"),
                with_data(
                    "Custom",
                    obj(vec![
                        field("r", Ts::Ref(U8)),
                        field("g", Ts::Ref(U8)),
                        field("b", Ts::Ref(U8)),
                        field("alpha", Ts::Ref(OPT_U8)),
                    ]),
                ),
                with_data("Named", Ts::Ref(COLOR_NAME)),
            ]),
        ),
        defined("Direction", union(vec![lit("Up"), lit("Down"), lit("Left"), lit("Right")])),
        native(union(vec![Ts::Ref(U32), name("null")])),
        native(union(vec![Ts::Ref(COORD), name("null")])),
        native(array(U32)),
        native(tuple(vec![Ts::Ref(U32), Ts::Ref(COORD)])),
        native(record(STRING, U32)),
        native(record(STRING, COORD)),
        native(record(STRING, STRING)),
        native(tuple(vec![
            Ts::Ref(COORD),
            Ts::Ref(SHAPE),
            Ts::Ref(CUSTOM_RESULT),
            Ts::Ref(COLOR),
            Ts::Ref(DIRECTION),
        ])),
        defined(
            "Dummy",
            obj(vec![
                field("my_opt_u32", Ts::Ref(OPT_U32)),
                field("my_opt_coord", Ts::Ref(OPT_COORD)),
                field("my_arr_u32", Ts::Ref(VEC_U32)),
                field("my_arr_coord", Ts::Ref(VEC_COORD)),
                field("my_tuple_u32_coord", Ts::Ref(TUPLE_U32_COORD)),
                field("my_map_u32", Ts::Ref(MAP_U32)),
                field("my_map_coord", Ts::Ref(MAP_COORD)),
                field("my_map_str", Ts::Ref(MAP_STR)),
                field("other", Ts::Ref(OTHER)),
            ]),
        ),
        defined("F32", name("number")),
        native(name("boolean")),
        native(name("string")),
        defined("Usize", name("number")),
    ];
    TypeGraph { infos }
}

fn ty(g: &TypeGraph, i: usize) -> TypeExpr {
    TypeExpr::from_info(g, i)
}

fn arg(g: &TypeGraph, n: &str, i: usize) -> (String, TypeExpr) {
    (n.to_string(), ty(g, i))
}

fn methods(g: &TypeGraph) -> Vec<Method> {
    vec![
        Method::new("dummy", vec![], Some(ty(g, DUMMY)), false, true),
        Method::new("add", vec![arg(g, "a", F32), arg(g, "b", F32)], Some(ty(g, F32)), false, true),
        Method::new("echo", vec![arg(g, "msg", STRING)], Some(ty(g, STRING)), false, true),
        Method::new("roundtrip_coord", vec![arg(g, "x", COORD)], Some(ty(g, COORD)), false, true),
        Method::new("get_origin", vec![arg(g, "id", U32)], Some(ty(g, COORD)), false, true),
        Method::new("get_color", vec![arg(g, "id", U32)], Some(ty(g, COLOR)), false, true),
        Method::new(
            "create_shape",
            vec![arg(g, "name", STRING), arg(g, "origin", COORD), arg(g, "visible", BOOL)],
            Some(ty(g, U32)),
            false,
            true,
        ),
        Method::new(
            "send_msg",
            vec![arg(g, "chat_id", U32), arg(g, "text", STRING)],
            Some(ty(g, TUPLE_U32_COORD)),
            false,
            true,
        ),
        Method::new("get_selected_id", vec![], Some(ty(g, OPT_U32)), false, true),
        Method::new("get_ids", vec![], Some(ty(g, VEC_U32)), false, true),
        Method::new("get_points", vec![], Some(ty(g, VEC_COORD)), false, true),
        Method::new("get_info", vec![], Some(ty(g, MAP_STR)), false, true),
        Method::new("get_coords_by_id", vec![], Some(ty(g, MAP_COORD)), false, true),
        Method::new("get_size", vec![arg(g, "path", PATHBUF)], Some(ty(g, USIZE)), false, true),
        Method::new("get_direction", vec![arg(g, "id", U32)], Some(ty(g, DIRECTION)), false, true),
        Method::new("notify", vec![arg(g, "msg", STRING)], None, true, true),
        Method::new("sleep", vec![arg(g, "delay", F64)], None, false, true),
    ]
}

fn api() -> (Vec<Method>, Vec<TypeDef>) {
    let g = graph();
    assert!(g.is_well_formed());
    let defs = collect_type_defs(&g, DUMMY);
    (methods(&g), defs)
}

fn rpc_h() -> String {
    let (methods, defs) = api();
    generate_header(&methods, &defs, "tst_")
}

fn rpc_hpp() -> String {
    let (methods, defs) = api();
    let mut out = String::new();
    generate_hpp(&mut out, &methods, &defs, "rpc.h", "tst_");
    out
}

#[test]
fn run_cpp_tests() {
    let hpp = rpc_hpp();
    for needed in [
        "ArrayU32",
        "ArrayCoord",
        "TupleU32Coord",
        "MapU32",
        "add_request",
        "echo_request",
        "Shape",
    ] {
        assert!(hpp.contains(needed), "rpc.hpp lacks {needed}");
    }
}

#[test]
fn test_array_new() {
    let h = rpc_h();
    assert!(h.contains(
        "static inline tst_array_u32_t* tst_array_u32_new(size_t len) {\n    tst_array_u32_t* __result = (tst_array_u32_t*)calloc(1, sizeof(tst_array_u32_t));\n    __result->len = len;\n    __result->items = (uint32_t*)calloc(len, sizeof(uint32_t));\n    return __result;\n}\n"
    ));
    assert!(h.contains("static inline void tst_array_u32_unref(tst_array_u32_t* a) {\n    if (!a) return;\n    free(a->items);\n    free(a);\n}\n"));
}

#[test]
fn test_optional_coord_new() {
    let h = rpc_h();
    assert!(h.contains("static inline tst_coord_t* tst_coord_new(double x, double y) {"));
    assert!(h.contains("    __result->x = x;\n    __result->y = y;\n"));
    assert!(h.contains(
        "static inline tst_optional_coord_t* tst_optional_coord_new(tst_coord_t* x) {\n    return (tst_optional_coord_t*)(x);\n}\n"
    ));
}

#[test]
fn test_optional_coord_new_nullopt() {
    let h = rpc_h();
    assert!(h.contains("    return (tst_optional_coord_t*)(x);\n"));
    assert!(h.contains("static inline void tst_optional_coord_unref(tst_coord_t* o) {\n    tst_coord_unref(o);\n}\n"));
    assert!(h.contains("static inline void tst_coord_unref(tst_coord_t* o) {\n    if (!o) return;\n"));
}

#[test]
fn test_tuple_new() {
    let h = rpc_h();
    assert!(h.contains("static inline tst_tuple_u32_coord_t* tst_tuple_u32_coord_new(uint32_t field_0, tst_coord_t* field_1) {"));
    assert!(h.contains("    __result->field_0 = field_0;\n    __result->field_1 = field_1;\n    return __result;\n"));
}

#[test]
fn collects_the_api_definitions_in_walk_order() {
    let (_, defs) = api();
    let names: Vec<&str> = defs.iter().map(|d| d.name.as_str()).collect();
    assert_eq!(names, vec!["Coord", "Shape", "CustomResult", "ColorName", "Color", "Direction", "Dummy"]);
    match &defs[0].def {
        TypeDefInner::Struct { fields } => {
            assert_eq!(fields, &vec![("x".to_string(), TypeExpr::F64), ("y".to_string(), TypeExpr::F64)]);
        },
        _ => panic!("Coord is a struct"),
    }
    match &defs[4].def {
        TypeDefInner::TaggedEnum { def } => {
            assert_eq!(def.tag_field, "kind");
            let tags: Vec<&str> = def.variants.iter().map(|v| v.tag_value.as_str()).collect();
            assert_eq!(tags, vec!["Red", "Green", "Custom", "Named"]);
            assert!(def.variants[0].fields.is_empty());
            assert_eq!(
                def.variants[2].fields,
                vec![
                    ("r".to_string(), TypeExpr::U8),
                    ("g".to_string(), TypeExpr::U8),
                    ("b".to_string(), TypeExpr::U8),
                    ("alpha".to_string(), TypeExpr::Optional(Box::new(TypeExpr::U8))),
                ]
            );
            assert_eq!(
                def.variants[3].fields,
                vec![("name".to_string(), TypeExpr::String), ("hex".to_string(), TypeExpr::String)]
            );
        },
        _ => panic!("Color is a tagged enum"),
    }
    match &defs[5].def {
        TypeDefInner::StringEnum { variants } => assert_eq!(variants, &vec!["Up", "Down", "Left", "Right"]),
        _ => panic!("Direction is a string enum"),
    }
    match &defs[6].def {
        TypeDefInner::Struct { fields } => {
            assert_eq!(fields.len(), 9);
            assert_eq!(fields[0].1, TypeExpr::Optional(Box::new(TypeExpr::U32)));
            assert_eq!(fields[4].1, TypeExpr::Tuple(vec![TypeExpr::U32, TypeExpr::Struct("Coord".to_string())]));
            assert_eq!(fields[7].1, TypeExpr::Record(Box::new(TypeExpr::String)));
            assert_eq!(
                fields[8].1,
                TypeExpr::Tuple(vec![
                    TypeExpr::Struct("Coord".to_string()),
                    TypeExpr::Struct("Shape".to_string()),
                    TypeExpr::TaggedEnum("CustomResult".to_string()),
                    TypeExpr::TaggedEnum("Color".to_string()),
                    TypeExpr::StringEnum("Direction".to_string()),
                ])
            );
        },
        _ => panic!("Dummy is a struct"),
    }
}

#[test]
fn converts_api_types() {
    let g = graph();
    assert_eq!(ty(&g, F32), TypeExpr::F32);
    assert_eq!(ty(&g, USIZE), TypeExpr::U64);
    assert_eq!(ty(&g, PATHBUF), TypeExpr::String);
    assert_eq!(ty(&g, BOOL), TypeExpr::Bool);
    assert_eq!(ty(&g, OPT_U32), TypeExpr::Optional(Box::new(TypeExpr::U32)));
    assert_eq!(ty(&g, MAP_COORD), TypeExpr::Record(Box::new(TypeExpr::Struct("Coord".to_string()))));
    assert_eq!(ty(&g, COLOR), TypeExpr::TaggedEnum("Color".to_string()));
    assert_eq!(ty(&g, DIRECTION), TypeExpr::StringEnum("Direction".to_string()));
}

#[test]
fn api_header_has_builders_and_parsers() {
    let h = rpc_h();
    assert!(h.contains("static inline tst_request_t* tst_build_create_shape(uint32_t _rpc_id, const char* name, tst_coord_t* origin, bool visible) {"));
    assert!(h.contains("static inline tst_request_t* tst_build_notify(const char* msg) {"));
    assert!(h.contains("static inline uint64_t tst_parse_get_size(tst_result_t* r) {"));
    assert!(h.contains("static inline tst_optional_u32_t tst_parse_get_selected_id(tst_result_t* r) {"));
    assert!(!h.contains("tst_parse_notify("));
    assert!(!h.contains("tst_parse_sleep("));
    assert!(h.contains("    TST_COLOR_CUSTOM,\n"));
    assert!(h.contains("    TST_DIRECTION_UP = 1,\n"));
}

#[test]
fn test_build_request() {
    let h = rpc_h();
    assert!(h.contains("static inline tst_request_t* tst_build_create_shape(uint32_t _rpc_id, const char* name, tst_coord_t* origin, bool visible) {\n    dc_json_doc_t doc = dc_json_doc_new();\n    dc_json_t req = dc_json_root(doc);\n    req = dc_json_add_to_object(req, \"jsonrpc\", dc_json_new_string(\"2.0\"));\n    req = dc_json_add_to_object(req, \"id\", dc_json_new_number((double)_rpc_id));\n    req = dc_json_add_to_object(req, \"method\", dc_json_new_string(\"create_shape\"));\n    dc_json_t params = dc_json_new_array();\n    dc_json_add_to_array(params, tst_string_to_json(name));\n    dc_json_add_to_array(params, tst_coord_to_json(origin));\n    dc_json_add_to_array(params, tst_bool_to_json(visible));\n    req = dc_json_add_to_object(req, \"params\", params);\n"));
}

#[test]
fn test_build_notification() {
    let h = rpc_h();
    let start = h.find("static inline tst_request_t* tst_build_notify(const char* msg) {").unwrap();
    let body = &h[start..start + h[start..].find("\n}\n").unwrap()];
    assert!(body.contains("dc_json_new_string(\"notify\")"));
    assert!(body.contains("    dc_json_add_to_array(params, tst_string_to_json(msg));\n"));
    assert!(!body.contains("\"id\""));
}

#[test]
fn test_parse_primitive() {
    let h = rpc_h();
    assert!(h.contains("    r->id = (uint32_t)dc_json_get_double(id);\n"));
    assert!(h.contains("static inline float tst_parse_add(tst_result_t* r) {\n    if (!r || r->error_code != 0) return 0;\n    float o;\n    if (tst_f32_from_json(r->result, &o)) {"));
    assert!(h.contains("static inline int tst_f32_from_json(dc_json_t v, float* r) {\n    if (!dc_json_is_number(v)) return -1;\n    *r = (float)dc_json_get_double(v);\n    return 0;\n}\n"));
}

#[test]
fn test_parse_string() {
    let h = rpc_h();
    assert!(h.contains("static inline const char* tst_parse_echo(tst_result_t* r) {\n    if (!r || r->error_code != 0) return \"\";\n"));
    assert!(h.contains("static inline int tst_string_from_json(dc_json_t v, const char** r) {\n    if (!dc_json_is_string(v)) return -1;\n    *r = dc_json_copy_string(v);\n    return 0;\n}\n"));
}

#[test]
fn test_color_new() {
    let h = rpc_h();
    assert!(h.contains("static inline tst_color_t* tst_color_new() {\n    tst_color_t* __result = (tst_color_t*)calloc(1, sizeof(tst_color_t));\n    return __result;\n}\n"));
    assert!(h.contains("    case TST_COLOR_NAMED:\n        tst_string_unref(o->data.named.name);\n        tst_string_unref(o->data.named.hex);\n        break;\n"));
}

#[test]
fn test_roundtrip_color_unit() {
    let h = rpc_h();
    assert!(h.contains("    if (dc_json_string_eq(_tag, \"Red\")) {\n        (*out)->kind = TST_COLOR_RED;\n"));
    assert!(h.contains("    case TST_COLOR_RED: {\n        obj = dc_json_add_to_object(obj, \"kind\", dc_json_new_string(\"Red\"));\n        break;\n    }\n"));
}

#[test]
fn test_roundtrip_color_struct() {
    let h = rpc_h();
    for f in ["r", "g", "b"] {
        assert!(h.contains(&format!(
            "    if (tst_u8_from_json(dc_json_get(json, \"{f}\"), &(*out)->data.custom.{f})) {{ tst_color_unref(*out); return -1; }};\n"
        )));
        assert!(h.contains(&format!(
            "        obj = dc_json_add_to_object(obj, \"{f}\", tst_u8_to_json(o->data.custom.{f}));\n"
        )));
    }
    assert!(h.contains("        obj = dc_json_add_to_object(obj, \"alpha\", tst_optional_u8_to_json(o->data.custom.alpha));\n"));
}

#[test]
fn test_roundtrip_color_optional_null() {
    let h = rpc_h();
    assert!(h.contains("static inline int tst_optional_u8_from_json(dc_json_t v, tst_optional_u8_t* r) {\n    if (!dc_json_is_valid(v) || dc_json_is_null(v)) {\n        *r = (tst_optional_u8_t){false, 0};\n        return 0;\n    }\n    if (tst_u8_from_json(v, &r->value)) { return -1; };\n    r->has_value = true;\n    return 0;\n}\n"));
    assert!(h.contains("    return o.has_value ? tst_u8_to_json(o.value) : dc_json_new_null();\n"));
}

#[test]
fn test_roundtrip_color_newtype_variant() {
    let h = rpc_h();
    assert!(h.contains("    } else if (dc_json_string_eq(_tag, \"Named\")) {\n        (*out)->kind = TST_COLOR_NAMED;\n"));
    assert!(h.contains("    if (tst_string_from_json(dc_json_get(json, \"hex\"), &(*out)->data.named.hex)) { tst_color_unref(*out); return -1; };\n"));
    assert!(h.contains("        obj = dc_json_add_to_object(obj, \"name\", tst_string_to_json(o->data.named.name));\n"));
}

#[test]
fn test_parse_error_response() {
    let h = rpc_h();
    assert!(h.contains("        r->error_code = dc_json_is_number(code) ? (int32_t)dc_json_get_double(code) : -32700;\n        r->error_message = dc_json_is_string(message) ? dc_json_copy_string(message) : strdup(\"Unknown error\");\n"));
}

#[test]
fn test_parse_type_mismatch_in_envelope() {
    let h = rpc_h();
    assert!(h.contains("    if (!dc_json_is_number(id)) {\n        r->error_code = -32700;\n"));
}

#[test]
fn test_parse_type_mismatch() {
    let h = rpc_h();
    assert!(h.contains("    if (tst_f32_from_json(r->result, &o)) {\n        r->error_code = -32700;\n        r->error_message = strdup(\"parse error\");\n        return 0;\n    }\n"));
}

#[test]
fn test_parse_array_primitive() {
    let h = rpc_h();
    assert!(h.contains("static inline tst_array_u32_t* tst_parse_get_ids(tst_result_t* r) {"));
    assert!(h.contains("static inline int tst_array_u32_from_json(dc_json_t v, tst_array_u32_t** r) {\n    if (!dc_json_is_array(v)) return -1;\n"));
    assert!(h.contains("        if (tst_u32_from_json(dc_json_array_iter_value(it), &(*r)->items[i])) { tst_array_u32_unref(*r); return -1; };\n"));
}

#[test]
fn test_parse_array_struct() {
    let h = rpc_h();
    assert!(h.contains("static inline tst_array_coord_t* tst_parse_get_points(tst_result_t* r) {"));
    assert!(h.contains("        if (tst_coord_from_json(dc_json_array_iter_value(it), &(*r)->items[i])) { tst_array_coord_unref(*r); return -1; };\n"));
}

#[test]
fn test_parse_optional_present() {
    let h = rpc_h();
    assert!(h.contains("static inline tst_optional_u32_t tst_parse_get_selected_id(tst_result_t* r) {"));
    assert!(h.contains("    if (tst_u32_from_json(v, &r->value)) { return -1; };\n    r->has_value = true;\n"));
}

#[test]
fn test_parse_optional_null() {
    let h = rpc_h();
    assert!(h.contains("    if (!dc_json_is_valid(v) || dc_json_is_null(v)) {\n        *r = (tst_optional_u32_t){false, 0};\n        return 0;\n    }\n"));
}

#[test]
fn test_parse_tuple() {
    let h = rpc_h();
    assert!(h.contains("static inline tst_tuple_u32_coord_t* tst_parse_send_msg(tst_result_t* r) {"));
    assert!(h.contains("    if (tst_u32_from_json(dc_json_array_iter_value(it), &(*r)->field_0)) { tst_tuple_u32_coord_unref(*r); return -1; };\n"));
    assert!(h.contains("    if (tst_coord_from_json(dc_json_array_iter_value(it), &(*r)->field_1)) { tst_tuple_u32_coord_unref(*r); return -1; };\n"));
}

#[test]
fn test_map_string_new() {
    let h = rpc_h();
    assert!(h.contains("static inline tst_map_string_t* tst_map_string_new(size_t len) {\n    tst_map_string_t* __result = (tst_map_string_t*)calloc(1, sizeof(tst_map_string_t));\n    __result->len = len;\n    __result->keys = (const char**)calloc(len, sizeof(char*));\n    __result->values = (const char**)calloc(len, sizeof(const char*));\n    return __result;\n}\n"));
}

#[test]
fn test_parse_map_string() {
    let h = rpc_h();
    assert!(h.contains("static inline tst_map_string_t* tst_parse_get_info(tst_result_t* r) {"));
    assert!(h.contains("        (*r)->keys[i] = dc_json_map_iter_copy_key(it);\n"));
    assert!(h.contains("        if (tst_string_from_json(dc_json_map_iter_value(it), &(*r)->values[i])) { tst_map_string_unref(*r); return -1; };\n"));
}

#[test]
fn test_parse_map_struct() {
    let h = rpc_h();
    assert!(h.contains("static inline tst_map_coord_t* tst_parse_get_coords_by_id(tst_result_t* r) {"));
    assert!(h.contains("        if (tst_coord_from_json(dc_json_map_iter_value(it), &(*r)->values[i])) { tst_map_coord_unref(*r); return -1; };\n"));
}

#[test]
fn test_pathbuf_and_usize() {
    let h = rpc_h();
    assert!(h.contains("static inline tst_request_t* tst_build_get_size(uint32_t _rpc_id, const char* path) {"));
    assert!(h.contains("static inline uint64_t tst_parse_get_size(tst_result_t* r) {"));
}

use yerpc::c::{checked_generate_header, generate_header, Method, TypeDef, TypeDefInner, TypeExpr};

fn coord_and_shape() -> (TypeDef, TypeDef) {
    let coord = TypeDef {
        name: "Coord".into(),
        def: TypeDefInner::Struct { fields: vec![("x".into(), TypeExpr::F64), ("y".into(), TypeExpr::F64)] },
    };
    let shape = TypeDef {
        name: "Shape".into(),
        def: TypeDefInner::Struct {
            fields: vec![
                ("name".into(), TypeExpr::String),
                ("origin".into(), TypeExpr::Struct("Coord".into())),
                ("points".into(), TypeExpr::Array(Box::new(TypeExpr::Struct("Coord".into())))),
                ("meta".into(), TypeExpr::Optional(Box::new(TypeExpr::Struct("Coord".into())))),
            ],
        },
    };
    (coord, shape)
}

#[test]
fn hardcoded_tests() {
    let ns = "tst_";
    let (coord, shape) = coord_and_shape();
    let defs = vec![coord, shape.clone()];
    let methods = vec![Method::new("ident", vec![("param".to_owned(), shape.as_ctype())], Some(shape.as_ctype()), false, true)];
    let h = generate_header(&methods, &defs, ns);
    assert!(h.contains("static inline tst_coord_t* tst_coord_new(double x, double y) {"));
    assert!(h.contains("static inline tst_shape_t* tst_shape_new(const char* name, tst_coord_t* origin, tst_array_coord_t* points, tst_coord_t* meta) {"));
    assert!(h.contains("static inline tst_array_coord_t* tst_array_coord_new(size_t len) {"));
    assert!(h.contains("static inline tst_request_t* tst_build_ident(uint32_t _rpc_id, tst_shape_t* param) {"));
    assert!(h.contains("    dc_json_add_to_array(params, tst_shape_to_json(param));\n"));
    assert!(h.contains("    req = dc_json_add_to_object(req, \"method\", dc_json_new_string(\"ident\"));\n"));
    assert!(h.contains("static inline tst_shape_t* tst_parse_ident(tst_result_t* r) {\n    if (!r || r->error_code != 0) return NULL;\n"));
    assert!(h.contains("tst_result_t* tst_parse_response(const char* json)"));
    assert!(h.contains("static inline void tst_result_unref(tst_result_t* r) {"));
    assert!(h.contains("    if (tst_coord_from_json(dc_json_get(json, \"origin\"), &(*out)->origin)) { tst_shape_unref(*out); return -1; };\n"));
    assert!(h.contains("    tst_array_coord_unref(o->points);\n"));
    assert_eq!(checked_generate_header(&methods, &defs, ns), Some(h));
}

#[test]
fn header_declares_parts_before_the_types_that_hold_them() {
    let (coord, shape) = coord_and_shape();
    let defs = vec![coord, shape];
    let held = TypeExpr::Array(Box::new(TypeExpr::Tuple(vec![TypeExpr::U32, TypeExpr::Struct("Coord".into())])));
    let methods = vec![Method::new("points", vec![], Some(held), false, true)];
    let h = generate_header(&methods, &defs, "tst_");
    let tuple_at = h.find("typedef struct tst_tuple_u32_coord {").unwrap();
    let array_at = h.find("typedef struct tst_array_tuple_u32_coord {").unwrap();
    assert!(tuple_at < array_at);
    assert_eq!(h.matches("typedef struct tst_tuple_u32_coord {").count(), 1);
}

#[test]
fn header_is_refused_for_void_types() {
    let methods = vec![Method::new("bad", vec![("a".to_string(), TypeExpr::Void)], None, false, true)];
    assert_eq!(checked_generate_header(&methods, &[], "tst_"), None);
    let methods = vec![Method::new("ok", vec![], Some(TypeExpr::Void), false, true)];
    assert!(checked_generate_header(&methods, &[], "tst_").is_some());
}

#[test]
fn notification_builder_has_no_id() {
    let m = Method::new("notifyAll", vec![("msg".to_string(), TypeExpr::String)], None, true, false);
    assert_eq!(m.c_name, "notify_all");
    assert_eq!(m.parse_fn("tst_"), None);
    assert_eq!(
        m.build_fn("tst_"),
        "static inline tst_request_t* tst_build_notify_all(const char* msg) {\n    dc_json_doc_t doc = dc_json_doc_new();\n    dc_json_t req = dc_json_root(doc);\n    req = dc_json_add_to_object(req, \"jsonrpc\", dc_json_new_string(\"2.0\"));\n    req = dc_json_add_to_object(req, \"method\", dc_json_new_string(\"notifyAll\"));\n    dc_json_t params = dc_json_new_object();\n    params = dc_json_add_to_object(params, \"msg\", tst_string_to_json(msg));\n    req = dc_json_add_to_object(req, \"params\", params);\n    tst_request_t* r = (tst_request_t*)calloc(1, sizeof(tst_request_t));\n    r->json = dc_json_print(req);\n    dc_json_doc_free(doc);\n    return r;\n}\n"
    );
}

#[test]
fn parse_fn_of_a_scalar_optional() {
    let m = Method::new("get_id", vec![], Some(TypeExpr::Optional(Box::new(TypeExpr::U32))), false, true);
    assert_eq!(
        m.parse_fn("tst_").unwrap(),
        "static inline tst_optional_u32_t tst_parse_get_id(tst_result_t* r) {\n    if (!r || r->error_code != 0) return (tst_optional_u32_t){false, 0};\n    tst_optional_u32_t o;\n    if (tst_optional_u32_from_json(r->result, &o)) {\n        r->error_code = -32700;\n        r->error_message = strdup(\"parse error\");\n        return (tst_optional_u32_t){false, 0};\n    }\n    return o;\n}\n"
    );
}

use yerpc::c::{
    collect_type_defs, generate_header, get_string_enum_variants, parse_internally_tagged_union, Method, TypeDef,
    TypeDefInner, TypeExpr,
};
use yerpc::procedure::{extract_method_io, extract_result_ty, Inputs, PathArguments, PathSegment, RemoteProcedure, RustType};
use yerpc::ts::{
    DefinedTypeInfo, NativeTypeInfo, ObjectField, TypeDefinition, TypeExpr as Ts, TypeGraph, TypeInfo, TypeName,
    TypeObject, TypeString, TypeUnion,
};

fn name(n: &str) -> Ts {
    Ts::Name(TypeName { name: n.to_string(), generic_args: vec![] })
}

fn defined(n: &str, e: Ts, args: Vec<Ts>) -> TypeInfo {
    TypeInfo::Defined(DefinedTypeInfo { def: TypeDefinition { name: n.to_string(), def: e }, generic_args: args })
}

fn field(n: &str, t: Ts, optional: bool) -> ObjectField {
    ObjectField { name: TypeString { value: n.to_string() }, optional, ty: t }
}

fn obj(fields: Vec<ObjectField>) -> Ts {
    Ts::Object(TypeObject { has_index_signature: false, fields })
}

#[test]
fn scalars_are_never_freed() {
    for t in [
        TypeExpr::Bool,
        TypeExpr::I8,
        TypeExpr::I16,
        TypeExpr::I32,
        TypeExpr::I64,
        TypeExpr::U8,
        TypeExpr::U16,
        TypeExpr::U32,
        TypeExpr::U64,
        TypeExpr::F32,
        TypeExpr::F64,
        TypeExpr::StringEnum("Mode".to_string()),
    ] {
        assert!(t.is_scalar());
        assert!(!t.needs_heap_free());
    }
}

#[test]
fn definition_functions_use_the_type_id() {
    let d = TypeDef {
        name: "MyPoint".to_string(),
        def: TypeDefInner::Struct { fields: vec![("x".to_string(), TypeExpr::I32)] },
    };
    assert_eq!(d.as_ctype().id("tst_"), "tst_my_point");
    let h = generate_header(&[], &[d], "tst_");
    assert!(h.contains("typedef struct tst_my_point tst_my_point_t;"));
    assert!(h.contains("static inline void tst_my_point_unref(tst_my_point_t* o) {"));
}

#[test]
fn parser_exists_exactly_for_answered_outputs() {
    let with_output = Method::new("get", vec![], Some(TypeExpr::U8), false, true);
    assert!(with_output.parse_fn("tst_").is_some());
    let notification = Method::new("tell", vec![], Some(TypeExpr::U8), true, true);
    assert!(notification.parse_fn("tst_").is_none());
    let void = Method::new("run", vec![], Some(TypeExpr::Void), false, true);
    assert!(void.output.is_none());
    assert!(void.parse_fn("tst_").is_none());
}

#[test]
fn nested_types_are_declared_once_after_their_parts() {
    let nested = TypeExpr::Optional(Box::new(TypeExpr::Array(Box::new(TypeExpr::Record(Box::new(TypeExpr::U8))))));
    let methods = vec![
        Method::new("a", vec![("x".to_string(), nested)], None, false, true),
        Method::new("b", vec![], Some(TypeExpr::Array(Box::new(TypeExpr::Record(Box::new(TypeExpr::U8))))), false, true),
    ];
    let h = generate_header(&methods, &[], "tst_");
    let map_at = h.find("typedef struct tst_map_u8 {").unwrap();
    let array_at = h.find("typedef struct tst_array_map_u8 {").unwrap();
    assert!(map_at < array_at);
    assert_eq!(h.matches("typedef struct tst_array_map_u8 {").count(), 1);
    assert_eq!(h.matches("static inline tst_array_map_u8_t* tst_array_map_u8_new(size_t len) {").count(), 1);
}

#[test]
fn string_literal_unions_are_string_enums() {
    let g = TypeGraph { infos: vec![] };
    let u = TypeUnion {
        members: vec![Ts::String(TypeString { value: "on".to_string() }), Ts::String(TypeString { value: "off".to_string() })],
    };
    assert!(get_string_enum_variants(&u).is_some());
    assert!(parse_internally_tagged_union(&g, &u).is_none());
}

#[test]
fn optional_fields_are_optional() {
    let g = TypeGraph {
        infos: vec![
            defined("U32", name("number"), vec![]),
            defined(
                "Opts",
                obj(vec![field("limit", Ts::Ref(0), true), field("name", name("string"), false)]),
                vec![],
            ),
        ],
    };
    let defs = collect_type_defs(&g, 1);
    match &defs[0].def {
        TypeDefInner::Struct { fields } => {
            assert_eq!(fields[0].1, TypeExpr::Optional(Box::new(TypeExpr::U32)));
            assert_eq!(fields[1].1, TypeExpr::String);
        },
        _ => panic!("Opts is a struct"),
    }
}

#[test]
fn references_name_the_collected_definition() {
    let g = TypeGraph {
        infos: vec![
            defined("Point", obj(vec![field("x", name("number"), false)]), vec![]),
            defined("Flag", Ts::Union(TypeUnion { members: vec![Ts::String(TypeString { value: "up".to_string() })] }), vec![]),
            TypeInfo::Native(NativeTypeInfo {
                expr: Ts::Tuple(yerpc::ts::TypeTuple { elements: vec![Ts::Ref(0), Ts::Ref(1)] }),
            }),
        ],
    };
    let defs = collect_type_defs(&g, 2);
    assert_eq!(defs.len(), 2);
    assert_eq!(TypeExpr::from_info(&g, 0), defs[0].as_ctype());
    assert_eq!(TypeExpr::from_info(&g, 1), defs[1].as_ctype());
}

#[test]
fn each_definition_is_collected_once() {
    let g = TypeGraph {
        infos: vec![
            TypeInfo::Native(NativeTypeInfo { expr: name("string") }),
            TypeInfo::Native(NativeTypeInfo { expr: name("boolean") }),
            defined("Pair", obj(vec![field("a", name("T"), false)]), vec![Ts::Ref(0)]),
            defined("Pair", obj(vec![field("a", name("T"), false)]), vec![Ts::Ref(1)]),
            defined("Both", obj(vec![field("p", Ts::Ref(2), false), field("q", Ts::Ref(3), false)]), vec![]),
        ],
    };
    assert!(g.is_well_formed());
    let defs = collect_type_defs(&g, 4);
    let names: Vec<&str> = defs.iter().map(|d| d.name.as_str()).collect();
    assert_eq!(names, vec!["Pair", "Both"]);
}

#[test]
fn unowned_types_are_viewed_as_themselves() {
    for t in [TypeExpr::U32, TypeExpr::Bool, TypeExpr::Optional(Box::new(TypeExpr::I8))] {
        assert_eq!(t.cpp_view_type("tst_"), t.cpp_type("tst_"));
    }
    assert_eq!(TypeExpr::String.cpp_type("tst_"), TypeExpr::String.c_type("tst_"));
}

#[test]
fn only_results_are_unwrapped() {
    let t = RustType {
        tokens: "Vec < u8 >".to_string(),
        path: Some(vec![PathSegment { ident: "Vec".to_string(), arguments: PathArguments::Empty }]),
    };
    assert!(std::ptr::eq(extract_result_ty(&t), &t));
    let m = RemoteProcedure { name: "n".to_string(), input: Inputs::Structured(None), output: Some(t), is_notification: true };
    let mut types: Vec<&RustType> = Vec::new();
    let (_, _, output) = extract_method_io(&m, &mut types, |n| n);
    assert!(output.is_none());
}

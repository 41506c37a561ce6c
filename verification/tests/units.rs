use yerpc::c::{
    collect_type_defs, get_string_enum_variants, is_string_enum, parse_internally_tagged_union, resolve_to_object,
    try_collect_type_defs, EnumDef, EnumVariant, Method, TypeDef, TypeDefInner, TypeExpr,
};
use yerpc::procedure::{
    extract_method_io, extract_result_ty, is_result_ty, GenericArgument, Input, Inputs, PathArguments, PathSegment,
    RemoteProcedure, RustType,
};
use yerpc::ts::{
    DefinedTypeInfo, NativeTypeInfo, ObjectField, TypeArray, TypeDefinition, TypeExpr as Ts, TypeGraph, TypeInfo,
    TypeIntersection, TypeName, TypeObject, TypeString, TypeTuple, TypeUnion,
};

fn name(n: &str) -> Ts {
    Ts::Name(TypeName { name: n.to_string(), generic_args: vec![] })
}

fn lit(s: &str) -> Ts {
    Ts::String(TypeString { value: s.to_string() })
}

fn native(e: Ts) -> TypeInfo {
    TypeInfo::Native(NativeTypeInfo { expr: e })
}

fn defined(n: &str, e: Ts) -> TypeInfo {
    TypeInfo::Defined(DefinedTypeInfo { def: TypeDefinition { name: n.to_string(), def: e }, generic_args: vec![] })
}

fn field(n: &str, t: Ts) -> ObjectField {
    ObjectField { name: TypeString { value: n.to_string() }, optional: false, ty: t }
}

fn obj(fields: Vec<ObjectField>) -> Ts {
    Ts::Object(TypeObject { has_index_signature: false, fields })
}

fn tag(key: &str, v: &str) -> Ts {
    obj(vec![field(key, lit(v))])
}

fn union(members: Vec<Ts>) -> TypeUnion {
    TypeUnion { members }
}

fn coord() -> TypeExpr {
    TypeExpr::Struct("Coord".to_string())
}

#[test]
fn type_slugs() {
    assert_eq!(TypeExpr::U32.type_slug(), "u32");
    assert_eq!(TypeExpr::Array(Box::new(TypeExpr::U32)).type_slug(), "array_u32");
    assert_eq!(TypeExpr::Tuple(vec![TypeExpr::U32, coord()]).type_slug(), "tuple_u32_coord");
    assert_eq!(TypeExpr::Record(Box::new(TypeExpr::Array(Box::new(TypeExpr::Bool)))).type_slug(), "map_array_bool");
    assert_eq!(TypeExpr::Optional(Box::new(TypeExpr::String)).type_slug(), "optional_string");
    assert_eq!(TypeExpr::StringEnum("MyColor".to_string()).type_slug(), "my_color");
    assert_eq!(TypeExpr::Optional(Box::new(coord())).id("tst_"), "tst_optional_coord");
}

#[test]
fn c_types() {
    assert_eq!(TypeExpr::I16.c_type("tst_"), "int16_t");
    assert_eq!(TypeExpr::F32.c_type("tst_"), "float");
    assert_eq!(TypeExpr::String.c_type("tst_"), "const char*");
    assert_eq!(TypeExpr::Optional(Box::new(TypeExpr::U8)).c_type("tst_"), "tst_optional_u8_t");
    assert_eq!(TypeExpr::Optional(Box::new(coord())).c_type("tst_"), "tst_coord_t*");
    assert_eq!(TypeExpr::StringEnum("Direction".to_string()).c_type("tst_"), "tst_direction_t");
    assert_eq!(TypeExpr::Record(Box::new(TypeExpr::U32)).c_type("tst_"), "tst_map_u32_t*");
}

#[test]
fn zero_values() {
    assert_eq!(TypeExpr::Bool.zero_val("tst_"), "false");
    assert_eq!(TypeExpr::StringEnum("Direction".to_string()).zero_val("tst_"), "TST_DIRECTION_UNPARSED");
    assert_eq!(TypeExpr::Optional(Box::new(TypeExpr::U8)).zero_val("tst_"), "(tst_optional_u8_t){false, 0}");
    assert_eq!(TypeExpr::Optional(Box::new(coord())).zero_val("tst_"), "0");
    assert_eq!(TypeExpr::String.zero_val("tst_"), "\"\"");
    assert_eq!(TypeExpr::Array(Box::new(TypeExpr::U8)).zero_val("tst_"), "NULL");
    assert_eq!(TypeExpr::I64.zero_val("tst_"), "0");
}

#[test]
fn type_kinds() {
    assert!(TypeExpr::StringEnum("D".to_string()).is_scalar());
    assert!(!TypeExpr::String.is_scalar());
    assert!(TypeExpr::Optional(Box::new(TypeExpr::String)).needs_heap_free());
    assert!(!TypeExpr::Optional(Box::new(TypeExpr::U8)).needs_heap_free());
    assert!(TypeExpr::TaggedEnum("C".to_string()).has_type_def());
    assert!(!TypeExpr::Array(Box::new(coord())).has_type_def());
}

#[test]
fn cpp_types() {
    assert_eq!(TypeExpr::U32.cpp_type("tst_"), "uint32_t");
    assert_eq!(TypeExpr::Array(Box::new(TypeExpr::U32)).cpp_type("tst_"), "ArrayU32");
    assert_eq!(TypeExpr::Array(Box::new(TypeExpr::U32)).cpp_view_type("tst_"), "ArrayU32View");
    assert_eq!(TypeExpr::Optional(Box::new(TypeExpr::U32)).cpp_view_type("tst_"), "OptionalU32");
    assert_eq!(TypeExpr::Optional(Box::new(TypeExpr::String)).cpp_view_type("tst_"), "OptionalStringView");
    assert_eq!(TypeExpr::String.cpp_view_type("tst_"), "const char*");
}

#[test]
fn method_new_drops_void_output() {
    let m = Method::new("getThing", vec![], Some(TypeExpr::Void), false, true);
    assert_eq!(m.output, None);
    assert_eq!(m.c_name, "get_thing");
    assert_eq!(m.rpc_name, "getThing");
    assert_eq!(m.parse_fn("x_"), None);
}

#[test]
fn type_def_field_types() {
    let e = TypeDef {
        name: "Event".to_string(),
        def: TypeDefInner::TaggedEnum {
            def: EnumDef {
                tag_field: "kind".to_string(),
                variants: vec![
                    EnumVariant { tag_value: "A".to_string(), fields: vec![("x".to_string(), TypeExpr::U8)] },
                    EnumVariant { tag_value: "B".to_string(), fields: vec![] },
                    EnumVariant { tag_value: "C".to_string(), fields: vec![("y".to_string(), TypeExpr::String)] },
                ],
            },
        },
    };
    assert_eq!(e.field_ctypes(), vec![TypeExpr::U8, TypeExpr::String]);
    assert_eq!(e.as_ctype(), TypeExpr::TaggedEnum("Event".to_string()));
    let s = TypeDef { name: "Mode".to_string(), def: TypeDefInner::StringEnum { variants: vec!["On".to_string()] } };
    assert_eq!(s.field_ctypes(), vec![]);
    assert_eq!(s.as_ctype(), TypeExpr::StringEnum("Mode".to_string()));
}

#[test]
fn string_enums() {
    let u = union(vec![lit("a"), lit("b")]);
    assert!(is_string_enum(&u));
    assert_eq!(get_string_enum_variants(&u), Some(vec!["a".to_string(), "b".to_string()]));
    let mixed = union(vec![lit("a"), name("null")]);
    assert!(!is_string_enum(&mixed));
    assert_eq!(get_string_enum_variants(&mixed), None);
    assert!(!is_string_enum(&union(vec![])));
}

#[test]
fn conversion_of_expressions() {
    let g = TypeGraph {
        infos: vec![
            native(name("string")),
            native(Ts::Union(union(vec![Ts::Ref(0), name("null")]))),
            native(Ts::Union(union(vec![name("null")]))),
            native(Ts::Tuple(TypeTuple { elements: vec![] })),
            native(Ts::Name(TypeName { name: "Record".to_string(), generic_args: vec![name("string"), name("boolean")] })),
            native(name("Whatever")),
            native(Ts::Array(TypeArray { item: Box::new(lit("x")) })),
            defined("Alias", Ts::Ref(1)),
        ],
    };
    assert!(g.is_well_formed());
    assert_eq!(TypeExpr::from_info(&g, 1), TypeExpr::Optional(Box::new(TypeExpr::String)));
    assert_eq!(TypeExpr::from_info(&g, 2), TypeExpr::Void);
    assert_eq!(TypeExpr::from_info(&g, 3), TypeExpr::Void);
    assert_eq!(TypeExpr::from_info(&g, 4), TypeExpr::Record(Box::new(TypeExpr::Bool)));
    assert_eq!(TypeExpr::from_info(&g, 5), TypeExpr::Struct("Whatever".to_string()));
    assert_eq!(TypeExpr::from_info(&g, 6), TypeExpr::Array(Box::new(TypeExpr::String)));
    assert_eq!(TypeExpr::from_info(&g, 7), TypeExpr::Optional(Box::new(TypeExpr::String)));
    let two = TypeGraph { infos: vec![native(Ts::Union(union(vec![name("string"), name("number")])))] };
    assert_eq!(TypeExpr::from_info(&two, 0), TypeExpr::Void);
    let undefined = TypeGraph { infos: vec![native(Ts::Union(union(vec![name("undefined"), name("null")])))] };
    assert_eq!(TypeExpr::from_info(&undefined, 0), TypeExpr::Optional(Box::new(TypeExpr::Void)));
}

#[test]
fn ill_formed_graphs_are_detected() {
    let loops = TypeGraph { infos: vec![native(Ts::Ref(0))] };
    assert!(!loops.is_well_formed());
    let dangling = TypeGraph { infos: vec![defined("A", obj(vec![field("x", Ts::Ref(5))]))] };
    assert!(!dangling.is_well_formed());
    let recursive = TypeGraph { infos: vec![defined("Node", obj(vec![field("next", Ts::Ref(0))]))] };
    assert!(recursive.is_well_formed());
    let defs = collect_type_defs(&recursive, 0);
    assert_eq!(defs.len(), 1);
    assert_eq!(defs[0].name, "Node");
}

#[test]
fn tagged_unions() {
    let g = TypeGraph {
        infos: vec![
            native(name("string")),
            defined("Payload", obj(vec![field("text", Ts::Ref(0))])),
        ],
    };
    let u = union(vec![
        tag("type", "Empty"),
        Ts::Intersection(TypeIntersection { members: vec![tag("type", "Full"), Ts::Ref(1)] }),
    ]);
    let def = parse_internally_tagged_union(&g, &u).unwrap();
    assert_eq!(def.tag_field, "type");
    assert_eq!(def.variants.len(), 2);
    assert_eq!(def.variants[0].tag_value, "Empty");
    assert!(def.variants[0].fields.is_empty());
    assert_eq!(def.variants[1].tag_value, "Full");
    assert_eq!(def.variants[1].fields, vec![("text".to_string(), TypeExpr::String)]);
    let mismatched = union(vec![tag("type", "A"), tag("kind", "B")]);
    assert!(parse_internally_tagged_union(&g, &mismatched).is_none());
    let not_tagged = union(vec![obj(vec![field("a", lit("x")), field("b", lit("y"))])]);
    assert!(parse_internally_tagged_union(&g, &not_tagged).is_none());
    assert!(parse_internally_tagged_union(&g, &union(vec![])).is_none());
    assert!(resolve_to_object(&g, &Ts::Ref(1)).is_some());
    assert!(resolve_to_object(&g, &Ts::Ref(0)).is_none());
}

#[test]
fn unconvertible_union_is_refused() {
    let g = TypeGraph {
        infos: vec![
            native(name("string")),
            defined("Odd", Ts::Union(union(vec![Ts::Ref(0), name("number")]))),
        ],
    };
    assert!(try_collect_type_defs(&g, 1).is_none());
}

#[test]
fn index_only_objects_and_aliases_are_left_out() {
    let g = TypeGraph {
        infos: vec![
            native(name("string")),
            defined("Bag", Ts::Object(TypeObject { has_index_signature: true, fields: vec![] })),
            defined("Name", Ts::Ref(0)),
            defined("Holder", obj(vec![field("bag", Ts::Ref(1)), field("name", Ts::Ref(2))])),
        ],
    };
    assert!(g.is_well_formed());
    let defs = try_collect_type_defs(&g, 3).unwrap();
    assert_eq!(defs.len(), 1);
    assert_eq!(defs[0].name, "Holder");
}

fn path_type(tokens: &str, ident: &str, args: Vec<GenericArgument>) -> RustType {
    let arguments = if args.is_empty() { PathArguments::Empty } else { PathArguments::AngleBracketed(args) };
    RustType {
        tokens: tokens.to_string(),
        path: Some(vec![PathSegment { ident: ident.to_string(), arguments }]),
    }
}

#[test]
fn result_types() {
    let res = path_type(
        "Result < u32 , Error >",
        "Result",
        vec![GenericArgument::Type(path_type("u32", "u32", vec![])), GenericArgument::Type(path_type("Error", "Error", vec![]))],
    );
    assert!(is_result_ty(&res));
    assert_eq!(extract_result_ty(&res).tokens, "u32");
    let plain = path_type("String", "String", vec![]);
    assert!(!is_result_ty(&plain));
    assert_eq!(extract_result_ty(&plain).tokens, "String");
    let bare = path_type("Result", "Result", vec![]);
    assert!(is_result_ty(&bare));
    assert_eq!(extract_result_ty(&bare).tokens, "Result");
    let other = RustType { tokens: "& str".to_string(), path: None };
    assert!(!is_result_ty(&other));
}

#[test]
fn method_io() {
    let m = RemoteProcedure {
        name: "send".to_string(),
        input: Inputs::Positional(vec![
            Input { ident: Some("chat".to_string()), ty: path_type("u32", "u32", vec![]) },
            Input { ident: None, ty: path_type("String", "String", vec![]) },
        ]),
        output: Some(path_type(
            "Result < bool >",
            "Result",
            vec![GenericArgument::Type(path_type("bool", "bool", vec![]))],
        )),
        is_notification: false,
    };
    let mut types: Vec<&RustType> = Vec::new();
    let (positional, args, output) = extract_method_io(&m, &mut types, |n| n);
    assert!(positional);
    let names: Vec<&str> = args.iter().map(|a| a.0.as_str()).collect();
    assert_eq!(names, vec!["chat", "arg2"]);
    assert_eq!(output.unwrap().tokens, "bool");
    let toks: Vec<&str> = types.iter().map(|t| t.tokens.as_str()).collect();
    assert_eq!(toks, vec!["u32", "String", "bool"]);

    let n = RemoteProcedure {
        name: "ping".to_string(),
        input: Inputs::Structured(Some(Input { ident: None, ty: path_type("Ping", "Ping", vec![]) })),
        output: Some(path_type("u8", "u8", vec![])),
        is_notification: true,
    };
    let mut types: Vec<&RustType> = Vec::new();
    let (positional, args, output) = extract_method_io(&n, &mut types, |s| s.to_uppercase());
    assert!(!positional);
    assert_eq!(args.len(), 1);
    assert_eq!(args[0].0, "PARAMS");
    assert!(output.is_none());
    assert_eq!(types.len(), 1);

    let e = RemoteProcedure { name: "e".to_string(), input: Inputs::Structured(None), output: None, is_notification: false };
    let mut types: Vec<&RustType> = Vec::new();
    let (positional, args, output) = extract_method_io(&e, &mut types, |n| n);
    assert!(!positional && args.is_empty() && output.is_none() && types.is_empty());
}

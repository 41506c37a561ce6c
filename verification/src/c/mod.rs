use vstd::prelude::*;

pub mod convert;
pub mod type_def;
pub use convert::{
    collect_type_defs, get_string_enum_variants, is_string_enum, parse_internally_tagged_union, resolve_to_object,
    try_collect_type_defs,
};
pub use type_def::{EnumDef, EnumVariant, TypeDef, TypeDefInner};
use crate::text::{
    case_converted, concat_map, concat_mapi, decimal, decimal_string, join_map, join_mapi,
    lemma_concat_map_step, lemma_join_mapi_step,
    lemma_concat_mapi_step, lemma_join_map_step, lemma_take_all, to_case, to_uppercase, uppercased,
    CaseStyle,
};
use type_def::{strings_view, fields_view, FieldModel};

verus! {

/// A C-side type, as the generated bindings see it.
#[derive(Debug, PartialEq, Eq)]
pub enum TypeExpr {
    Void,
    Bool,
    I8,
    I16,
    I32,
    I64,
    U8,
    U16,
    U32,
    U64,
    F32,
    F64,
    String,
    Optional(Box<TypeExpr>),
    Array(Box<TypeExpr>),
    Struct(String),
    TaggedEnum(String),
    StringEnum(String),
    Tuple(Vec<TypeExpr>),
    Record(Box<TypeExpr>),
}

/// The mathematical value of a [`TypeExpr`].
pub enum CType {
    Void,
    Bool,
    I8,
    I16,
    I32,
    I64,
    U8,
    U16,
    U32,
    U64,
    F32,
    F64,
    String,
    Optional(Box<CType>),
    Array(Box<CType>),
    Struct(Seq<char>),
    TaggedEnum(Seq<char>),
    StringEnum(Seq<char>),
    Tuple(Seq<CType>),
    Record(Box<CType>),
}

pub open spec fn views_of(s: Seq<TypeExpr>) -> Seq<CType>
    decreases s,
{
    if s.len() == 0 {
        Seq::empty()
    } else {
        views_of(s.drop_last()).push(view_of(s.last()))
    }
}

pub open spec fn view_of(t: TypeExpr) -> CType
    decreases t,
{
    match t {
        TypeExpr::Void => CType::Void,
        TypeExpr::Bool => CType::Bool,
        TypeExpr::I8 => CType::I8,
        TypeExpr::I16 => CType::I16,
        TypeExpr::I32 => CType::I32,
        TypeExpr::I64 => CType::I64,
        TypeExpr::U8 => CType::U8,
        TypeExpr::U16 => CType::U16,
        TypeExpr::U32 => CType::U32,
        TypeExpr::U64 => CType::U64,
        TypeExpr::F32 => CType::F32,
        TypeExpr::F64 => CType::F64,
        TypeExpr::String => CType::String,
        TypeExpr::Optional(b) => CType::Optional(Box::new(view_of(*b))),
        TypeExpr::Array(b) => CType::Array(Box::new(view_of(*b))),
        TypeExpr::Struct(s) => CType::Struct(s@),
        TypeExpr::TaggedEnum(s) => CType::TaggedEnum(s@),
        TypeExpr::StringEnum(s) => CType::StringEnum(s@),
        TypeExpr::Tuple(v) => CType::Tuple(views_of(v@)),
        TypeExpr::Record(b) => CType::Record(Box::new(view_of(*b))),
    }
}

impl View for TypeExpr {
    type V = CType;

    open spec fn view(&self) -> CType {
        view_of(*self)
    }
}

/// The type's name in generated identifiers, e.g. `array_optional_u32`.
pub open spec fn slug(t: CType) -> Seq<char>
    decreases t,
{
    match t {
        CType::Void => "void"@,
        CType::Bool => "bool"@,
        CType::I8 => "i8"@,
        CType::I16 => "i16"@,
        CType::I32 => "i32"@,
        CType::I64 => "i64"@,
        CType::U8 => "u8"@,
        CType::U16 => "u16"@,
        CType::U32 => "u32"@,
        CType::U64 => "u64"@,
        CType::F32 => "f32"@,
        CType::F64 => "f64"@,
        CType::String => "string"@,
        CType::Struct(s) => case_converted(s, CaseStyle::Snake),
        CType::TaggedEnum(s) => case_converted(s, CaseStyle::Snake),
        CType::StringEnum(s) => case_converted(s, CaseStyle::Snake),
        CType::Array(inner) => "array_"@ + slug(*inner),
        CType::Record(v) => "map_"@ + slug(*v),
        CType::Tuple(elems) => "tuple_"@ + slug_list(elems),
        CType::Optional(inner) => "optional_"@ + slug(*inner),
    }
}

/// The slugs of the elements, joined by `_`.
pub open spec fn slug_list(elems: Seq<CType>) -> Seq<char>
    decreases elems,
{
    if elems.len() == 0 {
        Seq::empty()
    } else if elems.len() == 1 {
        slug(elems[0])
    } else {
        slug_list(elems.drop_last()) + "_"@ + slug(elems.last())
    }
}

pub open spec fn is_scalar(t: CType) -> bool {
    match t {
        CType::Bool | CType::StringEnum(_) | CType::I8 | CType::I16 | CType::I32 | CType::I64
        | CType::U8 | CType::U16 | CType::U32 | CType::U64 | CType::F32 | CType::F64 => true,
        _ => false,
    }
}

pub open spec fn needs_heap_free(t: CType) -> bool
    decreases t,
{
    match t {
        CType::String | CType::Struct(_) | CType::TaggedEnum(_) | CType::Array(_)
        | CType::Record(_) | CType::Tuple(_) => true,
        CType::Optional(inner) => needs_heap_free(*inner),
        _ => false,
    }
}

pub open spec fn has_type_def(t: CType) -> bool {
    match t {
        CType::Struct(_) | CType::TaggedEnum(_) | CType::StringEnum(_) => true,
        _ => false,
    }
}

/// The identifier prefix of the type's generated functions.
pub open spec fn type_id(t: CType, ns: Seq<char>) -> Seq<char> {
    ns + slug(t)
}

/// The type as written in C.
pub open spec fn c_type(t: CType, ns: Seq<char>) -> Seq<char>
    decreases t,
{
    match t {
        CType::Void => "void"@,
        CType::Bool => "bool"@,
        CType::I8 => "int8_t"@,
        CType::I16 => "int16_t"@,
        CType::I32 => "int32_t"@,
        CType::I64 => "int64_t"@,
        CType::U8 => "uint8_t"@,
        CType::U16 => "uint16_t"@,
        CType::U32 => "uint32_t"@,
        CType::U64 => "uint64_t"@,
        CType::F32 => "float"@,
        CType::F64 => "double"@,
        CType::String => "const char*"@,
        CType::Struct(_) | CType::TaggedEnum(_) | CType::Array(_) | CType::Record(_)
        | CType::Tuple(_) => ns + slug(t) + "_t*"@,
        CType::StringEnum(_) => ns + slug(t) + "_t"@,
        CType::Optional(inner) => if is_scalar(*inner) {
            ns + slug(t) + "_t"@
        } else {
            c_type(*inner, ns)
        },
    }
}

/// The C expression for an absent or failed value of the type.
pub open spec fn zero_val(t: CType, ns: Seq<char>) -> Seq<char>
    decreases t,
{
    match t {
        CType::Bool => "false"@,
        CType::StringEnum(s) => uppercased(ns) + uppercased(case_converted(s, CaseStyle::Snake))
            + "_UNPARSED"@,
        CType::Optional(inner) => if is_scalar(*inner) {
            "("@ + ns + "optional_"@ + slug(*inner) + "_t){false, "@ + zero_val(*inner, ns) + "}"@
        } else {
            "0"@
        },
        CType::String => "\"\""@,
        CType::Struct(_) | CType::Array(_) | CType::Tuple(_) | CType::Record(_) => "NULL"@,
        _ => "0"@,
    }
}

pub proof fn lemma_views_of_take(s: Seq<TypeExpr>, i: int)
    requires
        0 <= i < s.len(),
    ensures
        views_of(s.take(i + 1)) == views_of(s.take(i)).push(view_of(s[i])),
{
    assert(s.take(i + 1).drop_last() =~= s.take(i));
}

pub proof fn lemma_views_of_push(s: Seq<TypeExpr>, x: TypeExpr)
    ensures
        views_of(s.push(x)) == views_of(s).push(view_of(x)),
{
    assert(s.push(x).drop_last() =~= s);
}

pub proof fn lemma_views_of_len(s: Seq<TypeExpr>)
    ensures
        views_of(s).len() == s.len(),
        forall|i: int| 0 <= i < s.len() ==> #[trigger] views_of(s)[i] == view_of(s[i]),
    decreases s.len(),
{
    if s.len() > 0 {
        lemma_views_of_len(s.drop_last());
    }
}

impl Clone for TypeExpr {
    fn clone(&self) -> (r: TypeExpr)
        ensures
            r@ == self@,
    {
        self.copied()
    }
}

impl TypeExpr {
    /// A copy of the type with the same value.
    #[verifier::loop_isolation(false)]
    pub fn copied(&self) -> (r: TypeExpr)
        ensures
            r@ == self@,
        decreases self,
    {
        match self {
            TypeExpr::Void => TypeExpr::Void,
            TypeExpr::Bool => TypeExpr::Bool,
            TypeExpr::I8 => TypeExpr::I8,
            TypeExpr::I16 => TypeExpr::I16,
            TypeExpr::I32 => TypeExpr::I32,
            TypeExpr::I64 => TypeExpr::I64,
            TypeExpr::U8 => TypeExpr::U8,
            TypeExpr::U16 => TypeExpr::U16,
            TypeExpr::U32 => TypeExpr::U32,
            TypeExpr::U64 => TypeExpr::U64,
            TypeExpr::F32 => TypeExpr::F32,
            TypeExpr::F64 => TypeExpr::F64,
            TypeExpr::String => TypeExpr::String,
            TypeExpr::Optional(b) => TypeExpr::Optional(Box::new(b.copied())),
            TypeExpr::Array(b) => TypeExpr::Array(Box::new(b.copied())),
            TypeExpr::Struct(s) => TypeExpr::Struct(s.clone()),
            TypeExpr::TaggedEnum(s) => TypeExpr::TaggedEnum(s.clone()),
            TypeExpr::StringEnum(s) => TypeExpr::StringEnum(s.clone()),
            TypeExpr::Tuple(v) => {
                let mut r: Vec<TypeExpr> = Vec::new();
                let mut i: usize = 0;
                while i < v.len()
                    invariant
                        i <= v.len(),
                        views_of(r@) == views_of(v@.take(i as int)),
                    decreases v.len() - i,
                {
                    proof {
                        assert(decreases_to!(*self => *v));
                        assert(decreases_to!(*v => v@));
                        assert(decreases_to!(v@ => v@[i as int]));
                    }
                    let e = v[i].copied();
                    proof {
                        lemma_views_of_take(v@, i as int);
                        lemma_views_of_push(r@, e);
                    }
                    r.push(e);
                    i = i + 1;
                }
                proof {
                    lemma_take_all(v@);
                }
                TypeExpr::Tuple(r)
            },
            TypeExpr::Record(b) => TypeExpr::Record(Box::new(b.copied())),
        }
    }

    #[verifier::loop_isolation(false)]
    pub fn type_slug(&self) -> (r: String)
        ensures
            r@ == slug(self@),
        decreases self,
    {
        match self {
            TypeExpr::Bool => String::from_str("bool"),
            TypeExpr::I8 => String::from_str("i8"),
            TypeExpr::I16 => String::from_str("i16"),
            TypeExpr::I32 => String::from_str("i32"),
            TypeExpr::I64 => String::from_str("i64"),
            TypeExpr::U8 => String::from_str("u8"),
            TypeExpr::U16 => String::from_str("u16"),
            TypeExpr::U32 => String::from_str("u32"),
            TypeExpr::U64 => String::from_str("u64"),
            TypeExpr::F32 => String::from_str("f32"),
            TypeExpr::F64 => String::from_str("f64"),
            TypeExpr::String => String::from_str("string"),
            TypeExpr::Struct(s) | TypeExpr::TaggedEnum(s) | TypeExpr::StringEnum(s) => to_case(
                s.as_str(),
                CaseStyle::Snake,
            ),
            TypeExpr::Array(inner) => {
                let mut r = String::from_str("array_");
                r.append(inner.type_slug().as_str());
                r
            },
            TypeExpr::Record(val) => {
                let mut r = String::from_str("map_");
                r.append(val.type_slug().as_str());
                r
            },
            TypeExpr::Tuple(elems) => {
                let mut parts = String::new();
                let mut i: usize = 0;
                while i < elems.len()
                    invariant
                        i <= elems.len(),
                        parts@ == slug_list(views_of(elems@.take(i as int))),
                    decreases elems.len() - i,
                {
                    proof {
                        lemma_views_of_take(elems@, i as int);
                        let vs = views_of(elems@.take(i as int + 1));
                        assert(vs.drop_last() =~= views_of(elems@.take(i as int)));
                    }
                    if i > 0 {
                        parts.append("_");
                    }
                    proof {
                        assert(decreases_to!(*self => *elems));
                        assert(decreases_to!(*elems => elems@));
                        assert(decreases_to!(elems@ => elems@[i as int]));
                    }
                    parts.append(elems[i].type_slug().as_str());
                    i = i + 1;
                }
                proof {
                    lemma_take_all(elems@);
                }
                let mut r = String::from_str("tuple_");
                r.append(parts.as_str());
                r
            },
            TypeExpr::Optional(inner) => {
                let mut r = String::from_str("optional_");
                r.append(inner.type_slug().as_str());
                r
            },
            TypeExpr::Void => String::from_str("void"),
        }
    }
    pub fn is_scalar(&self) -> (r: bool)
        ensures
            r == is_scalar(self@),
    {
        matches!(
            self,
            TypeExpr::Bool | TypeExpr::StringEnum(_) | TypeExpr::I8 | TypeExpr::I16
                | TypeExpr::I32 | TypeExpr::I64 | TypeExpr::U8 | TypeExpr::U16 | TypeExpr::U32
                | TypeExpr::U64 | TypeExpr::F32 | TypeExpr::F64
        )
    }

    /// Whether a value of the type owns heap memory that its `_unref` releases.
    pub fn needs_heap_free(&self) -> (r: bool)
        ensures
            r == needs_heap_free(self@),
        decreases self,
    {
        match self {
            TypeExpr::String | TypeExpr::Struct(_) | TypeExpr::TaggedEnum(_) | TypeExpr::Array(_)
            | TypeExpr::Record(_) | TypeExpr::Tuple(_) => true,
            TypeExpr::Optional(inner) => inner.needs_heap_free(),
            _ => false,
        }
    }

    pub fn has_type_def(&self) -> (r: bool)
        ensures
            r == has_type_def(self@),
    {
        matches!(self, TypeExpr::Struct(_) | TypeExpr::TaggedEnum(_) | TypeExpr::StringEnum(_))
    }

    pub fn id(&self, ns: &str) -> (r: String)
        ensures
            r@ == type_id(self@, ns@),
    {
        let mut r = String::from_str(ns);
        r.append(self.type_slug().as_str());
        r
    }

    pub fn c_type(&self, ns: &str) -> (r: String)
        ensures
            r@ == c_type(self@, ns@),
        decreases self,
    {
        match self {
            TypeExpr::Void => String::from_str("void"),
            TypeExpr::Bool => String::from_str("bool"),
            TypeExpr::I8 => String::from_str("int8_t"),
            TypeExpr::I16 => String::from_str("int16_t"),
            TypeExpr::I32 => String::from_str("int32_t"),
            TypeExpr::I64 => String::from_str("int64_t"),
            TypeExpr::U8 => String::from_str("uint8_t"),
            TypeExpr::U16 => String::from_str("uint16_t"),
            TypeExpr::U32 => String::from_str("uint32_t"),
            TypeExpr::U64 => String::from_str("uint64_t"),
            TypeExpr::F32 => String::from_str("float"),
            TypeExpr::F64 => String::from_str("double"),
            TypeExpr::String => String::from_str("const char*"),
            TypeExpr::Struct(_) | TypeExpr::TaggedEnum(_) | TypeExpr::Array(_)
            | TypeExpr::Record(_) | TypeExpr::Tuple(_) => {
                let mut r = String::from_str(ns);
                r.append(self.type_slug().as_str());
                r.append("_t*");
                r
            },
            TypeExpr::StringEnum(_) => {
                let mut r = String::from_str(ns);
                r.append(self.type_slug().as_str());
                r.append("_t");
                r
            },
            TypeExpr::Optional(inner) => {
                if inner.is_scalar() {
                    let mut r = String::from_str(ns);
                    r.append(self.type_slug().as_str());
                    r.append("_t");
                    r
                } else {
                    inner.c_type(ns)
                }
            },
        }
    }

    pub fn zero_val(&self, ns: &str) -> (r: String)
        ensures
            r@ == zero_val(self@, ns@),
        decreases self,
    {
        let ns_upper = to_uppercase(ns);
        match self {
            TypeExpr::Bool => String::from_str("false"),
            TypeExpr::StringEnum(s) => {
                let mut r = ns_upper;
                r.append(to_uppercase(to_case(s.as_str(), CaseStyle::Snake).as_str()).as_str());
                r.append("_UNPARSED");
                r
            },
            TypeExpr::Optional(inner) => {
                if inner.is_scalar() {
                    let prefix = inner.type_slug();
                    let mut r = String::from_str("(");
                    r.append(ns);
                    r.append("optional_");
                    r.append(prefix.as_str());
                    r.append("_t){false, ");
                    r.append(inner.zero_val(ns).as_str());
                    r.append("}");
                    r
                } else {
                    String::from_str("0")
                }
            },
            TypeExpr::String => String::from_str("\"\""),
            TypeExpr::Struct(_) | TypeExpr::Array(_) | TypeExpr::Tuple(_) | TypeExpr::Record(_) => {
                String::from_str("NULL")
            },
            _ => String::from_str("0"),
        }
    }
}


/// The types that a recursive visit of `t` meets, the inner types before the type
/// that holds them.
pub open spec fn post_order(t: CType) -> Seq<CType>
    decreases t,
{
    match t {
        CType::Array(inner) => post_order(*inner).push(t),
        CType::Record(inner) => post_order(*inner).push(t),
        CType::Optional(inner) => post_order(*inner).push(t),
        CType::Tuple(es) => post_order_list(es).push(t),
        _ => seq![t],
    }
}

pub open spec fn post_order_list(ts: Seq<CType>) -> Seq<CType>
    decreases ts,
{
    if ts.len() == 0 {
        Seq::empty()
    } else {
        post_order_list(ts.drop_last()) + post_order(ts.last())
    }
}

pub open spec fn slugs(s: Seq<CType>) -> Seq<Seq<char>> {
    s.map_values(|t: CType| slug(t))
}

/// The types in order, each kept only where no earlier type has its slug.
pub open spec fn dedup_by_slug(s: Seq<CType>) -> Seq<CType>
    decreases s.len(),
{
    if s.len() == 0 {
        Seq::empty()
    } else if slugs(s.drop_last()).contains(slug(s.last())) {
        dedup_by_slug(s.drop_last())
    } else {
        dedup_by_slug(s.drop_last()).push(s.last())
    }
}

/// The order in which the generators visit the types that `types` mention:
/// inner types first, each slug once.
pub open spec fn visit_order(types: Seq<CType>) -> Seq<CType> {
    dedup_by_slug(post_order_list(types))
}

pub proof fn lemma_slugs_push(s: Seq<CType>, x: CType)
    ensures
        slugs(s.push(x)) == slugs(s).push(slug(x)),
{
    assert(slugs(s.push(x)) =~= slugs(s).push(slug(x)));
}

pub proof fn lemma_push_contains<A>(s: Seq<A>, x: A, y: A)
    ensures
        s.push(x).contains(y) <==> (s.contains(y) || x == y),
{
    if s.contains(y) {
        let k = choose|k: int| 0 <= k < s.len() && s[k] == y;
        assert(s.push(x)[k] == y);
    }
    if x == y {
        assert(s.push(x)[s.len() as int] == y);
    }
    if s.push(x).contains(y) {
        let k = choose|k: int| 0 <= k < s.len() + 1 && s.push(x)[k] == y;
        if k < s.len() {
            assert(s[k] == y);
        }
    }
}

pub proof fn lemma_dedup_slugs(p: Seq<CType>, y: Seq<char>)
    ensures
        slugs(dedup_by_slug(p)).contains(y) <==> slugs(p).contains(y),
    decreases p.len(),
{
    if p.len() > 0 {
        let q = p.drop_last();
        let x = p.last();
        lemma_dedup_slugs(q, y);
        assert(p =~= q.push(x));
        lemma_slugs_push(q, x);
        lemma_push_contains(slugs(q), slug(x), y);
        if !slugs(q).contains(slug(x)) {
            lemma_slugs_push(dedup_by_slug(q), x);
            lemma_push_contains(slugs(dedup_by_slug(q)), slug(x), y);
        }
    }
}

pub proof fn lemma_dedup_push(p: Seq<CType>, x: CType)
    ensures
        dedup_by_slug(p.push(x)) == if slugs(p).contains(slug(x)) {
            dedup_by_slug(p)
        } else {
            dedup_by_slug(p).push(x)
        },
{
    assert(p.push(x).drop_last() =~= p);
}

fn seen_contains(seen: &Vec<String>, s: &String) -> (r: bool)
    ensures
        r == strings_view(seen@).contains(s@),
{
    let mut i: usize = 0;
    while i < seen.len()
        invariant
            i <= seen.len(),
            forall|j: int| 0 <= j < i ==> strings_view(seen@)[j] != s@,
        decreases seen.len() - i,
    {
        if seen[i] == *s {
            assert(strings_view(seen@)[i as int] == s@);
            return true;
        }
        i = i + 1;
    }
    false
}

/// Visits `ct` after its inner types: appends each type whose slug is new.
#[verifier::loop_isolation(false)]
fn walk(ct: &TypeExpr, seen: &mut Vec<String>, acc: &mut Vec<TypeExpr>, Ghost(p): Ghost<Seq<CType>>)
    requires
        views_of(old(acc)@) == dedup_by_slug(p),
        strings_view(old(seen)@) == slugs(views_of(old(acc)@)),
    ensures
        views_of(final(acc)@) == dedup_by_slug(p + post_order(ct@)),
        strings_view(final(seen)@) == slugs(views_of(final(acc)@)),
    decreases ct,
{
    let ghost mut q = p;
    match ct {
        TypeExpr::Array(inner) | TypeExpr::Record(inner) | TypeExpr::Optional(inner) => {
            walk(inner, seen, acc, Ghost(q));
            proof {
                q = q + post_order(inner@);
            }
        },
        TypeExpr::Tuple(elems) => {
            proof {
                lemma_views_of_len(elems@);
            }
            let mut i: usize = 0;
            while i < elems.len()
                invariant
                    i <= elems.len(),
                    q == p + post_order_list(views_of(elems@).take(i as int)),
                    views_of(acc@) == dedup_by_slug(q),
                    strings_view(seen@) == slugs(views_of(acc@)),
                decreases elems.len() - i,
            {
                proof {
                    assert(decreases_to!(*ct => *elems));
                    assert(decreases_to!(*elems => elems@));
                    assert(decreases_to!(elems@ => elems@[i as int]));
                }
                walk(&elems[i], seen, acc, Ghost(q));
                proof {
                    let vs = views_of(elems@);
                    assert(vs.take(i as int + 1).drop_last() =~= vs.take(i as int));
                    assert(q + post_order(elems@[i as int]@) =~= p + post_order_list(
                        vs.take(i as int + 1),
                    ));
                    q = q + post_order(elems@[i as int]@);
                }
                i = i + 1;
            }
            proof {
                lemma_take_all(views_of(elems@));
            }
        },
        _ => {},
    }
    let s = ct.type_slug();
    proof {
        lemma_dedup_push(q, ct@);
        lemma_dedup_slugs(q, s@);
        assert(p + post_order(ct@) =~= q.push(ct@));
    }
    if !seen_contains(seen, &s) {
        let c = ct.copied();
        proof {
            lemma_views_of_push(acc@, c);
            lemma_slugs_push(views_of(acc@), c@);
        }
        let ghost sv = seen@;
        acc.push(c);
        seen.push(s);
        proof {
            assert(strings_view(seen@) =~= strings_view(sv).push(slug(ct@)));
        }
    }
}

/// The types that `types` mention, in the order in which the generators visit
/// them: each type after the types inside it, each slug once.
#[verifier::loop_isolation(false)]
pub(crate) fn apply_recursive(types: &[TypeExpr]) -> (r: Vec<TypeExpr>)
    ensures
        views_of(r@) == visit_order(views_of(types@)),
{
    let mut seen: Vec<String> = Vec::new();
    let mut acc: Vec<TypeExpr> = Vec::new();
    let ghost mut q: Seq<CType> = Seq::empty();
    proof {
        lemma_views_of_len(types@);
        assert(strings_view(seen@) =~= slugs(views_of(acc@)));
    }
    let mut i: usize = 0;
    while i < types.len()
        invariant
            i <= types.len(),
            q == post_order_list(views_of(types@).take(i as int)),
            views_of(acc@) == dedup_by_slug(q),
            strings_view(seen@) == slugs(views_of(acc@)),
        decreases types.len() - i,
    {
        walk(&types[i], &mut seen, &mut acc, Ghost(q));
        proof {
            let vs = views_of(types@);
            assert(vs.take(i as int + 1).drop_last() =~= vs.take(i as int));
            q = q + post_order(types@[i as int]@);
        }
        i = i + 1;
    }
    proof {
        lemma_take_all(views_of(types@));
    }
    acc
}

pub open spec fn c_type_fn(ns: Seq<char>) -> spec_fn(CType) -> Seq<char> {
    |e: CType| c_type(e, ns)
}

/// The `typedef` of a container type; nothing for scalars and named types.
pub open spec fn type_forward_decl(ns: Seq<char>, t: CType) -> Seq<char> {
    if is_scalar(t) || has_type_def(t) {
        Seq::empty()
    } else {
        "typedef struct "@ + type_id(t, ns) + " "@ + type_id(t, ns) + "_t;\n"@
    }
}

pub open spec fn type_forward_decl_fn(ns: Seq<char>) -> spec_fn(CType) -> Seq<char> {
    |t: CType| type_forward_decl(ns, t)
}

/// The `typedef`s of the container types that `types` mention.
pub open spec fn forward_declarations_text(types: Seq<CType>, ns: Seq<char>) -> Seq<char> {
    concat_map(visit_order(types), type_forward_decl_fn(ns))
}

#[verifier::loop_isolation(false)]
fn emit_type_expr_forward_declarations(out: &mut String, types: &[TypeExpr], ns: &str)
    ensures
        final(out)@ == old(out)@ + forward_declarations_text(views_of(types@), ns@),
{
    let order = apply_recursive(types);
    proof {
        lemma_views_of_len(order@);
    }
    let mut body = String::new();
    let mut i: usize = 0;
    while i < order.len()
        invariant
            i <= order.len(),
            body@ == concat_map(views_of(order@).take(i as int), type_forward_decl_fn(ns@)),
        decreases order.len() - i,
    {
        let t = &order[i];
        let line = if t.is_scalar() || t.has_type_def() {
            String::new()
        } else {
            let id = t.id(ns);
            let mut line = String::from_str("typedef struct ");
            line.append(id.as_str());
            line.append(" ");
            line.append(id.as_str());
            line.append("_t;\n");
            line
        };
        proof {
            lemma_concat_map_step(views_of(order@), i as int, type_forward_decl_fn(ns@));
        }
        body.append(line.as_str());
        i = i + 1;
    }
    proof {
        lemma_take_all(views_of(order@));
    }
    out.append(body.as_str());
}

pub open spec fn tuple_field_decl(ns: Seq<char>, i: int, e: CType) -> Seq<char> {
    "    "@ + c_type(e, ns) + " field_"@ + decimal(i as nat) + ";\n"@
}

pub open spec fn tuple_field_decl_fn(ns: Seq<char>) -> spec_fn(int, CType) -> Seq<char> {
    |i: int, e: CType| tuple_field_decl(ns, i, e)
}

/// The C `struct` (or prototypes) that a container type needs before the named types.
pub open spec fn early_struct_text(t: CType, ns: Seq<char>) -> Seq<char> {
    match t {
        CType::Array(inner) => "typedef struct "@ + type_id(t, ns) + " {\n    "@ + c_type(*inner, ns) + "* items;\n    size_t len;\n} "@ + type_id(t, ns) + "_t;\nstatic inline "@ + type_id(t, ns) + "_t* "@ + type_id(t, ns) + "_new(size_t len);\nstatic inline void "@ + type_id(t, ns) + "_unref("@ + c_type(t, ns) + " a);\n\n"@,
        CType::Record(inner) => "typedef struct "@ + type_id(t, ns) + " {\n    const char** keys;\n    "@ + c_type(*inner, ns) + "* values;\n    size_t len;\n} "@ + type_id(t, ns) + "_t;\nstatic inline "@ + type_id(t, ns) + "_t* "@ + type_id(t, ns) + "_new(size_t len);\nstatic inline void "@ + type_id(t, ns) + "_unref("@ + c_type(t, ns) + " m);\n\n"@,
        CType::Tuple(es) => "typedef struct "@ + type_id(t, ns) + " {\n"@ + concat_mapi(es, tuple_field_decl_fn(ns)) + "} "@ + type_id(t, ns) + "_t;\nstatic inline "@ + type_id(t, ns) + "_t* "@ + type_id(t, ns) + "_new("@ + join_map(es, c_type_fn(ns), ", "@) + ");\nstatic inline void "@ + type_id(t, ns) + "_unref("@ + c_type(t, ns) + " m);\n\n"@,
        CType::Optional(inner) => if is_scalar(*inner) {
            "typedef struct "@ + type_id(t, ns) + " {\n    bool has_value;\n    "@ + c_type(*inner, ns) + " value;\n} "@ + type_id(t, ns) + "_t;\n\n"@
        } else {
            "static inline "@ + type_id(t, ns) + "_t* "@ + type_id(t, ns) + "_new("@ + c_type(*inner, ns) + " x);\nstatic inline void "@ + type_id(t, ns) + "_unref("@ + c_type(t, ns) + " o);\n"@
        },
        _ => Seq::empty(),
    }
}

#[verifier::loop_isolation(false)]
fn early_struct(t: &TypeExpr, ns: &str) -> (r: String)
    ensures
        r@ == early_struct_text(t@, ns@),
{
    let id = t.id(ns);
    let ct = t.c_type(ns);
    match t {
        TypeExpr::Array(inner) => {
            let ci = inner.c_type(ns);
            let mut s = String::from_str("typedef struct ");
            s.append(id.as_str());
            s.append(" {\n    ");
            s.append(ci.as_str());
            s.append("* items;\n    size_t len;\n} ");
            s.append(id.as_str());
            s.append("_t;\nstatic inline ");
            s.append(id.as_str());
            s.append("_t* ");
            s.append(id.as_str());
            s.append("_new(size_t len);\nstatic inline void ");
            s.append(id.as_str());
            s.append("_unref(");
            s.append(ct.as_str());
            s.append(" a);\n\n");
            s
        },
        TypeExpr::Record(inner) => {
            let ci = inner.c_type(ns);
            let mut s = String::from_str("typedef struct ");
            s.append(id.as_str());
            s.append(" {\n    const char** keys;\n    ");
            s.append(ci.as_str());
            s.append("* values;\n    size_t len;\n} ");
            s.append(id.as_str());
            s.append("_t;\nstatic inline ");
            s.append(id.as_str());
            s.append("_t* ");
            s.append(id.as_str());
            s.append("_new(size_t len);\nstatic inline void ");
            s.append(id.as_str());
            s.append("_unref(");
            s.append(ct.as_str());
            s.append(" m);\n\n");
            s
        },
        TypeExpr::Tuple(elems) => {
            proof {
                lemma_views_of_len(elems@);
            }
            let mut fdecls = String::new();
            let mut i: usize = 0;
            while i < elems.len()
                invariant
                    i <= elems.len(),
                    fdecls@ == concat_mapi(views_of(elems@).take(i as int), tuple_field_decl_fn(ns@)),
                decreases elems.len() - i,
            {
                let e = &elems[i];
                let ect = e.c_type(ns);
                let di = decimal_string(i);
                let mut line = String::from_str("    ");
                line.append(ect.as_str());
                line.append(" field_");
                line.append(di.as_str());
                line.append(";\n");
                proof {
                    lemma_concat_mapi_step(views_of(elems@), i as int, tuple_field_decl_fn(ns@));
                }
                fdecls.append(line.as_str());
                i = i + 1;
            }
            proof {
                lemma_take_all(views_of(elems@));
            }
            let mut params = String::new();
            let mut i: usize = 0;
            while i < elems.len()
                invariant
                    i <= elems.len(),
                    params@ == join_map(views_of(elems@).take(i as int), c_type_fn(ns@), ", "@),
                decreases elems.len() - i,
            {
                let e = &elems[i];
                let line = e.c_type(ns);
                proof {
                    lemma_join_map_step(views_of(elems@), i as int, c_type_fn(ns@), ", "@);
                }
                if i > 0 {
                    params.append(", ");
                }
                params.append(line.as_str());
                i = i + 1;
            }
            proof {
                lemma_take_all(views_of(elems@));
            }
            let mut s = String::from_str("typedef struct ");
            s.append(id.as_str());
            s.append(" {\n");
            s.append(fdecls.as_str());
            s.append("} ");
            s.append(id.as_str());
            s.append("_t;\nstatic inline ");
            s.append(id.as_str());
            s.append("_t* ");
            s.append(id.as_str());
            s.append("_new(");
            s.append(params.as_str());
            s.append(");\nstatic inline void ");
            s.append(id.as_str());
            s.append("_unref(");
            s.append(ct.as_str());
            s.append(" m);\n\n");
            s
        },
        TypeExpr::Optional(inner) => {
            let ci = inner.c_type(ns);
            if inner.is_scalar() {
                let mut s = String::from_str("typedef struct ");
                s.append(id.as_str());
                s.append(" {\n    bool has_value;\n    ");
                s.append(ci.as_str());
                s.append(" value;\n} ");
                s.append(id.as_str());
                s.append("_t;\n\n");
                s
            } else {
                let mut s = String::from_str("static inline ");
                s.append(id.as_str());
                s.append("_t* ");
                s.append(id.as_str());
                s.append("_new(");
                s.append(ci.as_str());
                s.append(" x);\nstatic inline void ");
                s.append(id.as_str());
                s.append("_unref(");
                s.append(ct.as_str());
                s.append(" o);\n");
                s
            }
        },
        _ => String::new(),
    }
}

/// What a container or scalar type declares before the named types: its struct and
/// the prototypes of its converters.
pub open spec fn type_early_decl(ns: Seq<char>, t: CType) -> Seq<char> {
    if has_type_def(t) {
        Seq::empty()
    } else {
        early_struct_text(t, ns) + "static inline dc_json_t "@ + type_id(t, ns) + "_to_json("@ + c_type(t, ns) + " o);\nstatic inline int "@ + type_id(t, ns) + "_from_json(dc_json_t v, "@ + c_type(t, ns) + "* r);\n"@
    }
}

pub open spec fn type_early_decl_fn(ns: Seq<char>) -> spec_fn(CType) -> Seq<char> {
    |t: CType| type_early_decl(ns, t)
}

pub open spec fn early_text(types: Seq<CType>, ns: Seq<char>) -> Seq<char> {
    concat_map(visit_order(types), type_early_decl_fn(ns))
}

#[verifier::loop_isolation(false)]
fn emit_type_expr_early(out: &mut String, types: &[TypeExpr], ns: &str)
    ensures
        final(out)@ == old(out)@ + early_text(views_of(types@), ns@),
{
    let order = apply_recursive(types);
    proof {
        lemma_views_of_len(order@);
    }
    let mut body = String::new();
    let mut i: usize = 0;
    while i < order.len()
        invariant
            i <= order.len(),
            body@ == concat_map(views_of(order@).take(i as int), type_early_decl_fn(ns@)),
        decreases order.len() - i,
    {
        let t = &order[i];
        let line = if t.has_type_def() {
            String::new()
        } else {
            let id = t.id(ns);
            let ct = t.c_type(ns);
            let es = early_struct(t, ns);
            let mut line = String::from_str(es.as_str());
            line.append("static inline dc_json_t ");
            line.append(id.as_str());
            line.append("_to_json(");
            line.append(ct.as_str());
            line.append(" o);\nstatic inline int ");
            line.append(id.as_str());
            line.append("_from_json(dc_json_t v, ");
            line.append(ct.as_str());
            line.append("* r);\n");
            line
        };
        proof {
            lemma_concat_map_step(views_of(order@), i as int, type_early_decl_fn(ns@));
        }
        body.append(line.as_str());
        i = i + 1;
    }
    proof {
        lemma_take_all(views_of(order@));
    }
    out.append(body.as_str());
}

pub open spec fn array_items_unref(inner: CType, ns: Seq<char>) -> Seq<char> {
    if needs_heap_free(inner) {
        "    for (size_t i = 0; i < a->len; i++) {\n        "@ + type_id(inner, ns) + "_unref(a->items[i]);\n    }\n"@
    } else {
        Seq::empty()
    }
}

pub open spec fn record_values_unref(inner: CType, ns: Seq<char>) -> Seq<char> {
    if needs_heap_free(inner) {
        "        "@ + type_id(inner, ns) + "_unref(m->values[i]);\n"@
    } else {
        Seq::empty()
    }
}

pub open spec fn tuple_unref_line(ns: Seq<char>, i: int, e: CType) -> Seq<char> {
    if needs_heap_free(e) {
        "    "@ + type_id(e, ns) + "_unref(o->field_"@ + decimal(i as nat) + ");\n"@
    } else {
        Seq::empty()
    }
}

pub open spec fn tuple_unref_line_fn(ns: Seq<char>) -> spec_fn(int, CType) -> Seq<char> {
    |i: int, e: CType| tuple_unref_line(ns, i, e)
}

pub open spec fn tuple_param(ns: Seq<char>, i: int, e: CType) -> Seq<char> {
    c_type(e, ns) + " field_"@ + decimal(i as nat)
}

pub open spec fn tuple_param_fn(ns: Seq<char>) -> spec_fn(int, CType) -> Seq<char> {
    |i: int, e: CType| tuple_param(ns, i, e)
}

pub open spec fn tuple_assign(i: int, e: CType) -> Seq<char> {
    "    __result->field_"@ + decimal(i as nat) + " = field_"@ + decimal(i as nat) + ";\n"@
}

pub open spec fn tuple_assign_fn() -> spec_fn(int, CType) -> Seq<char> {
    |i: int, e: CType| tuple_assign(i, e)
}

/// The constructor and destructor of a container type (none for scalars and for
/// an optional scalar, which is a plain struct).
pub open spec fn container_struct_and_unref_text(t: CType, ns: Seq<char>) -> Seq<char> {
    match t {
        CType::Array(inner) => "static inline "@ + type_id(t, ns) + "_t* "@ + type_id(t, ns) + "_new(size_t len) {\n    "@ + type_id(t, ns) + "_t* __result = ("@ + type_id(t, ns) + "_t*)calloc(1, sizeof("@ + type_id(t, ns) + "_t));\n    __result->len = len;\n    __result->items = ("@ + c_type(*inner, ns) + "*)calloc(len, sizeof("@ + c_type(*inner, ns) + "));\n    return __result;\n}\n\nstatic inline void "@ + type_id(t, ns) + "_unref("@ + c_type(t, ns) + " a) {\n    if (!a) return;\n"@ + array_items_unref(*inner, ns) + "    free(a->items);\n    free(a);\n}\n\n"@,
        CType::Record(inner) => "static inline "@ + type_id(t, ns) + "_t* "@ + type_id(t, ns) + "_new(size_t len) {\n    "@ + type_id(t, ns) + "_t* __result = ("@ + type_id(t, ns) + "_t*)calloc(1, sizeof("@ + type_id(t, ns) + "_t));\n    __result->len = len;\n    __result->keys = (const char**)calloc(len, sizeof(char*));\n    __result->values = ("@ + c_type(*inner, ns) + "*)calloc(len, sizeof("@ + c_type(*inner, ns) + "));\n    return __result;\n}\n\nstatic inline void "@ + type_id(t, ns) + "_unref("@ + c_type(t, ns) + " m) {\n    if (!m) return;\n    for (size_t i = 0; i < m->len; i++) {\n        "@ + ns + "string_unref(m->keys[i]);\n"@ + record_values_unref(*inner, ns) + "    }\n    free(m->keys);\n    free(m->values);\n    free(m);\n}\n\n"@,
        CType::Tuple(es) => "static inline void "@ + type_id(t, ns) + "_unref("@ + c_type(t, ns) + " o) {\n    if (!o) return;\n"@ + concat_mapi(es, tuple_unref_line_fn(ns)) + "    free(o);\n}\nstatic inline "@ + type_id(t, ns) + "_t* "@ + type_id(t, ns) + "_new("@ + join_mapi(es, tuple_param_fn(ns), ", "@) + ") {\n    "@ + type_id(t, ns) + "_t* __result = ("@ + type_id(t, ns) + "_t*)calloc(1, sizeof("@ + type_id(t, ns) + "_t));\n"@ + concat_mapi(es, tuple_assign_fn()) + "    return __result;\n}\n"@,
        CType::Optional(inner) => if !is_scalar(*inner) {
            "static inline "@ + type_id(t, ns) + "_t* "@ + type_id(t, ns) + "_new("@ + c_type(*inner, ns) + " x) {\n    return ("@ + type_id(t, ns) + "_t*)(x);\n}\nstatic inline void "@ + type_id(t, ns) + "_unref("@ + c_type(t, ns) + " o) {\n    "@ + type_id(*inner, ns) + "_unref(o);\n}\n"@
        } else {
            Seq::empty()
        },
        _ => Seq::empty(),
    }
}

#[verifier::loop_isolation(false)]
fn container_struct_and_unref(t: &TypeExpr, ns: &str) -> (r: String)
    ensures
        r@ == container_struct_and_unref_text(t@, ns@),
{
    let id = t.id(ns);
    let ct = t.c_type(ns);
    match t {
        TypeExpr::Array(inner) => {
            let ci = inner.c_type(ns);
            let fr = if inner.needs_heap_free() {
                let ii = inner.id(ns);
                let mut s = String::from_str("    for (size_t i = 0; i < a->len; i++) {\n        ");
                s.append(ii.as_str());
                s.append("_unref(a->items[i]);\n    }\n");
                s
            } else {
                String::new()
            };
            let mut s = String::from_str("static inline ");
            s.append(id.as_str());
            s.append("_t* ");
            s.append(id.as_str());
            s.append("_new(size_t len) {\n    ");
            s.append(id.as_str());
            s.append("_t* __result = (");
            s.append(id.as_str());
            s.append("_t*)calloc(1, sizeof(");
            s.append(id.as_str());
            s.append("_t));\n    __result->len = len;\n    __result->items = (");
            s.append(ci.as_str());
            s.append("*)calloc(len, sizeof(");
            s.append(ci.as_str());
            s.append("));\n    return __result;\n}\n\nstatic inline void ");
            s.append(id.as_str());
            s.append("_unref(");
            s.append(ct.as_str());
            s.append(" a) {\n    if (!a) return;\n");
            s.append(fr.as_str());
            s.append("    free(a->items);\n    free(a);\n}\n\n");
            s
        },
        TypeExpr::Record(inner) => {
            let ci = inner.c_type(ns);
            let fr = if inner.needs_heap_free() {
                let ii = inner.id(ns);
                let mut s = String::from_str("        ");
                s.append(ii.as_str());
                s.append("_unref(m->values[i]);\n");
                s
            } else {
                String::new()
            };
            let mut s = String::from_str("static inline ");
            s.append(id.as_str());
            s.append("_t* ");
            s.append(id.as_str());
            s.append("_new(size_t len) {\n    ");
            s.append(id.as_str());
            s.append("_t* __result = (");
            s.append(id.as_str());
            s.append("_t*)calloc(1, sizeof(");
            s.append(id.as_str());
            s.append("_t));\n    __result->len = len;\n    __result->keys = (const char**)calloc(len, sizeof(char*));\n    __result->values = (");
            s.append(ci.as_str());
            s.append("*)calloc(len, sizeof(");
            s.append(ci.as_str());
            s.append("));\n    return __result;\n}\n\nstatic inline void ");
            s.append(id.as_str());
            s.append("_unref(");
            s.append(ct.as_str());
            s.append(" m) {\n    if (!m) return;\n    for (size_t i = 0; i < m->len; i++) {\n        ");
            s.append(ns);
            s.append("string_unref(m->keys[i]);\n");
            s.append(fr.as_str());
            s.append("    }\n    free(m->keys);\n    free(m->values);\n    free(m);\n}\n\n");
            s
        },
        TypeExpr::Tuple(elems) => {
            proof {
                lemma_views_of_len(elems@);
            }
            let mut unrefs = String::new();
            let mut i: usize = 0;
            while i < elems.len()
                invariant
                    i <= elems.len(),
                    unrefs@ == concat_mapi(views_of(elems@).take(i as int), tuple_unref_line_fn(ns@)),
                decreases elems.len() - i,
            {
                let e = &elems[i];
                let line = if e.needs_heap_free() {
                    let eid = e.id(ns);
                    let di = decimal_string(i);
                    let mut line = String::from_str("    ");
                    line.append(eid.as_str());
                    line.append("_unref(o->field_");
                    line.append(di.as_str());
                    line.append(");\n");
                    line
                } else {
                    String::new()
                };
                proof {
                    lemma_concat_mapi_step(views_of(elems@), i as int, tuple_unref_line_fn(ns@));
                }
                unrefs.append(line.as_str());
                i = i + 1;
            }
            proof {
                lemma_take_all(views_of(elems@));
            }
            let mut params = String::new();
            let mut i: usize = 0;
            while i < elems.len()
                invariant
                    i <= elems.len(),
                    params@ == join_mapi(views_of(elems@).take(i as int), tuple_param_fn(ns@), ", "@),
                decreases elems.len() - i,
            {
                let e = &elems[i];
                let ect = e.c_type(ns);
                let di = decimal_string(i);
                let mut line = String::from_str(ect.as_str());
                line.append(" field_");
                line.append(di.as_str());
                proof {
                    lemma_join_mapi_step(views_of(elems@), i as int, tuple_param_fn(ns@), ", "@);
                }
                if i > 0 {
                    params.append(", ");
                }
                params.append(line.as_str());
                i = i + 1;
            }
            proof {
                lemma_take_all(views_of(elems@));
            }
            let mut assigns = String::new();
            let mut i: usize = 0;
            while i < elems.len()
                invariant
                    i <= elems.len(),
                    assigns@ == concat_mapi(views_of(elems@).take(i as int), tuple_assign_fn()),
                decreases elems.len() - i,
            {
                let di = decimal_string(i);
                let mut line = String::from_str("    __result->field_");
                line.append(di.as_str());
                line.append(" = field_");
                line.append(di.as_str());
                line.append(";\n");
                proof {
                    lemma_concat_mapi_step(views_of(elems@), i as int, tuple_assign_fn());
                }
                assigns.append(line.as_str());
                i = i + 1;
            }
            proof {
                lemma_take_all(views_of(elems@));
            }
            let mut s = String::from_str("static inline void ");
            s.append(id.as_str());
            s.append("_unref(");
            s.append(ct.as_str());
            s.append(" o) {\n    if (!o) return;\n");
            s.append(unrefs.as_str());
            s.append("    free(o);\n}\nstatic inline ");
            s.append(id.as_str());
            s.append("_t* ");
            s.append(id.as_str());
            s.append("_new(");
            s.append(params.as_str());
            s.append(") {\n    ");
            s.append(id.as_str());
            s.append("_t* __result = (");
            s.append(id.as_str());
            s.append("_t*)calloc(1, sizeof(");
            s.append(id.as_str());
            s.append("_t));\n");
            s.append(assigns.as_str());
            s.append("    return __result;\n}\n");
            s
        },
        TypeExpr::Optional(inner) => {
            if !inner.is_scalar() {
                let ci = inner.c_type(ns);
                let ii = inner.id(ns);
                let mut s = String::from_str("static inline ");
                s.append(id.as_str());
                s.append("_t* ");
                s.append(id.as_str());
                s.append("_new(");
                s.append(ci.as_str());
                s.append(" x) {\n    return (");
                s.append(id.as_str());
                s.append("_t*)(x);\n}\nstatic inline void ");
                s.append(id.as_str());
                s.append("_unref(");
                s.append(ct.as_str());
                s.append(" o) {\n    ");
                s.append(ii.as_str());
                s.append("_unref(o);\n}\n");
                s
            } else {
                String::new()
            }
        },
        _ => String::new(),
    }
}

fn emit_container_struct_and_unref(out: &mut String, ns: &str, t: &TypeExpr)
    ensures
        final(out)@ == old(out)@ + container_struct_and_unref_text(t@, ns@),
{
    out.append(container_struct_and_unref(t, ns).as_str());
}

pub open spec fn tuple_to_json_line(ns: Seq<char>, i: int, e: CType) -> Seq<char> {
    "        dc_json_add_to_array(json, "@ + type_id(e, ns) + "_to_json(o->field_"@ + decimal(i as nat) + "));\n"@
}

pub open spec fn tuple_to_json_line_fn(ns: Seq<char>) -> spec_fn(int, CType) -> Seq<char> {
    |i: int, e: CType| tuple_to_json_line(ns, i, e)
}

/// The serializer body of a container or scalar type.
pub open spec fn to_json_body(t: CType, ns: Seq<char>) -> Seq<char> {
    match t {
        CType::Bool => "    return dc_json_new_bool(o);\n"@,
        CType::I8 | CType::I16 | CType::I32 | CType::I64 | CType::U8 | CType::U16 | CType::U32 | CType::U64 | CType::F32 | CType::F64 => "    return dc_json_new_number((double)o);\n"@,
        CType::String => "    return dc_json_new_string(o);\n"@,
        CType::Optional(inner) => if is_scalar(*inner) {
            "    return o.has_value ? "@ + type_id(*inner, ns) + "_to_json(o.value) : dc_json_new_null();\n"@
        } else {
            "    return o ? "@ + type_id(*inner, ns) + "_to_json(o): dc_json_new_null();\n"@
        },
        CType::Array(inner) => "    dc_json_t json = dc_json_new_array();\n    for (size_t i = 0; i < o->len; i++) {\n        dc_json_add_to_array(json, "@ + type_id(*inner, ns) + "_to_json(o->items[i]));\n    }\n    return json;\n"@,
        CType::Tuple(es) => "    dc_json_t json = dc_json_new_array();\n"@ + concat_mapi(es, tuple_to_json_line_fn(ns)) + "    return json;\n"@,
        CType::Record(inner) => "    dc_json_t json = dc_json_new_object();\n    if (o) for (size_t i = 0; i < o->len; i++) {\n        dc_json_add_to_object(json, o->keys[i], "@ + type_id(*inner, ns) + "_to_json(o->values[i]));\n    }\n    return json;\n"@,
        _ => Seq::empty(),
    }
}

/// The serializer of a container or scalar type.
pub open spec fn to_json_text(t: CType, ns: Seq<char>) -> Seq<char> {
    "static inline dc_json_t "@ + type_id(t, ns) + "_to_json("@ + c_type(t, ns) + " o) {\n"@ + to_json_body(t, ns) + "}\n"@
}

/// Whether the converters of the type are written per type: neither `void` nor a
/// named type.
pub open spec fn has_converters(t: CType) -> bool {
    !(t is Void) && !has_type_def(t)
}

#[verifier::loop_isolation(false)]
fn to_json_body_string(t: &TypeExpr, ns: &str) -> (r: String)
    requires
        has_converters(t@),
    ensures
        r@ == to_json_body(t@, ns@),
{
    match t {
        TypeExpr::Bool => String::from_str("    return dc_json_new_bool(o);\n"),
        TypeExpr::I8 | TypeExpr::I16 | TypeExpr::I32 | TypeExpr::I64 | TypeExpr::U8 | TypeExpr::U16 | TypeExpr::U32 | TypeExpr::U64 | TypeExpr::F32 | TypeExpr::F64 => String::from_str("    return dc_json_new_number((double)o);\n"),
        TypeExpr::String => String::from_str("    return dc_json_new_string(o);\n"),
        TypeExpr::Optional(inner) => {
            let ii = inner.id(ns);
            if inner.is_scalar() {
                let mut s = String::from_str("    return o.has_value ? ");
                s.append(ii.as_str());
                s.append("_to_json(o.value) : dc_json_new_null();\n");
                s
            } else {
                let mut s = String::from_str("    return o ? ");
                s.append(ii.as_str());
                s.append("_to_json(o): dc_json_new_null();\n");
                s
            }
        },
        TypeExpr::Array(inner) => {
            let ii = inner.id(ns);
            let mut s = String::from_str("    dc_json_t json = dc_json_new_array();\n    for (size_t i = 0; i < o->len; i++) {\n        dc_json_add_to_array(json, ");
            s.append(ii.as_str());
            s.append("_to_json(o->items[i]));\n    }\n    return json;\n");
            s
        },
        TypeExpr::Tuple(elems) => {
            proof {
                lemma_views_of_len(elems@);
            }
            let mut lines = String::new();
            let mut i: usize = 0;
            while i < elems.len()
                invariant
                    i <= elems.len(),
                    lines@ == concat_mapi(views_of(elems@).take(i as int), tuple_to_json_line_fn(ns@)),
                decreases elems.len() - i,
            {
                let e = &elems[i];
                let eid = e.id(ns);
                let di = decimal_string(i);
                let mut line = String::from_str("        dc_json_add_to_array(json, ");
                line.append(eid.as_str());
                line.append("_to_json(o->field_");
                line.append(di.as_str());
                line.append("));\n");
                proof {
                    lemma_concat_mapi_step(views_of(elems@), i as int, tuple_to_json_line_fn(ns@));
                }
                lines.append(line.as_str());
                i = i + 1;
            }
            proof {
                lemma_take_all(views_of(elems@));
            }
            let mut s = String::from_str("    dc_json_t json = dc_json_new_array();\n");
            s.append(lines.as_str());
            s.append("    return json;\n");
            s
        },
        TypeExpr::Record(inner) => {
            let ii = inner.id(ns);
            let mut s = String::from_str("    dc_json_t json = dc_json_new_object();\n    if (o) for (size_t i = 0; i < o->len; i++) {\n        dc_json_add_to_object(json, o->keys[i], ");
            s.append(ii.as_str());
            s.append("_to_json(o->values[i]));\n    }\n    return json;\n");
            s
        },
        _ => String::new(),
    }
}

fn emit_to_json(o: &mut String, t: &TypeExpr, ns: &str)
    requires
        has_converters(t@),
    ensures
        final(o)@ == old(o)@ + to_json_text(t@, ns@),
{
    let id = t.id(ns);
    let ct = t.c_type(ns);
    let body = to_json_body_string(t, ns);
    let mut s = String::from_str("static inline dc_json_t ");
    s.append(id.as_str());
    s.append("_to_json(");
    s.append(ct.as_str());
    s.append(" o) {\n");
    s.append(body.as_str());
    s.append("}\n");
    o.append(s.as_str());
}

pub open spec fn tuple_from_json_line(id: Seq<char>, ns: Seq<char>, i: int, e: CType) -> Seq<char> {
    "        if (!dc_json_array_iter_is_valid(it)) return -1;\n    if ("@ + type_id(e, ns) + "_from_json(dc_json_array_iter_value(it), &(*r)->field_"@ + decimal(i as nat) + ")) { "@ + id + "_unref(*r); return -1; };\n    it = dc_json_array_iter_next(it);\n"@
}

pub open spec fn tuple_from_json_line_fn(id: Seq<char>, ns: Seq<char>) -> spec_fn(int, CType) -> Seq<char> {
    |i: int, e: CType| tuple_from_json_line(id, ns, i, e)
}

/// The parser body of a container or scalar type.
pub open spec fn from_json_body(t: CType, ns: Seq<char>) -> Seq<char> {
    match t {
        CType::Bool => "    if (!dc_json_is_bool(v)) return -1;\n    *r = dc_json_get_bool(v);\n"@,
        CType::I8 | CType::I16 | CType::I32 | CType::I64 | CType::U8 | CType::U16 | CType::U32 | CType::U64 | CType::F32 | CType::F64 => "    if (!dc_json_is_number(v)) return -1;\n    *r = ("@ + c_type(t, ns) + ")dc_json_get_double(v);\n"@,
        CType::String => "    if (!dc_json_is_string(v)) return -1;\n    *r = dc_json_copy_string(v);\n"@,
        CType::Optional(inner) => if is_scalar(*inner) {
            "    if (!dc_json_is_valid(v) || dc_json_is_null(v)) {\n        *r = "@ + zero_val(t, ns) + ";\n        return 0;\n    }\n    if ("@ + type_id(*inner, ns) + "_from_json(v, &r->value)) { return -1; };\n    r->has_value = true;\n"@
        } else {
            "    if (!dc_json_is_valid(v) || dc_json_is_null(v)) {\n        *r = "@ + zero_val(t, ns) + ";\n        return 0;\n    }\n    if ("@ + type_id(*inner, ns) + "_from_json(v, r)) { return -1; };\n"@
        },
        CType::Array(inner) => "    if (!dc_json_is_array(v)) return -1;\n    *r = ("@ + c_type(t, ns) + ")calloc(1, sizeof("@ + type_id(t, ns) + "_t));\n    (*r)->len = (size_t)dc_json_len(v);\n(*r)->items = ("@ + c_type(*inner, ns) + "*)calloc((*r)->len, sizeof((*r)->items[0]));\n    dc_json_array_iter_t it = dc_json_array_iter_new(v);\n    for (size_t i = 0; i < (*r)->len; i++, it = dc_json_array_iter_next(it)) {\n        if (!dc_json_array_iter_is_valid(it)) return -1;\n        if ("@ + type_id(*inner, ns) + "_from_json(dc_json_array_iter_value(it), &(*r)->items[i])) { "@ + type_id(t, ns) + "_unref(*r); return -1; };\n    }\n"@,
        CType::Tuple(es) => "    if (!dc_json_is_array(v)) return -1;\n    *r = ("@ + c_type(t, ns) + ")calloc(1, sizeof("@ + type_id(t, ns) + "_t));\n    dc_json_array_iter_t it = dc_json_array_iter_new(v);\n"@ + concat_mapi(es, tuple_from_json_line_fn(type_id(t, ns), ns)),
        CType::Record(inner) => "    if (!dc_json_is_object(v)) return -1;\n    *r = ("@ + c_type(t, ns) + ")calloc(1, sizeof("@ + type_id(t, ns) + "_t));\n    (*r)->len = (size_t)dc_json_len(v);\n    (*r)->keys = (const char**)calloc((*r)->len, sizeof(char*));\n    (*r)->values = ("@ + c_type(*inner, ns) + "*)calloc((*r)->len, sizeof((*r)->values[0]));\n    dc_json_map_iter_t it = dc_json_map_iter_new(v);\n    for (size_t i = 0; i < (*r)->len; i++, it = dc_json_map_iter_next(it)) {\n        if (!dc_json_map_iter_is_valid(it)) return -1;\n        (*r)->keys[i] = dc_json_map_iter_copy_key(it);\n        if (!(*r)->keys[i]) return -1;\n        if ("@ + type_id(*inner, ns) + "_from_json(dc_json_map_iter_value(it), &(*r)->values[i])) { "@ + type_id(t, ns) + "_unref(*r); return -1; };\n    }\n"@,
        _ => Seq::empty(),
    }
}

/// The parser of a container or scalar type.
pub open spec fn from_json_text(t: CType, ns: Seq<char>) -> Seq<char> {
    "static inline int "@ + type_id(t, ns) + "_from_json(dc_json_t v, "@ + c_type(t, ns) + "* r) {\n"@ + from_json_body(t, ns) + "    return 0;\n}\n"@
}

#[verifier::loop_isolation(false)]
fn from_json_body_string(t: &TypeExpr, ns: &str) -> (r: String)
    requires
        has_converters(t@),
    ensures
        r@ == from_json_body(t@, ns@),
{
    let id = t.id(ns);
    let ct = t.c_type(ns);
    match t {
        TypeExpr::Bool => String::from_str("    if (!dc_json_is_bool(v)) return -1;\n    *r = dc_json_get_bool(v);\n"),
        TypeExpr::I8 | TypeExpr::I16 | TypeExpr::I32 | TypeExpr::I64 | TypeExpr::U8 | TypeExpr::U16 | TypeExpr::U32 | TypeExpr::U64 | TypeExpr::F32 | TypeExpr::F64 => {
            let mut s = String::from_str("    if (!dc_json_is_number(v)) return -1;\n    *r = (");
            s.append(ct.as_str());
            s.append(")dc_json_get_double(v);\n");
            s
        },
        TypeExpr::String => String::from_str("    if (!dc_json_is_string(v)) return -1;\n    *r = dc_json_copy_string(v);\n"),
        TypeExpr::Optional(inner) => {
            let ii = inner.id(ns);
            let zv = t.zero_val(ns);
            if inner.is_scalar() {
                let mut s = String::from_str("    if (!dc_json_is_valid(v) || dc_json_is_null(v)) {\n        *r = ");
                s.append(zv.as_str());
                s.append(";\n        return 0;\n    }\n    if (");
                s.append(ii.as_str());
                s.append("_from_json(v, &r->value)) { return -1; };\n    r->has_value = true;\n");
                s
            } else {
                let mut s = String::from_str("    if (!dc_json_is_valid(v) || dc_json_is_null(v)) {\n        *r = ");
                s.append(zv.as_str());
                s.append(";\n        return 0;\n    }\n    if (");
                s.append(ii.as_str());
                s.append("_from_json(v, r)) { return -1; };\n");
                s
            }
        },
        TypeExpr::Array(inner) => {
            let ii = inner.id(ns);
            let ci = inner.c_type(ns);
            let mut s = String::from_str("    if (!dc_json_is_array(v)) return -1;\n    *r = (");
            s.append(ct.as_str());
            s.append(")calloc(1, sizeof(");
            s.append(id.as_str());
            s.append("_t));\n    (*r)->len = (size_t)dc_json_len(v);\n(*r)->items = (");
            s.append(ci.as_str());
            s.append("*)calloc((*r)->len, sizeof((*r)->items[0]));\n    dc_json_array_iter_t it = dc_json_array_iter_new(v);\n    for (size_t i = 0; i < (*r)->len; i++, it = dc_json_array_iter_next(it)) {\n        if (!dc_json_array_iter_is_valid(it)) return -1;\n        if (");
            s.append(ii.as_str());
            s.append("_from_json(dc_json_array_iter_value(it), &(*r)->items[i])) { ");
            s.append(id.as_str());
            s.append("_unref(*r); return -1; };\n    }\n");
            s
        },
        TypeExpr::Tuple(elems) => {
            proof {
                lemma_views_of_len(elems@);
            }
            let mut lines = String::new();
            let mut i: usize = 0;
            while i < elems.len()
                invariant
                    i <= elems.len(),
                    lines@ == concat_mapi(views_of(elems@).take(i as int), tuple_from_json_line_fn(id@, ns@)),
                decreases elems.len() - i,
            {
                let e = &elems[i];
                let eid = e.id(ns);
                let di = decimal_string(i);
                let id = id.as_str();
                let mut line = String::from_str("        if (!dc_json_array_iter_is_valid(it)) return -1;\n    if (");
                line.append(eid.as_str());
                line.append("_from_json(dc_json_array_iter_value(it), &(*r)->field_");
                line.append(di.as_str());
                line.append(")) { ");
                line.append(id);
                line.append("_unref(*r); return -1; };\n    it = dc_json_array_iter_next(it);\n");
                proof {
                    lemma_concat_mapi_step(views_of(elems@), i as int, tuple_from_json_line_fn(id@, ns@));
                }
                lines.append(line.as_str());
                i = i + 1;
            }
            proof {
                lemma_take_all(views_of(elems@));
            }
            let mut s = String::from_str("    if (!dc_json_is_array(v)) return -1;\n    *r = (");
            s.append(ct.as_str());
            s.append(")calloc(1, sizeof(");
            s.append(id.as_str());
            s.append("_t));\n    dc_json_array_iter_t it = dc_json_array_iter_new(v);\n");
            s.append(lines.as_str());
            s
        },
        TypeExpr::Record(inner) => {
            let ii = inner.id(ns);
            let ci = inner.c_type(ns);
            let mut s = String::from_str("    if (!dc_json_is_object(v)) return -1;\n    *r = (");
            s.append(ct.as_str());
            s.append(")calloc(1, sizeof(");
            s.append(id.as_str());
            s.append("_t));\n    (*r)->len = (size_t)dc_json_len(v);\n    (*r)->keys = (const char**)calloc((*r)->len, sizeof(char*));\n    (*r)->values = (");
            s.append(ci.as_str());
            s.append("*)calloc((*r)->len, sizeof((*r)->values[0]));\n    dc_json_map_iter_t it = dc_json_map_iter_new(v);\n    for (size_t i = 0; i < (*r)->len; i++, it = dc_json_map_iter_next(it)) {\n        if (!dc_json_map_iter_is_valid(it)) return -1;\n        (*r)->keys[i] = dc_json_map_iter_copy_key(it);\n        if (!(*r)->keys[i]) return -1;\n        if (");
            s.append(ii.as_str());
            s.append("_from_json(dc_json_map_iter_value(it), &(*r)->values[i])) { ");
            s.append(id.as_str());
            s.append("_unref(*r); return -1; };\n    }\n");
            s
        },
        _ => String::new(),
    }
}

fn emit_from_json(o: &mut String, t: &TypeExpr, ns: &str)
    requires
        has_converters(t@),
    ensures
        final(o)@ == old(o)@ + from_json_text(t@, ns@),
{
    let id = t.id(ns);
    let ct = t.c_type(ns);
    let body = from_json_body_string(t, ns);
    let mut s = String::from_str("static inline int ");
    s.append(id.as_str());
    s.append("_from_json(dc_json_t v, ");
    s.append(ct.as_str());
    s.append("* r) {\n");
    s.append(body.as_str());
    s.append("    return 0;\n}\n");
    o.append(s.as_str());
}

/// What a container or scalar type defines after the named types: constructor,
/// destructor, parser and serializer.
pub open spec fn type_late_defs(ns: Seq<char>, t: CType) -> Seq<char> {
    if has_type_def(t) {
        Seq::empty()
    } else {
        container_struct_and_unref_text(t, ns) + from_json_text(t, ns) + to_json_text(t, ns)
    }
}

pub open spec fn type_late_defs_fn(ns: Seq<char>) -> spec_fn(CType) -> Seq<char> {
    |t: CType| type_late_defs(ns, t)
}

pub open spec fn late_text(types: Seq<CType>, ns: Seq<char>) -> Seq<char> {
    concat_map(visit_order(types), type_late_defs_fn(ns))
}

/// No visited type is `void`: a `void` among the types would leave the converters
/// without a body, and the generator refuses it.
pub open spec fn no_void_visited(types: Seq<CType>) -> bool {
    forall|i: int| 0 <= i < visit_order(types).len() ==> !(#[trigger] visit_order(types)[i] is Void)
}

#[verifier::loop_isolation(false)]
fn emit_type_expr_late(out: &mut String, types: &[TypeExpr], ns: &str)
    requires
        no_void_visited(views_of(types@)),
    ensures
        final(out)@ == old(out)@ + late_text(views_of(types@), ns@),
{
    let order = apply_recursive(types);
    proof {
        lemma_views_of_len(order@);
    }
    let mut body = String::new();
    let mut i: usize = 0;
    while i < order.len()
        invariant
            i <= order.len(),
            body@ == concat_map(views_of(order@).take(i as int), type_late_defs_fn(ns@)),
        decreases order.len() - i,
    {
        let t = &order[i];
        let line = if t.has_type_def() {
            String::new()
        } else {
            assert(views_of(order@)[i as int] == t@);
            let mut a = String::new();
            emit_container_struct_and_unref(&mut a, ns, t);
            let mut b = String::new();
            emit_from_json(&mut b, t, ns);
            let mut c = String::new();
            emit_to_json(&mut c, t, ns);
            proof {
                assert(a@ =~= container_struct_and_unref_text(t@, ns@));
                assert(b@ =~= from_json_text(t@, ns@));
                assert(c@ =~= to_json_text(t@, ns@));
            }
            let mut line = String::from_str(a.as_str());
            line.append(b.as_str());
            line.append(c.as_str());
            line
        };
        proof {
            lemma_concat_map_step(views_of(order@), i as int, type_late_defs_fn(ns@));
        }
        body.append(line.as_str());
        i = i + 1;
    }
    proof {
        lemma_take_all(views_of(order@));
    }
    out.append(body.as_str());
}

/// The fixed start of the C header: includes, the request and result types and the
/// response parser, prefixed with `ns`.
pub open spec fn header_preamble_text(ns: Seq<char>) -> Seq<char> {
    "#pragma once\n\n#include <stdbool.h>\n#include <stdint.h>\n#include <stdlib.h>\n#include <string.h>\n\n#include \"dc_json_cjson.h\"\n/* dc_json backend must be included before this header */\n\ntypedef struct {\n    const char* json;   /* serialized JSON-RPC string (owned) */\n} "@ + ns + "request_t;\n\nstatic inline const char* "@ + ns + "string_new(const char* s) { return strdup(s); }\nstatic inline void "@ + ns + "string_unref(const char* s) { free((char*)s); }\n\nstatic inline void "@ + ns + "request_unref("@ + ns + "request_t* r) {\n    if (r) {\n        free((void*)r->json);\n        free(r);\n    }\n}\n\ntypedef struct {\n    uint32_t      id;\n    int32_t       error_code;     /* 0 = success, -32700 = parse fail, else JSON-RPC error */\n    dc_json_t     result;         /* node in doc_, valid when error_code == 0 */\n    const char*   error_message;  /* owned string or literal, valid when error_code != 0 */\n    dc_json_doc_t doc_;        /* owns the parsed tree */\n} "@ + ns + "result_t;\n\nstatic inline "@ + ns + "result_t* "@ + ns + "parse_response(const char* json) {\n    "@ + ns + "result_t* r = ("@ + ns + "result_t*)calloc(1, sizeof("@ + ns + "result_t));\n    if (!r) return NULL;\n\n    r->doc_ = dc_json_doc_parse(json);\n    dc_json_t root = dc_json_root(r->doc_);\n    if (!dc_json_is_valid(root)) {\n        r->error_code = -32700;\n        r->error_message = strdup(\"Failed to parse JSON\");\n        return r;\n    }\n\n    dc_json_t id = dc_json_get(root, \"id\");\n    if (!dc_json_is_number(id)) {\n        r->error_code = -32700;\n        r->error_message = strdup(\"Repsonse does not have a valid `id`\");\n        return r;\n    }\n    r->id = (uint32_t)dc_json_get_double(id);\n\n    dc_json_t error = dc_json_get(root, \"error\");\n    if (dc_json_is_valid(error) && dc_json_is_object(error)) {\n        dc_json_t code = dc_json_get(error, \"code\");\n        dc_json_t message = dc_json_get(error, \"message\");\n        r->error_code = dc_json_is_number(code) ? (int32_t)dc_json_get_double(code) : -32700;\n        r->error_message = dc_json_is_string(message) ? dc_json_copy_string(message) : strdup(\"Unknown error\");\n        return r;\n    }\n\n    dc_json_t result = dc_json_get(root, \"result\");\n    if (!dc_json_is_valid(result)) {\n        r->error_code = -32700;\n        r->error_message = strdup(\"Response has neither 'result' nor 'error'\");\n        return r;\n    }\n\n    r->result = result;\n    return r;\n}\n\nstatic inline void "@ + ns + "result_unref("@ + ns + "result_t* r) {\n    if (r) {\n        dc_json_doc_free(r->doc_);\n        free((char*)r->error_message);\n        free(r);\n    }\n}\n"@
}

pub(crate) fn header_preamble(ns: &str) -> (r: String)
    ensures
        r@ == header_preamble_text(ns@),
{
    let mut s = String::from_str("#pragma once\n\n#include <stdbool.h>\n#include <stdint.h>\n#include <stdlib.h>\n#include <string.h>\n\n#include \"dc_json_cjson.h\"\n/* dc_json backend must be included before this header */\n\ntypedef struct {\n    const char* json;   /* serialized JSON-RPC string (owned) */\n} ");
    s.append(ns);
    s.append("request_t;\n\nstatic inline const char* ");
    s.append(ns);
    s.append("string_new(const char* s) { return strdup(s); }\nstatic inline void ");
    s.append(ns);
    s.append("string_unref(const char* s) { free((char*)s); }\n\nstatic inline void ");
    s.append(ns);
    s.append("request_unref(");
    s.append(ns);
    s.append("request_t* r) {\n    if (r) {\n        free((void*)r->json);\n        free(r);\n    }\n}\n\ntypedef struct {\n    uint32_t      id;\n    int32_t       error_code;     /* 0 = success, -32700 = parse fail, else JSON-RPC error */\n    dc_json_t     result;         /* node in doc_, valid when error_code == 0 */\n    const char*   error_message;  /* owned string or literal, valid when error_code != 0 */\n    dc_json_doc_t doc_;        /* owns the parsed tree */\n} ");
    s.append(ns);
    s.append("result_t;\n\nstatic inline ");
    s.append(ns);
    s.append("result_t* ");
    s.append(ns);
    s.append("parse_response(const char* json) {\n    ");
    s.append(ns);
    s.append("result_t* r = (");
    s.append(ns);
    s.append("result_t*)calloc(1, sizeof(");
    s.append(ns);
    s.append("result_t));\n    if (!r) return NULL;\n\n    r->doc_ = dc_json_doc_parse(json);\n    dc_json_t root = dc_json_root(r->doc_);\n    if (!dc_json_is_valid(root)) {\n        r->error_code = -32700;\n        r->error_message = strdup(\"Failed to parse JSON\");\n        return r;\n    }\n\n    dc_json_t id = dc_json_get(root, \"id\");\n    if (!dc_json_is_number(id)) {\n        r->error_code = -32700;\n        r->error_message = strdup(\"Repsonse does not have a valid `id`\");\n        return r;\n    }\n    r->id = (uint32_t)dc_json_get_double(id);\n\n    dc_json_t error = dc_json_get(root, \"error\");\n    if (dc_json_is_valid(error) && dc_json_is_object(error)) {\n        dc_json_t code = dc_json_get(error, \"code\");\n        dc_json_t message = dc_json_get(error, \"message\");\n        r->error_code = dc_json_is_number(code) ? (int32_t)dc_json_get_double(code) : -32700;\n        r->error_message = dc_json_is_string(message) ? dc_json_copy_string(message) : strdup(\"Unknown error\");\n        return r;\n    }\n\n    dc_json_t result = dc_json_get(root, \"result\");\n    if (!dc_json_is_valid(result)) {\n        r->error_code = -32700;\n        r->error_message = strdup(\"Response has neither 'result' nor 'error'\");\n        return r;\n    }\n\n    r->result = result;\n    return r;\n}\n\nstatic inline void ");
    s.append(ns);
    s.append("result_unref(");
    s.append(ns);
    s.append("result_t* r) {\n    if (r) {\n        dc_json_doc_free(r->doc_);\n        free((char*)r->error_message);\n        free(r);\n    }\n}\n");
    s
}

/// An RPC method as the bindings see it.
#[derive(Debug, Clone)]
pub struct Method {
    pub c_name: String,
    pub rpc_name: String,
    pub args: Vec<(String, TypeExpr)>,
    pub output: Option<TypeExpr>,
    pub is_notification: bool,
    pub is_positional: bool,
}

pub struct MethodModel {
    pub c_name: Seq<char>,
    pub rpc_name: Seq<char>,
    pub args: Seq<FieldModel>,
    pub output: Option<CType>,
    pub is_notification: bool,
    pub is_positional: bool,
}

pub open spec fn option_view(o: Option<TypeExpr>) -> Option<CType> {
    match o {
        Some(t) => Some(t@),
        None => None,
    }
}

impl View for Method {
    type V = MethodModel;

    open spec fn view(&self) -> MethodModel {
        MethodModel {
            c_name: self.c_name@,
            rpc_name: self.rpc_name@,
            args: fields_view(self.args@),
            output: option_view(self.output),
            is_notification: self.is_notification,
            is_positional: self.is_positional,
        }
    }
}

/// The output that a method keeps: none for `void`.
pub open spec fn kept_output(o: Option<CType>) -> Option<CType> {
    match o {
        Some(t) => if t is Void {
            None
        } else {
            Some(t)
        },
        None => None,
    }
}

/// The parameter list of a request builder: the request id unless the method is a
/// notification, then the arguments.
pub open spec fn build_params(m: MethodModel, ns: Seq<char>) -> Seq<char> {
    if m.is_notification {
        type_def::c_argument_list(m.args, ns)
    } else if m.args.len() == 0 {
        "uint32_t _rpc_id"@
    } else {
        "uint32_t _rpc_id, "@ + type_def::c_argument_list(m.args, ns)
    }
}

pub open spec fn positional_param_line(ns: Seq<char>, f: FieldModel) -> Seq<char> {
    "    dc_json_add_to_array(params, "@ + type_id(f.1, ns) + "_to_json("@ + f.0 + "));\n"@
}

pub open spec fn positional_param_line_fn(ns: Seq<char>) -> spec_fn(FieldModel) -> Seq<char> {
    |f: FieldModel| positional_param_line(ns, f)
}

pub open spec fn named_param_line(ns: Seq<char>, f: FieldModel) -> Seq<char> {
    "    params = dc_json_add_to_object(params, \""@ + f.0 + "\", "@ + type_id(f.1, ns) + "_to_json("@ + f.0 + "));\n"@
}

pub open spec fn named_param_line_fn(ns: Seq<char>) -> spec_fn(FieldModel) -> Seq<char> {
    |f: FieldModel| named_param_line(ns, f)
}

/// The `params` member: an array for positional methods, an object otherwise, none
/// without arguments.
pub open spec fn params_block(m: MethodModel, ns: Seq<char>) -> Seq<char> {
    if m.args.len() == 0 {
        Seq::empty()
    } else if m.is_positional {
        "    dc_json_t params = dc_json_new_array();\n"@ + concat_map(m.args, positional_param_line_fn(ns)) + "    req = dc_json_add_to_object(req, \"params\", params);\n"@
    } else {
        "    dc_json_t params = dc_json_new_object();\n"@ + concat_map(m.args, named_param_line_fn(ns)) + "    req = dc_json_add_to_object(req, \"params\", params);\n"@
    }
}

pub open spec fn id_member(m: MethodModel) -> Seq<char> {
    if m.is_notification {
        Seq::empty()
    } else {
        "    req = dc_json_add_to_object(req, \"id\", dc_json_new_number((double)_rpc_id));\n"@
    }
}

/// The body of a request builder: a JSON-RPC 2.0 request object, printed.
pub open spec fn build_fn_body(m: MethodModel, ns: Seq<char>) -> Seq<char> {
    "    dc_json_doc_t doc = dc_json_doc_new();\n    dc_json_t req = dc_json_root(doc);\n    req = dc_json_add_to_object(req, \"jsonrpc\", dc_json_new_string(\"2.0\"));\n"@ + id_member(m) + "    req = dc_json_add_to_object(req, \"method\", dc_json_new_string(\""@ + m.rpc_name + "\"));\n"@ + params_block(m, ns) + "    "@ + ns + "request_t* r = ("@ + ns + "request_t*)calloc(1, sizeof("@ + ns + "request_t));\n    r->json = dc_json_print(req);\n    dc_json_doc_free(doc);\n    return r;\n"@
}

/// The C function that builds a request for the method.
pub open spec fn build_fn_text(m: MethodModel, ns: Seq<char>) -> Seq<char> {
    "static inline "@ + ns + "request_t* "@ + ns + "build_"@ + m.c_name + "("@ + build_params(m, ns) + ") {\n"@ + build_fn_body(m, ns) + "}\n"@
}

/// The C function that reads a method's result of type `t` from a response; on a
/// parse failure it records error -32700 and returns the zero value.
pub open spec fn parse_fn_text(t: CType, c_name: Seq<char>, ns: Seq<char>) -> Seq<char> {
    "static inline "@ + c_type(t, ns) + " "@ + ns + "parse_"@ + c_name + "("@ + ns + "result_t* r) {\n    if (!r || r->error_code != 0) return "@ + zero_val(t, ns) + ";\n    "@ + c_type(t, ns) + " o;\n    if ("@ + type_id(t, ns) + "_from_json(r->result, &o)) {\n        r->error_code = -32700;\n        r->error_message = strdup(\"parse error\");\n        return "@ + zero_val(t, ns) + ";\n    }\n    return o;\n}\n"@
}

/// The result parser of the method: none for a notification or a method without output.
pub open spec fn parse_fn_spec(m: MethodModel, ns: Seq<char>) -> Option<Seq<char>> {
    match m.output {
        Some(t) => if m.is_notification {
            None
        } else {
            Some(parse_fn_text(t, m.c_name, ns))
        },
        None => None,
    }
}

impl Method {
    pub fn new(
        rpc_name: &str,
        args: Vec<(String, TypeExpr)>,
        output: Option<TypeExpr>,
        is_notification: bool,
        is_positional: bool,
    ) -> (r: Self)
        ensures
            r@ == (MethodModel {
                c_name: case_converted(rpc_name@, CaseStyle::Snake),
                rpc_name: rpc_name@,
                args: fields_view(args@),
                output: kept_output(option_view(output)),
                is_notification,
                is_positional,
            }),
    {
        let output = match output {
            Some(ct) => if matches!(ct, TypeExpr::Void) {
                None
            } else {
                Some(ct)
            },
            None => None,
        };
        Method {
            c_name: to_case(rpc_name, CaseStyle::Snake),
            rpc_name: String::from_str(rpc_name),
            args,
            output,
            is_notification,
            is_positional,
        }
    }

    /// The C function `<ns>build_<c_name>` that serializes a call of the method.
    #[verifier::loop_isolation(false)]
    pub fn build_fn(&self, ns: &str) -> (r: String)
        ensures
            r@ == build_fn_text(self@, ns@),
    {
        let args = type_def::argument_list(&self.args, ns);
        let params = if self.is_notification {
            args
        } else if self.args.len() == 0 {
            String::from_str("uint32_t _rpc_id")
        } else {
            let mut p = String::from_str("uint32_t _rpc_id, ");
            p.append(args.as_str());
            p
        };
        let idm = if self.is_notification {
            String::new()
        } else {
            String::from_str("    req = dc_json_add_to_object(req, \"id\", dc_json_new_number((double)_rpc_id));\n")
        };
        let fields = &self.args;
        let pb = if self.args.len() == 0 {
            String::new()
        } else if self.is_positional {
            let mut lines = String::new();
            let mut i: usize = 0;
            while i < fields.len()
                invariant
                    i <= fields.len(),
                    lines@ == concat_map(fields_view(fields@).take(i as int), positional_param_line_fn(ns@)),
                decreases fields.len() - i,
            {
                let fname = &fields[i].0;
                let fty = &fields[i].1;
                let fid = fty.id(ns);
                let mut line = String::from_str("    dc_json_add_to_array(params, ");
                line.append(fid.as_str());
                line.append("_to_json(");
                line.append(fname.as_str());
                line.append("));\n");
                proof {
                    lemma_concat_map_step(fields_view(fields@), i as int, positional_param_line_fn(ns@));
                }
                lines.append(line.as_str());
                i = i + 1;
            }
            proof {
                lemma_take_all(fields_view(fields@));
            }
            let mut s = String::from_str("    dc_json_t params = dc_json_new_array();\n");
            s.append(lines.as_str());
            s.append("    req = dc_json_add_to_object(req, \"params\", params);\n");
            s
        } else {
            let mut lines = String::new();
            let mut i: usize = 0;
            while i < fields.len()
                invariant
                    i <= fields.len(),
                    lines@ == concat_map(fields_view(fields@).take(i as int), named_param_line_fn(ns@)),
                decreases fields.len() - i,
            {
                let fname = &fields[i].0;
                let fty = &fields[i].1;
                let fid = fty.id(ns);
                let mut line = String::from_str("    params = dc_json_add_to_object(params, \"");
                line.append(fname.as_str());
                line.append("\", ");
                line.append(fid.as_str());
                line.append("_to_json(");
                line.append(fname.as_str());
                line.append("));\n");
                proof {
                    lemma_concat_map_step(fields_view(fields@), i as int, named_param_line_fn(ns@));
                }
                lines.append(line.as_str());
                i = i + 1;
            }
            proof {
                lemma_take_all(fields_view(fields@));
            }
            let mut s = String::from_str("    dc_json_t params = dc_json_new_object();\n");
            s.append(lines.as_str());
            s.append("    req = dc_json_add_to_object(req, \"params\", params);\n");
            s
        };
        let mut body = String::from_str("    dc_json_doc_t doc = dc_json_doc_new();\n    dc_json_t req = dc_json_root(doc);\n    req = dc_json_add_to_object(req, \"jsonrpc\", dc_json_new_string(\"2.0\"));\n");
        body.append(idm.as_str());
        body.append("    req = dc_json_add_to_object(req, \"method\", dc_json_new_string(\"");
        body.append(self.rpc_name.as_str());
        body.append("\"));\n");
        body.append(pb.as_str());
        body.append("    ");
        body.append(ns);
        body.append("request_t* r = (");
        body.append(ns);
        body.append("request_t*)calloc(1, sizeof(");
        body.append(ns);
        body.append("request_t));\n    r->json = dc_json_print(req);\n    dc_json_doc_free(doc);\n    return r;\n");
        let mut s = String::from_str("static inline ");
        s.append(ns);
        s.append("request_t* ");
        s.append(ns);
        s.append("build_");
        s.append(self.c_name.as_str());
        s.append("(");
        s.append(params.as_str());
        s.append(") {\n");
        s.append(body.as_str());
        s.append("}\n");
        s
    }

    /// The C function `<ns>parse_<c_name>` that reads the method's result; none for a
    /// notification or a method without output.
    pub fn parse_fn(&self, ns: &str) -> (r: Option<String>)
        ensures
            match r {
                Some(s) => parse_fn_spec(self@, ns@) == Some(s@),
                None => parse_fn_spec(self@, ns@) is None,
            },
    {
        let t = match &self.output {
            Some(t) => t,
            None => return None,
        };
        if self.is_notification {
            return None;
        }
        let ret = t.c_type(ns);
        let zero = t.zero_val(ns);
        let tid = t.id(ns);
        let c_name = self.c_name.as_str();
        let mut s = String::from_str("static inline ");
        s.append(ret.as_str());
        s.append(" ");
        s.append(ns);
        s.append("parse_");
        s.append(c_name);
        s.append("(");
        s.append(ns);
        s.append("result_t* r) {\n    if (!r || r->error_code != 0) return ");
        s.append(zero.as_str());
        s.append(";\n    ");
        s.append(ret.as_str());
        s.append(" o;\n    if (");
        s.append(tid.as_str());
        s.append("_from_json(r->result, &o)) {\n        r->error_code = -32700;\n        r->error_message = strdup(\"parse error\");\n        return ");
        s.append(zero.as_str());
        s.append(";\n    }\n    return o;\n}\n");
        Some(s)
    }
}

pub open spec fn defs_view(ds: Seq<TypeDef>) -> Seq<type_def::TypeDefModel> {
    ds.map_values(|d: TypeDef| d@)
}

pub open spec fn methods_view(ms: Seq<Method>) -> Seq<MethodModel> {
    ms.map_values(|m: Method| m@)
}

pub open spec fn defs_field_types(ds: Seq<type_def::TypeDefModel>) -> Seq<CType>
    decreases ds.len(),
{
    if ds.len() == 0 {
        Seq::empty()
    } else {
        defs_field_types(ds.drop_last()) + type_def::def_field_types(ds.last().def)
    }
}

/// The types that a method mentions: its output, then its arguments.
pub open spec fn method_types(m: MethodModel) -> Seq<CType> {
    (match m.output {
        Some(t) => seq![t],
        None => Seq::empty(),
    }) + type_def::field_types(m.args)
}

pub open spec fn methods_types(ms: Seq<MethodModel>) -> Seq<CType>
    decreases ms.len(),
{
    if ms.len() == 0 {
        Seq::empty()
    } else {
        methods_types(ms.drop_last()) + method_types(ms.last())
    }
}

/// Every type that the definitions' fields and the methods mention directly.
pub open spec fn all_type_exprs(ms: Seq<MethodModel>, ds: Seq<type_def::TypeDefModel>) -> Seq<CType> {
    defs_field_types(ds) + methods_types(ms)
}

pub proof fn lemma_views_of_concat(a: Seq<TypeExpr>, b: Seq<TypeExpr>)
    ensures
        views_of(a + b) == views_of(a) + views_of(b),
    decreases b.len(),
{
    if b.len() == 0 {
        assert(a + b =~= a);
        assert(views_of(a) + views_of(b) =~= views_of(a));
    } else {
        lemma_views_of_concat(a, b.drop_last());
        assert((a + b).drop_last() =~= a + b.drop_last());
        assert(views_of(a) + views_of(b) =~= (views_of(a) + views_of(b.drop_last())).push(
            view_of(b.last()),
        ));
    }
}

/// The types of the definitions' fields, then of each method's output and arguments.
#[verifier::loop_isolation(false)]
pub(crate) fn collect_all_type_exprs(methods: &[Method], defs: &[TypeDef]) -> (r: Vec<TypeExpr>)
    ensures
        views_of(r@) == all_type_exprs(methods_view(methods@), defs_view(defs@)),
{
    let mut types: Vec<TypeExpr> = Vec::new();
    let ghost ds = defs_view(defs@);
    let mut i: usize = 0;
    while i < defs.len()
        invariant
            i <= defs.len(),
            views_of(types@) == defs_field_types(ds.take(i as int)),
        decreases defs.len() - i,
    {
        let mut f = defs[i].field_ctypes();
        proof {
            lemma_views_of_concat(types@, f@);
            assert(ds.take(i as int + 1).drop_last() =~= ds.take(i as int));
        }
        types.append(&mut f);
        i = i + 1;
    }
    proof {
        lemma_take_all(ds);
    }
    let ghost base = views_of(types@);
    let ghost ms = methods_view(methods@);
    let mut j: usize = 0;
    while j < methods.len()
        invariant
            j <= methods.len(),
            base == defs_field_types(ds),
            views_of(types@) == base + methods_types(ms.take(j as int)),
        decreases methods.len() - j,
    {
        let m = &methods[j];
        let ghost before = views_of(types@);
        if let Some(ct) = &m.output {
            let c = ct.copied();
            proof {
                lemma_views_of_push(types@, c);
            }
            types.push(c);
        }
        let ghost mid = views_of(types@);
        type_def::push_field_types(&mut types, &m.args);
        proof {
            assert(ms.take(j as int + 1).drop_last() =~= ms.take(j as int));
            assert(mid == before + (match ms[j as int].output {
                Some(t) => seq![t],
                None => Seq::<CType>::empty(),
            })) by {
                match m.output {
                    Some(t) => {},
                    None => {
                        assert(mid =~= before + Seq::<CType>::empty());
                    },
                }
            }
            assert(views_of(types@) =~= base + methods_types(ms.take(j as int + 1)));
        }
        j = j + 1;
    }
    proof {
        lemma_take_all(ms);
    }
    types
}

pub open spec fn forward_decls_fn(ns: Seq<char>) -> spec_fn(type_def::TypeDefModel) -> Seq<char> {
    |d: type_def::TypeDefModel| type_def::forward_decls_text(d, ns)
}

pub open spec fn late_decls_fn(ns: Seq<char>) -> spec_fn(type_def::TypeDefModel) -> Seq<char> {
    |d: type_def::TypeDefModel| type_def::late_decls_text(d, ns)
}

pub open spec fn definitions_fn(ns: Seq<char>) -> spec_fn(type_def::TypeDefModel) -> Seq<char> {
    |d: type_def::TypeDefModel| type_def::definitions_text(d, ns)
}

/// What a method contributes: its request builder, then its result parser if any.
pub open spec fn method_text(ns: Seq<char>, m: MethodModel) -> Seq<char> {
    build_fn_text(m, ns) + match parse_fn_spec(m, ns) {
        Some(p) => p,
        None => Seq::empty(),
    }
}

pub open spec fn method_text_fn(ns: Seq<char>) -> spec_fn(MethodModel) -> Seq<char> {
    |m: MethodModel| method_text(ns, m)
}

/// The complete C header for the methods and definitions.
pub open spec fn header_text(ms: Seq<MethodModel>, ds: Seq<type_def::TypeDefModel>, ns: Seq<char>) -> Seq<char> {
    let all = all_type_exprs(ms, ds);
    header_preamble_text(ns) + forward_declarations_text(all, ns) + concat_map(ds, forward_decls_fn(ns))
        + concat_map(ds, late_decls_fn(ns)) + early_text(all, ns) + concat_map(ds, definitions_fn(ns))
        + late_text(all, ns) + concat_map(ms, method_text_fn(ns))
}

fn emit_defs_forward(out: &mut String, defs: &[TypeDef], ns: &str)
    ensures
        final(out)@ == old(out)@ + concat_map(defs_view(defs@), forward_decls_fn(ns@)),
{
    let ghost o = out@;
    let mut i: usize = 0;
    while i < defs.len()
        invariant
            i <= defs.len(),
            out@ == o + concat_map(defs_view(defs@).take(i as int), forward_decls_fn(ns@)),
        decreases defs.len() - i,
    {
        defs[i].emit_forward_decls(out, ns);
        proof {
            lemma_concat_map_step(defs_view(defs@), i as int, forward_decls_fn(ns@));
            assert(out@ =~= o + concat_map(defs_view(defs@).take(i as int + 1), forward_decls_fn(ns@)));
        }
        i = i + 1;
    }
    proof {
        lemma_take_all(defs_view(defs@));
    }
}

fn emit_defs_late(out: &mut String, defs: &[TypeDef], ns: &str)
    ensures
        final(out)@ == old(out)@ + concat_map(defs_view(defs@), late_decls_fn(ns@)),
{
    let ghost o = out@;
    let mut i: usize = 0;
    while i < defs.len()
        invariant
            i <= defs.len(),
            out@ == o + concat_map(defs_view(defs@).take(i as int), late_decls_fn(ns@)),
        decreases defs.len() - i,
    {
        defs[i].emit_late_decls(out, ns);
        proof {
            lemma_concat_map_step(defs_view(defs@), i as int, late_decls_fn(ns@));
            assert(out@ =~= o + concat_map(defs_view(defs@).take(i as int + 1), late_decls_fn(ns@)));
        }
        i = i + 1;
    }
    proof {
        lemma_take_all(defs_view(defs@));
    }
}

fn emit_defs_definitions(out: &mut String, defs: &[TypeDef], ns: &str)
    ensures
        final(out)@ == old(out)@ + concat_map(defs_view(defs@), definitions_fn(ns@)),
{
    let ghost o = out@;
    let mut i: usize = 0;
    while i < defs.len()
        invariant
            i <= defs.len(),
            out@ == o + concat_map(defs_view(defs@).take(i as int), definitions_fn(ns@)),
        decreases defs.len() - i,
    {
        defs[i].emit_definitions(out, ns);
        proof {
            lemma_concat_map_step(defs_view(defs@), i as int, definitions_fn(ns@));
            assert(out@ =~= o + concat_map(defs_view(defs@).take(i as int + 1), definitions_fn(ns@)));
        }
        i = i + 1;
    }
    proof {
        lemma_take_all(defs_view(defs@));
    }
}

fn emit_methods(out: &mut String, methods: &[Method], ns: &str)
    ensures
        final(out)@ == old(out)@ + concat_map(methods_view(methods@), method_text_fn(ns@)),
{
    let ghost o = out@;
    let mut i: usize = 0;
    while i < methods.len()
        invariant
            i <= methods.len(),
            out@ == o + concat_map(methods_view(methods@).take(i as int), method_text_fn(ns@)),
        decreases methods.len() - i,
    {
        let m = &methods[i];
        let mut t = m.build_fn(ns);
        match m.parse_fn(ns) {
            Some(p) => t.append(p.as_str()),
            None => {
                assert(t@ =~= t@ + Seq::<char>::empty());
            },
        }
        out.append(t.as_str());
        proof {
            lemma_concat_map_step(methods_view(methods@), i as int, method_text_fn(ns@));
            assert(out@ =~= o + concat_map(methods_view(methods@).take(i as int + 1), method_text_fn(ns@)));
        }
        i = i + 1;
    }
    proof {
        lemma_take_all(methods_view(methods@));
    }
}

/// The C header (`rpc.h`) for the methods and definitions, with every
/// identifier prefixed by `ns`.
pub fn generate_header(methods: &[Method], defs: &[TypeDef], ns: &str) -> (r: String)
    requires
        no_void_visited(all_type_exprs(methods_view(methods@), defs_view(defs@))),
    ensures
        r@ == header_text(methods_view(methods@), defs_view(defs@), ns@),
{
    let mut out = header_preamble(ns);
    let all = collect_all_type_exprs(methods, defs);
    emit_type_expr_forward_declarations(&mut out, all.as_slice(), ns);
    emit_defs_forward(&mut out, defs, ns);
    emit_defs_late(&mut out, defs, ns);
    emit_type_expr_early(&mut out, all.as_slice(), ns);
    emit_defs_definitions(&mut out, defs, ns);
    emit_type_expr_late(&mut out, all.as_slice(), ns);
    emit_methods(&mut out, methods, ns);
    out
}

/// Whether some visited type is `void`.
pub(crate) fn visits_void(types: &[TypeExpr]) -> (r: bool)
    ensures
        r == !no_void_visited(views_of(types@)),
{
    let order = apply_recursive(types);
    proof {
        lemma_views_of_len(order@);
    }
    let mut i: usize = 0;
    while i < order.len()
        invariant
            i <= order.len(),
            views_of(order@) == visit_order(views_of(types@)),
            views_of(order@).len() == order@.len(),
            forall|j: int| 0 <= j < order@.len() ==> #[trigger] views_of(order@)[j] == order@[j]@,
            forall|j: int| 0 <= j < i ==> !(#[trigger] visit_order(views_of(types@))[j] is Void),
        decreases order.len() - i,
    {
        if matches!(order[i], TypeExpr::Void) {
            assert(visit_order(views_of(types@))[i as int] is Void);
            return true;
        }
        i = i + 1;
    }
    false
}

/// The C header, or `None` where a `void` is among the types to convert (the one
/// input that the generator refuses).
pub fn checked_generate_header(methods: &[Method], defs: &[TypeDef], ns: &str) -> (r: Option<String>)
    ensures
        match r {
            Some(s) => no_void_visited(all_type_exprs(methods_view(methods@), defs_view(defs@)))
                && s@ == header_text(methods_view(methods@), defs_view(defs@), ns@),
            None => !no_void_visited(all_type_exprs(methods_view(methods@), defs_view(defs@))),
        },
{
    let all = collect_all_type_exprs(methods, defs);
    if visits_void(all.as_slice()) {
        None
    } else {
        Some(generate_header(methods, defs, ns))
    }
}

} // verus!

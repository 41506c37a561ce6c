//! Static descriptions of TypeScript types, the input of the generators: a graph
//! of type infos whose expressions refer to other infos by index.
use vstd::prelude::*;

verus! {

/// All type infos that a description reaches; `TypeExpr::Ref(i)` names `infos[i]`.
#[derive(Debug)]
pub struct TypeGraph {
    pub infos: Vec<TypeInfo>,
}

/// A built-in type, or a named type definition applied to arguments.
#[derive(Debug)]
pub enum TypeInfo {
    Native(NativeTypeInfo),
    Defined(DefinedTypeInfo),
}

#[derive(Debug)]
pub struct NativeTypeInfo {
    pub expr: TypeExpr,
}

#[derive(Debug)]
pub struct DefinedTypeInfo {
    pub def: TypeDefinition,
    pub generic_args: Vec<TypeExpr>,
}

#[derive(Debug)]
pub struct TypeDefinition {
    pub name: String,
    pub def: TypeExpr,
}

/// A TypeScript type expression.
#[derive(Debug)]
pub enum TypeExpr {
    Ref(usize),
    Name(TypeName),
    String(TypeString),
    Tuple(TypeTuple),
    Object(TypeObject),
    Array(TypeArray),
    Union(TypeUnion),
    Intersection(TypeIntersection),
}

#[derive(Debug)]
pub struct TypeName {
    pub name: String,
    pub generic_args: Vec<TypeExpr>,
}

/// A string literal type.
#[derive(Debug)]
pub struct TypeString {
    pub value: String,
}

#[derive(Debug)]
pub struct TypeTuple {
    pub elements: Vec<TypeExpr>,
}

/// An object type: its fields, and whether it has an index signature.
#[derive(Debug)]
pub struct TypeObject {
    pub has_index_signature: bool,
    pub fields: Vec<ObjectField>,
}

#[derive(Debug)]
pub struct ObjectField {
    pub name: TypeString,
    pub optional: bool,
    pub ty: TypeExpr,
}

#[derive(Debug)]
pub struct TypeArray {
    pub item: Box<TypeExpr>,
}

#[derive(Debug)]
pub struct TypeUnion {
    pub members: Vec<TypeExpr>,
}

#[derive(Debug)]
pub struct TypeIntersection {
    pub members: Vec<TypeExpr>,
}

/// Every info index that `e` refers to directly (not through other infos) is
/// below `n`.
pub open spec fn refs_below(e: TypeExpr, n: int) -> bool
    decreases e,
{
    match e {
        TypeExpr::Ref(j) => j < n,
        TypeExpr::Name(t) => forall|k: int| 0 <= k < t.generic_args@.len() ==> refs_below(#[trigger] t.generic_args@[k], n),
        TypeExpr::String(_) => true,
        TypeExpr::Tuple(t) => forall|k: int| 0 <= k < t.elements@.len() ==> refs_below(#[trigger] t.elements@[k], n),
        TypeExpr::Object(o) => forall|k: int| 0 <= k < o.fields@.len() ==> refs_below(#[trigger] o.fields@[k].ty, n),
        TypeExpr::Array(a) => refs_below(*a.item, n),
        TypeExpr::Union(u) => forall|k: int| 0 <= k < u.members@.len() ==> refs_below(#[trigger] u.members@[k], n),
        TypeExpr::Intersection(u) => forall|k: int| 0 <= k < u.members@.len() ==> refs_below(#[trigger] u.members@[k], n),
    }
}

/// An info is well formed when its expressions refer only to existing infos and
/// the references that a conversion follows without a definition in between
/// (those of a built-in type, of a definition's type arguments and of an alias)
/// go to lower indices, so that following them ends.
pub open spec fn info_wf(g: TypeGraph, i: int) -> bool {
    match g.infos@[i] {
        TypeInfo::Native(n) => refs_below(n.expr, i),
        TypeInfo::Defined(d) => (forall|k: int|
            0 <= k < d.generic_args@.len() ==> refs_below(#[trigger] d.generic_args@[k], i)) && if d.def.def is Object
            || d.def.def is Union {
            refs_below(d.def.def, g.infos@.len() as int)
        } else {
            refs_below(d.def.def, i)
        },
    }
}

pub open spec fn graph_wf(g: TypeGraph) -> bool {
    forall|i: int| 0 <= i < g.infos@.len() ==> #[trigger] info_wf(g, i)
}

/// Whether every info index that `e` refers to directly is below `n`.
#[verifier::loop_isolation(false)]
pub fn refs_below_exec(e: &TypeExpr, n: usize) -> (r: bool)
    ensures
        r == refs_below(*e, n as int),
    decreases *e,
{
    match e {
        TypeExpr::Ref(j) => *j < n,
        TypeExpr::Name(t) => {
            proof {
                assert(decreases_to!(*e => t.generic_args@));
            }
            all_refs_below(&t.generic_args, n)
        },
        TypeExpr::String(_) => true,
        TypeExpr::Tuple(t) => {
            proof {
                assert(decreases_to!(*e => t.elements@));
            }
            all_refs_below(&t.elements, n)
        },
        TypeExpr::Object(o) => {
            let mut i: usize = 0;
            while i < o.fields.len()
                invariant
                    i <= o.fields.len(),
                    forall|k: int| 0 <= k < i ==> refs_below(#[trigger] o.fields@[k].ty, n as int),
                decreases o.fields.len() - i,
            {
                proof {
                    assert(decreases_to!(*e => o.fields@));
                    assert(decreases_to!(o.fields@ => o.fields@[i as int]));
                    assert(decreases_to!(o.fields@[i as int] => o.fields@[i as int].ty));
                }
                if !refs_below_exec(&o.fields[i].ty, n) {
                    return false;
                }
                i = i + 1;
            }
            true
        },
        TypeExpr::Array(a) => refs_below_exec(&a.item, n),
        TypeExpr::Union(u) => {
            proof {
                assert(decreases_to!(*e => u.members@));
            }
            all_refs_below(&u.members, n)
        },
        TypeExpr::Intersection(u) => {
            proof {
                assert(decreases_to!(*e => u.members@));
            }
            all_refs_below(&u.members, n)
        },
    }
}

/// Whether every expression of `es` refers only to indices below `n`.
pub fn all_refs_below(es: &Vec<TypeExpr>, n: usize) -> (r: bool)
    ensures
        r == (forall|k: int| 0 <= k < es@.len() ==> refs_below(#[trigger] es@[k], n as int)),
    decreases es@,
{
    let mut i: usize = 0;
    while i < es.len()
        invariant
            i <= es.len(),
            forall|k: int| 0 <= k < i ==> refs_below(#[trigger] es@[k], n as int),
        decreases es.len() - i,
    {
        proof {
            assert(decreases_to!(es@ => es@[i as int]));
        }
        if !refs_below_exec(&es[i], n) {
            return false;
        }
        i = i + 1;
    }
    true
}

impl TypeGraph {
    /// Whether the graph is well formed (see [`graph_wf`]).
    pub fn is_well_formed(&self) -> (r: bool)
        ensures
            r == graph_wf(*self),
    {
        let len = self.infos.len();
        let mut i: usize = 0;
        while i < len
            invariant
                len == self.infos@.len(),
                i <= len,
                forall|k: int| 0 <= k < i ==> #[trigger] info_wf(*self, k),
            decreases len - i,
        {
            let ok = match &self.infos[i] {
                TypeInfo::Native(n) => refs_below_exec(&n.expr, i),
                TypeInfo::Defined(d) => {
                    let args_ok = all_refs_below(&d.generic_args, i);
                    let def_ok = match &d.def.def {
                        TypeExpr::Object(_) => refs_below_exec(&d.def.def, len),
                        TypeExpr::Union(_) => refs_below_exec(&d.def.def, len),
                        _ => refs_below_exec(&d.def.def, i),
                    };
                    args_ok && def_ok
                },
            };
            if !ok {
                proof {
                    assert(!info_wf(*self, i as int));
                }
                return false;
            }
            i = i + 1;
        }
        true
    }
}

} // verus!

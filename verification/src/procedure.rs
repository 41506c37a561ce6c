//! Signatures of remote procedures, as the binding generators read them: the
//! arguments and the result type that a generated client declares.
use vstd::prelude::*;
use crate::c::convert::name_is;
use crate::text::{decimal, decimal_string};

verus! {

/// A Rust type as it stands in a signature: its tokens as printed, and the
/// segments of its path where it is a path type.
#[derive(Debug)]
pub struct RustType {
    pub tokens: String,
    pub path: Option<Vec<PathSegment>>,
}

/// One segment of a path, such as `Result<T, E>` in `anyhow::Result<T, E>`.
#[derive(Debug)]
pub struct PathSegment {
    pub ident: String,
    pub arguments: PathArguments,
}

/// The arguments of a path segment.
#[derive(Debug)]
pub enum PathArguments {
    Empty,
    AngleBracketed(Vec<GenericArgument>),
    Parenthesized,
}

/// One argument between angle brackets.
#[derive(Debug)]
pub enum GenericArgument {
    Type(RustType),
    Other,
}

/// A named (or unnamed) parameter of a procedure.
#[derive(Debug)]
pub struct Input {
    pub ident: Option<String>,
    pub ty: RustType,
}

/// How a procedure takes its parameters: as a list, or as one structure.
#[derive(Debug)]
pub enum Inputs {
    Positional(Vec<Input>),
    Structured(Option<Input>),
}

/// A remote procedure: its name, parameters, declared output, and whether it is a
/// notification (answered by no response).
#[derive(Debug)]
pub struct RemoteProcedure {
    pub name: String,
    pub input: Inputs,
    pub output: Option<RustType>,
    pub is_notification: bool,
}

/// The procedures of an API.
#[derive(Debug)]
pub struct RpcInfo {
    pub methods: Vec<RemoteProcedure>,
}

/// The type is a path whose last segment is named `Result`.
pub open spec fn is_result(ty: RustType) -> bool {
    ty.path matches Some(segs) && segs@.len() > 0 && segs@.last().ident@ == "Result"@
}

/// The first argument of a `Result` path where it is a type; the type itself otherwise.
pub open spec fn result_inner(ty: RustType) -> RustType {
    if is_result(ty) {
        match ty.path {
            Some(segs) => match segs@.last().arguments {
                PathArguments::AngleBracketed(args) => if args@.len() > 0 {
                    match args@[0] {
                        GenericArgument::Type(inner) => inner,
                        GenericArgument::Other => ty,
                    }
                } else {
                    ty
                },
                _ => ty,
            },
            None => ty,
        }
    } else {
        ty
    }
}

/// Whether `ty` is a `Result` (by the last segment of its path).
pub fn is_result_ty(ty: &RustType) -> (r: bool)
    ensures
        r == is_result(*ty),
{
    match &ty.path {
        Some(segs) => {
            if segs.len() == 0 {
                return false;
            }
            let last = &segs[segs.len() - 1];
            name_is(&last.ident, "Result")
        },
        None => false,
    }
}

/// The success type of a `Result`, or `ty` itself where it is none.
pub fn extract_result_ty<'a>(ty: &'a RustType) -> (r: &'a RustType)
    ensures
        *r == result_inner(*ty),
{
    if !is_result_ty(ty) {
        return ty;
    }
    match &ty.path {
        Some(segs) => {
            let last = &segs[segs.len() - 1];
            match &last.arguments {
                PathArguments::AngleBracketed(args) => {
                    if args.len() == 0 {
                        return ty;
                    }
                    match &args[0] {
                        GenericArgument::Type(inner) => inner,
                        GenericArgument::Other => ty,
                    }
                },
                _ => ty,
            }
        },
        None => ty,
    }
}

/// The types of the parameters, in order.
pub open spec fn input_types(inputs: Inputs) -> Seq<RustType> {
    match inputs {
        Inputs::Positional(v) => v@.map_values(|i: Input| i.ty),
        Inputs::Structured(Some(i)) => seq![i.ty],
        Inputs::Structured(None) => Seq::empty(),
    }
}

/// The name of the `k`-th parameter before `name_fn` is applied: its own, else
/// `arg1`, `arg2`, ... for a list and `params` for a structure.
pub open spec fn input_name(inputs: Inputs, k: int) -> Seq<char> {
    match inputs {
        Inputs::Positional(v) => match v@[k].ident {
            Some(id) => id@,
            None => "arg"@ + decimal((k + 1) as nat),
        },
        Inputs::Structured(Some(i)) => match i.ident {
            Some(id) => id@,
            None => "params"@,
        },
        Inputs::Structured(None) => Seq::empty(),
    }
}

/// The result type that a client reads: none for a notification or a procedure
/// without output, else the success type of the output.
pub open spec fn output_type(m: RemoteProcedure) -> Option<RustType> {
    if m.is_notification {
        None
    } else {
        match m.output {
            Some(t) => Some(result_inner(t)),
            None => None,
        }
    }
}

pub open spec fn option_seq(o: Option<RustType>) -> Seq<RustType> {
    match o {
        Some(t) => seq![t],
        None => Seq::empty(),
    }
}

pub open spec fn derefs(s: Seq<&RustType>) -> Seq<RustType> {
    s.map_values(|t: &RustType| *t)
}

fn input_name_exec(input: &Input, default: &str) -> (r: String)
    ensures
        r@ == match input.ident {
            Some(id) => id@,
            None => default@,
        },
{
    match &input.ident {
        Some(id) => id.clone(),
        None => String::from_str(default),
    }
}

/// What a generated client needs of a procedure: whether it takes a list of
/// parameters, each parameter's name (through `name_fn`) and type, and the result
/// type; every type met is appended to `gen_types`.
pub fn extract_method_io<'a>(
    method: &'a RemoteProcedure,
    gen_types: &mut Vec<&'a RustType>,
    name_fn: impl Fn(String) -> String,
) -> (r: (bool, Vec<(String, &'a RustType)>, Option<&'a RustType>))
    requires
        forall|s: String| #[trigger] name_fn.requires((s,)),
    ensures
        r.0 == (method.input is Positional),
        r.1@.len() == input_types(method.input).len(),
        forall|k: int|
            0 <= k < r.1@.len() ==> *(#[trigger] r.1@[k]).1 == input_types(method.input)[k] && exists|s: String|
                s@ == input_name(method.input, k) && name_fn.ensures((s,), r.1@[k].0),
        match r.2 {
            Some(t) => output_type(*method) == Some(*t),
            None => output_type(*method) is None,
        },
        derefs(final(gen_types)@) == derefs(old(gen_types)@) + input_types(method.input) + option_seq(
            output_type(*method),
        ),
{
    let ghost start = derefs(gen_types@);
    let mut gen_args: Vec<(String, &'a RustType)> = Vec::new();
    let is_positional = match &method.input {
        Inputs::Positional(inputs) => {
            let mut i: usize = 0;
            while i < inputs.len()
                invariant
                    forall|s: String| #[trigger] name_fn.requires((s,)),
                    i <= inputs.len(),
                    gen_args@.len() == i,
                    forall|k: int|
                        0 <= k < i ==> *(#[trigger] gen_args@[k]).1 == inputs@[k].ty && exists|s: String|
                            s@ == input_name(method.input, k) && name_fn.ensures((s,), gen_args@[k].0),
                    method.input == Inputs::Positional(*inputs),
                    derefs(gen_types@) == start + inputs@.take(i as int).map_values(|x: Input| x.ty),
                decreases inputs.len() - i,
            {
                let input = &inputs[i];
                let ty = &input.ty;
                let raw = match &input.ident {
                    Some(id) => id.clone(),
                    None => {
                        let mut s = String::from_str("arg");
                        let n = decimal_string(i + 1);
                        s.append(n.as_str());
                        s
                    },
                };
                proof {
                    assert(raw@ == input_name(method.input, i as int));
                }
                let name = name_fn(raw);
                let ghost before = gen_types@;
                gen_types.push(ty);
                proof {
                    assert(inputs@.take(i as int + 1).map_values(|x: Input| x.ty) =~= inputs@.take(
                        i as int,
                    ).map_values(|x: Input| x.ty).push(inputs@[i as int].ty));
                    assert(derefs(gen_types@) =~= derefs(before).push(*ty));
                }
                gen_args.push((name, ty));
                i = i + 1;
            }
            proof {
                assert(inputs@.take(inputs@.len() as int) =~= inputs@);
            }
            true
        },
        Inputs::Structured(Some(input)) => {
            let ty = &input.ty;
            let raw = input_name_exec(input, "params");
            let ghost raw_v = raw;
            let name = name_fn(raw);
            gen_types.push(ty);
            proof {
                assert(derefs(gen_types@) =~= start.push(*ty));
                assert(seq![*ty] =~= Seq::empty().push(*ty));
            }
            gen_args.push((name, ty));
            proof {
                assert(raw_v@ == input_name(method.input, 0));
                assert(name_fn.ensures((raw_v,), gen_args@[0].0));
                assert(input_types(method.input)[0] == *ty);
            }
            false
        },
        Inputs::Structured(None) => {
            proof {
                assert(start + Seq::<RustType>::empty() =~= start);
            }
            false
        },
    };
    let ghost mid = derefs(gen_types@);
    let gen_output = if method.is_notification {
        None
    } else {
        match &method.output {
            Some(ty) => {
                let t = extract_result_ty(ty);
                gen_types.push(t);
                proof {
                    assert(derefs(gen_types@) =~= mid.push(*t));
                }
                Some(t)
            },
            None => None,
        }
    };
    proof {
        assert(option_seq(output_type(*method)) =~= match gen_output {
            Some(t) => seq![*t],
            None => Seq::empty(),
        });
        assert(derefs(gen_types@) =~= mid + option_seq(output_type(*method)));
    }
    (is_positional, gen_args, gen_output)
}

} // verus!

use vstd::prelude::*;

use crate::error::BridgeError;
use crate::loader::{type_slot, Loader, TypeHandle};
use crate::names::{is_terminator_free, terminator_free};
use crate::scope::{Context, FunctionDescriptor, Signature, SignatureParameter, Value};

verus! {

/// The callable to create: its name, arity and runtime handles.
pub struct FunctionCreate {
    pub name: String,
    pub args_count: usize,
    pub singleton: usize,
    pub function_impl: usize,
}

/// One declared parameter: its name and the name of its type.
pub struct FunctionInputSignature {
    pub name: String,
    pub t: String,
}

/// A function to register, with its optional return type name and its
/// parameters in order.
pub struct FunctionRegisteration {
    pub function_create: FunctionCreate,
    pub ret: Option<String>,
    pub input: Vec<FunctionInputSignature>,
}

/// Some name of the registration cannot be handed to the host.
pub open spec fn has_unconvertible_name(reg: FunctionRegisteration) -> bool {
    ||| !terminator_free(reg.function_create.name@)
    ||| (reg.ret matches Some(r) && !terminator_free(r@))
    ||| exists|i: int|
        0 <= i < reg.input@.len() && (!terminator_free(reg.input@[i].name@) || !terminator_free(
            reg.input@[i].t@,
        ))
}

/// Some type the registration names is missing from the loader's namespace.
pub open spec fn has_unresolved_type(loader: Loader, reg: FunctionRegisteration) -> bool {
    ||| (reg.ret matches Some(r) && !loader.has_type(r@))
    ||| exists|i: int| 0 <= i < reg.input@.len() && !loader.has_type(reg.input@[i].t@)
}

/// `d` is the callable that `reg` describes, with each type name resolved in
/// `loader`'s namespace and the parameters in the order given.
pub open spec fn describes(d: FunctionDescriptor, loader: Loader, reg: FunctionRegisteration) -> bool {
    &&& d.name@ == reg.function_create.name@
    &&& d.args_count == reg.function_create.args_count
    &&& d.function_impl == reg.function_create.function_impl
    &&& d.singleton == reg.function_create.singleton
    &&& d.signature.parameters@.len() == reg.input@.len()
    &&& forall|i: int|
        0 <= i < reg.input@.len() ==> {
            &&& d.signature.parameters@[i].name@ == reg.input@[i].name@
            &&& type_slot(loader.namespace(), reg.input@[i].t@) == Some(
                d.signature.parameters@[i].t.index as int,
            )
        }
    &&& (reg.ret is None <==> d.signature.ret is None)
    &&& (reg.ret matches Some(r) ==> (d.signature.ret matches Some(h) && type_slot(
        loader.namespace(),
        r@,
    ) == Some(h.index as int)))
}

/// Creates the callable that `reg` describes, resolves
/// its return and parameter types in `loader`'s namespace and binds it in
/// the context's scope under its name, replacing an earlier binding.
///
/// Refusals, in this order of precedence: a name with a terminator
/// character gives `Conversion`; a type name missing from the namespace
/// gives `UnresolvedType`; an arity other than the number of parameters
/// gives `ArityMismatch`. A refused registration leaves the context as it
/// was; any other registration succeeds.
pub fn register_function(
    ctx: &mut Context,
    loader: &Loader,
    reg: FunctionRegisteration,
) -> (r: Result<(), BridgeError>)
    ensures
        r == Err::<(), BridgeError>(BridgeError::Conversion) <==> has_unconvertible_name(
            reg,
        ),
        r == Err::<(), BridgeError>(BridgeError::UnresolvedType) <==> !has_unconvertible_name(
            reg,
        ) && has_unresolved_type(*loader, reg),
        r == Err::<(), BridgeError>(BridgeError::ArityMismatch) <==> !has_unconvertible_name(
            reg,
        ) && !has_unresolved_type(*loader, reg) && reg.function_create.args_count
            != reg.input@.len(),
        r is Ok <==> !has_unconvertible_name(reg) && !has_unresolved_type(*loader, reg)
            && reg.function_create.args_count == reg.input@.len(),
        r is Err ==> *final(ctx) == *old(ctx),
        r is Ok ==> {
            &&& final(ctx).scope.get(reg.function_create.name@) matches Some(
                Value::Function(d),
            )
            &&& describes(d, *loader, reg)
            &&& forall|n: Seq<char>|
                n != reg.function_create.name@ ==> final(ctx).scope.get(n)
                    == old(ctx).scope.get(n)
        },
{
    let n = reg.input.len();
    if !is_terminator_free(reg.function_create.name.as_str()) {
        return Err(BridgeError::Conversion);
    }
    if let Some(ret) = &reg.ret {
        if !is_terminator_free(ret.as_str()) {
            return Err(BridgeError::Conversion);
        }
    }
    let mut i: usize = 0;
    while i < n
        invariant
            n == reg.input@.len(),
            i <= n,
            terminator_free(reg.function_create.name@),
            reg.ret matches Some(r) ==> terminator_free(r@),
            forall|j: int|
                0 <= j < i ==> terminator_free(reg.input@[j].name@) && terminator_free(
                    reg.input@[j].t@,
                ),
        decreases n - i,
    {
        let p = &reg.input[i];
        if !is_terminator_free(p.name.as_str()) || !is_terminator_free(p.t.as_str()) {
            assert(!terminator_free(reg.input@[i as int].name@) || !terminator_free(
                reg.input@[i as int].t@,
            ));
            return Err(BridgeError::Conversion);
        }
        i = i + 1;
    }
    let ret = match &reg.ret {
        Some(name) => match loader.find_type(name.as_str()) {
            Some(h) => Some(h),
            None => {
                return Err(BridgeError::UnresolvedType);
            },
        },
        None => None,
    };
    let mut parameters: Vec<SignatureParameter> = Vec::new();
    let mut i: usize = 0;
    while i < n
        invariant
            n == reg.input@.len(),
            i <= n,
            !has_unconvertible_name(reg),
            reg.ret matches Some(r) ==> loader.has_type(r@) && (ret matches Some(h) && type_slot(
                loader.namespace(),
                r@,
            ) == Some(h.index as int)),
            reg.ret is None ==> ret is None,
            parameters@.len() == i,
            forall|j: int| 0 <= j < i ==> loader.has_type(reg.input@[j].t@),
            forall|j: int|
                0 <= j < i ==> {
                    &&& parameters@[j].name@ == reg.input@[j].name@
                    &&& type_slot(loader.namespace(), reg.input@[j].t@) == Some(
                        parameters@[j].t.index as int,
                    )
                },
        decreases n - i,
    {
        let p = &reg.input[i];
        match loader.find_type(p.t.as_str()) {
            Some(h) => {
                parameters.push(SignatureParameter { name: p.name.clone(), t: h });
            },
            None => {
                assert(!loader.has_type(reg.input@[i as int].t@));
                return Err(BridgeError::UnresolvedType);
            },
        }
        i = i + 1;
    }
    assert(!has_unresolved_type(*loader, reg));
    if reg.function_create.args_count != n {
        return Err(BridgeError::ArityMismatch);
    }
    let key = reg.function_create.name.clone();
    let d = FunctionDescriptor {
        name: reg.function_create.name,
        args_count: reg.function_create.args_count,
        function_impl: reg.function_create.function_impl,
        singleton: reg.function_create.singleton,
        signature: Signature { parameters, ret },
    };
    ctx.scope.define(key, Value::Function(d));
    Ok(())
}

} // verus!

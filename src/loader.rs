use vstd::prelude::*;

use crate::error::BridgeError;
use crate::kind::PrimitiveMetacallProtocolTypes;
use crate::lifecycle::LoaderLifecycleState;
use crate::names::{is_terminator_free, terminator_free};

verus! {

/// What a type descriptor stands for.
pub struct TypeModel {
    pub kind: PrimitiveMetacallProtocolTypes,
    pub name: Seq<char>,
    pub type_impl: usize,
    pub singleton: usize,
}

/// A type registered in a loader's namespace. The native implementation and
/// the singleton are handles owned by the embedded runtime.
pub struct TypeDescriptor {
    pub kind: PrimitiveMetacallProtocolTypes,
    pub name: String,
    pub type_impl: usize,
    pub singleton: usize,
}

impl View for TypeDescriptor {
    type V = TypeModel;

    open spec fn view(&self) -> TypeModel {
        TypeModel {
            kind: self.kind,
            name: self.name@,
            type_impl: self.type_impl,
            singleton: self.singleton,
        }
    }
}

/// A reference to a type of a loader's namespace, by its slot.
#[derive(Debug, Clone, Copy, PartialEq, Eq, Structural)]
pub struct TypeHandle {
    pub index: usize,
}

/// The slot of the type named `n` in `ns`, searching from the newest entry.
pub open spec fn type_slot(ns: Seq<TypeModel>, n: Seq<char>) -> Option<int>
    decreases ns.len(),
{
    if ns.len() == 0 {
        None
    } else if ns.last().name == n {
        Some(ns.len() - 1)
    } else {
        type_slot(ns.drop_last(), n)
    }
}

/// No two types of `ns` share a name.
pub open spec fn names_unique(ns: Seq<TypeModel>) -> bool {
    forall|i: int, j: int| 0 <= i < j < ns.len() ==> ns[i].name != ns[j].name
}

/// One live embedding of a runtime: its lifecycle state, if any was stored,
/// and its type namespace.
pub struct Loader {
    lifecycle: Option<LoaderLifecycleState>,
    types: Vec<TypeDescriptor>,
}

impl Loader {
    /// The types of the namespace, oldest first.
    pub closed spec fn namespace(&self) -> Seq<TypeModel> {
        self.types@.map_values(|t: TypeDescriptor| t@)
    }

    pub open spec fn has_type(&self, n: Seq<char>) -> bool {
        type_slot(self.namespace(), n) is Some
    }

    pub closed spec fn state(&self) -> Option<LoaderLifecycleState> {
        self.lifecycle
    }

    pub open spec fn wf(&self) -> bool {
        names_unique(self.namespace())
    }

    /// A loader with an empty namespace and no lifecycle state.
    pub fn new() -> (r: Loader)
        ensures
            r.wf(),
            r.namespace().len() == 0,
            r.state() is None,
    {
        Loader { lifecycle: None, types: Vec::new() }
    }

    /// A loader with an empty namespace and the given lifecycle state.
    pub fn with_lifecycle_state(state: LoaderLifecycleState) -> (r: Loader)
        ensures
            r.wf(),
            r.namespace().len() == 0,
            r.state() == Some(state),
    {
        Loader { lifecycle: Some(state), types: Vec::new() }
    }

    /// The descriptor behind a handle.
    pub fn type_at(&self, h: TypeHandle) -> (r: &TypeDescriptor)
        requires
            h.index < self.namespace().len(),
        ensures
            r@ == self.namespace()[h.index as int],
    {
        &self.types[h.index]
    }

    /// The descriptor behind a handle; `None` for a handle outside the
    /// namespace.
    pub fn get_type(&self, h: TypeHandle) -> (r: Option<&TypeDescriptor>)
        ensures
            r is None <==> h.index >= self.namespace().len(),
            r matches Some(t) ==> t@ == self.namespace()[h.index as int],
    {
        if h.index < self.types.len() {
            Some(&self.types[h.index])
        } else {
            None
        }
    }

    /// The slot of the type named `name`, if it is defined.
    pub fn find_type(&self, name: &str) -> (r: Option<TypeHandle>)
        ensures
            r is None <==> !self.has_type(name@),
            r matches Some(h) ==> type_slot(self.namespace(), name@) == Some(h.index as int)
                && h.index < self.namespace().len() && self.namespace()[h.index as int].name
                == name@,
    {
        let ghost ns = self.namespace();
        let key = name.to_owned();
        let mut i: usize = self.types.len();
        assert(ns.subrange(0, i as int) =~= ns);
        while i > 0
            invariant
                ns == self.namespace(),
                i <= ns.len(),
                key@ == name@,
                type_slot(ns, name@) == type_slot(ns.subrange(0, i as int), name@),
            decreases i,
        {
            let ghost sub = ns.subrange(0, i as int);
            assert(sub.drop_last() =~= ns.subrange(0, i - 1));
            assert(sub.last() == ns[i - 1]);
            if self.types[i - 1].name == key {
                return Some(TypeHandle { index: i - 1 });
            }
            i = i - 1;
        }
        assert(ns.subrange(0, 0).len() == 0);
        None
    }
}

/// The lifecycle state stored for `loader`; `None` means not yet initialized.
pub fn get_loader_lifecycle_state(loader: &Loader) -> (r: Option<&LoaderLifecycleState>)
    ensures
        r is None <==> loader.state() is None,
        r matches Some(s) ==> loader.state() == Some(*s),
{
    match &loader.lifecycle {
        Some(s) => Some(s),
        None => None,
    }
}

/// The descriptor defined under `name`, if any.
pub fn lookup_type<'a>(loader: &'a Loader, name: &str) -> (r: Option<&'a TypeDescriptor>)
    ensures
        r is None <==> !loader.has_type(name@),
        r matches Some(t) ==> t@ == loader.namespace()[type_slot(
            loader.namespace(),
            name@,
        )->0],
{
    match loader.find_type(name) {
        Some(h) => Some(loader.type_at(h)),
        None => None,
    }
}

/// Defines a type named `name` of kind `type_id` in the loader's namespace.
///
/// A name with a terminator character is refused with `Conversion`, then a
/// name already defined with `DuplicateDefinition`; on a refusal the
/// namespace is unchanged. On success the new type takes the next slot.
pub fn define_type(
    loader: &mut Loader,
    name: &str,
    type_id: PrimitiveMetacallProtocolTypes,
    type_impl: usize,
    singleton: usize,
) -> (r: Result<TypeHandle, BridgeError>)
    requires
        old(loader).wf(),
    ensures
        final(loader).wf(),
        final(loader).state() == old(loader).state(),
        r == Err::<TypeHandle, BridgeError>(BridgeError::Conversion) <==> !terminator_free(name@),
        r == Err::<TypeHandle, BridgeError>(BridgeError::DuplicateDefinition) <==> terminator_free(name@)
            && old(loader).has_type(name@),
        r is Err ==> final(loader).namespace() == old(loader).namespace(),
        r is Ok <==> terminator_free(name@) && !old(loader).has_type(name@),
        r matches Ok(h) ==> h.index == old(loader).namespace().len() && final(loader).namespace()
            == old(loader).namespace().push(
            TypeModel { kind: type_id, name: name@, type_impl, singleton },
        ),
{
    if !is_terminator_free(name) {
        return Err(BridgeError::Conversion);
    }
    if loader.find_type(name).is_some() {
        return Err(BridgeError::DuplicateDefinition);
    }
    let ghost before = loader.namespace();
    let index = loader.types.len();
    let t = TypeDescriptor { kind: type_id, name: name.to_owned(), type_impl, singleton };
    loader.types.push(t);
    proof {
        lemma_fresh_name_absent(before, name@);
        assert(loader.namespace() =~= before.push(
            TypeModel { kind: type_id, name: name@, type_impl, singleton },
        ));
    }
    Ok(TypeHandle { index })
}

/// A name without a slot is held by no type of the namespace.
pub proof fn lemma_fresh_name_absent(ns: Seq<TypeModel>, n: Seq<char>)
    requires
        type_slot(ns, n) is None,
    ensures
        forall|i: int| 0 <= i < ns.len() ==> ns[i].name != n,
    decreases ns.len(),
{
    if ns.len() > 0 {
        lemma_fresh_name_absent(ns.drop_last(), n);
        assert forall|i: int| 0 <= i < ns.len() implies ns[i].name != n by {
            if i < ns.len() - 1 {
                assert(ns.drop_last()[i] == ns[i]);
            }
        }
    }
}

/// Defining a fresh name with kind `k` and then looking that name up finds
/// a type of kind `k`, and the namespace keeps its names unique.
pub proof fn lemma_define_then_lookup(ns: Seq<TypeModel>, k: PrimitiveMetacallProtocolTypes, n: Seq<char>, type_impl: usize, singleton: usize)
    requires
        names_unique(ns),
        type_slot(ns, n) is None,
    ensures
        ({
            let after = ns.push(TypeModel { kind: k, name: n, type_impl, singleton });
            &&& names_unique(after)
            &&& type_slot(after, n) == Some(ns.len() as int)
            &&& after[ns.len() as int].kind == k
        }),
{
    lemma_fresh_name_absent(ns, n);
    let after = ns.push(TypeModel { kind: k, name: n, type_impl, singleton });
    assert(after.last().name == n);
}

} // verus!

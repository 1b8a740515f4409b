use vstd::prelude::*;

use crate::loader::TypeHandle;

verus! {

/// One parameter slot of a signature: its name and its resolved type.
pub struct SignatureParameter {
    pub name: String,
    pub t: TypeHandle,
}

/// The parameter slots of a function, in order, and its return type if one
/// was given.
pub struct Signature {
    pub parameters: Vec<SignatureParameter>,
    pub ret: Option<TypeHandle>,
}

/// A callable of the embedded runtime as the host sees it.
pub struct FunctionDescriptor {
    pub name: String,
    pub args_count: usize,
    pub function_impl: usize,
    pub singleton: usize,
    pub signature: Signature,
}

/// A value that can be bound in a scope.
pub enum Value {
    Function(FunctionDescriptor),
}

struct Binding {
    name: String,
    value: Value,
}

/// What `bs` binds `n` to: the newest binding of that name wins.
pub open spec fn binding_of(bs: Seq<(Seq<char>, Value)>, n: Seq<char>) -> Option<Value>
    decreases bs.len(),
{
    if bs.len() == 0 {
        None
    } else if bs.last().0 == n {
        Some(bs.last().1)
    } else {
        binding_of(bs.drop_last(), n)
    }
}

/// A symbol table from names to values.
pub struct Scope {
    bindings: Vec<Binding>,
}

impl Scope {
    /// The bindings, oldest first.
    pub closed spec fn entries(&self) -> Seq<(Seq<char>, Value)> {
        self.bindings@.map_values(|b: Binding| (b.name@, b.value))
    }

    /// The value bound to `n`, if any.
    pub open spec fn get(&self, n: Seq<char>) -> Option<Value> {
        binding_of(self.entries(), n)
    }

    pub fn new() -> (r: Scope)
        ensures
            forall|n: Seq<char>| r.get(n) is None,
    {
        let r = Scope { bindings: Vec::new() };
        assert(r.entries().len() == 0);
        r
    }

    /// Binds `name` to `value`, replacing what the name was bound to.
    pub fn define(&mut self, name: String, value: Value)
        ensures
            final(self).get(name@) == Some(value),
            forall|n: Seq<char>| n != name@ ==> final(self).get(n) == old(self).get(n),
    {
        let ghost before = self.entries();
        let ghost key = name@;
        self.bindings.push(Binding { name, value });
        assert(self.entries().drop_last() =~= before);
        assert(self.entries().last() == (key, value));
    }

    /// The value bound to `name`, if any.
    pub fn lookup(&self, name: &str) -> (r: Option<&Value>)
        ensures
            r is None <==> self.get(name@) is None,
            r matches Some(v) ==> self.get(name@) == Some(*v),
    {
        let ghost es = self.entries();
        let key = name.to_owned();
        let mut i: usize = self.bindings.len();
        assert(es.subrange(0, i as int) =~= es);
        while i > 0
            invariant
                es == self.entries(),
                i <= es.len(),
                key@ == name@,
                binding_of(es, name@) == binding_of(es.subrange(0, i as int), name@),
            decreases i,
        {
            let ghost sub = es.subrange(0, i as int);
            assert(sub.drop_last() =~= es.subrange(0, i - 1));
            assert(sub.last() == es[i - 1]);
            if self.bindings[i - 1].name == key {
                return Some(&self.bindings[i - 1].value);
            }
            i = i - 1;
        }
        assert(es.subrange(0, 0).len() == 0);
        None
    }
}

/// The execution context a registration is made in; it reaches the scope
/// that registered functions are bound into.
pub struct Context {
    pub scope: Scope,
}

impl Context {
    pub fn new() -> (r: Context)
        ensures
            forall|n: Seq<char>| r.scope.get(n) is None,
    {
        Context { scope: Scope::new() }
    }
}

/// A binding made in a scope can be reached by its name right afterwards,
/// and every other name keeps what it was bound to.
pub proof fn lemma_bound_name_reachable(before: Seq<(Seq<char>, Value)>, n: Seq<char>, v: Value)
    ensures
        binding_of(before.push((n, v)), n) == Some(v),
        forall|m: Seq<char>| m != n ==> binding_of(before.push((n, v)), m) == binding_of(before, m),
{
    assert(before.push((n, v)).drop_last() =~= before);
}

} // verus!

//! A registration bridge that exposes an embedded runtime's types and
//! functions to a host's language-agnostic model of types, signatures and
//! lexical scopes.
//!
//! Every registration either succeeds completely or fails with a reported
//! reason and leaves the loader's namespace and the context's scope as they
//! were.
mod error;
mod kind;
mod lifecycle;
mod loader;
mod names;
mod register;
mod scope;

pub use error::BridgeError;
pub use kind::PrimitiveMetacallProtocolTypes;
pub use lifecycle::LoaderLifecycleState;
pub use loader::{
    define_type, get_loader_lifecycle_state, lemma_define_then_lookup, lookup_type, Loader,
    TypeDescriptor, TypeHandle, TypeModel,
};
pub use names::is_terminator_free;
pub use register::{
    register_function, FunctionCreate, FunctionInputSignature, FunctionRegisteration,
};
pub use scope::{
    lemma_bound_name_reachable, Context, FunctionDescriptor, Scope, Signature,
    SignatureParameter, Value,
};

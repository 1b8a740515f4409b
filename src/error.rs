use vstd::prelude::*;

verus! {

/// Why a registration was refused. A refused registration changes nothing.
#[derive(Debug, Clone, Copy, PartialEq, Eq, Structural)]
pub enum BridgeError {
    /// A name holds a terminator character and cannot be handed to the host.
    Conversion,
    /// A parameter or return type name is not in the loader's namespace.
    UnresolvedType,
    /// A type of that name is already defined in the namespace.
    DuplicateDefinition,
    /// The declared arity differs from the number of parameters given.
    ArityMismatch,
}

} // verus!

use vstd::prelude::*;

verus! {

/// The failure modes of the machine. Every fallible operation of the core
/// reports one of these; a failure is terminal for the current call and is
/// never retried by the core itself.
#[derive(Clone, Copy, PartialEq, Eq, Structural, Debug)]
pub enum VmError {
    /// A memory access named an address (or, for a 16-bit access, an address
    /// whose successor) that is not strictly below the memory's capacity.
    OutOfBoundsAccess,
    /// A fetched word does not decode to any instruction.
    InvalidOpcode,
    /// A pop was attempted while the stack pointer was below 2.
    StackUnderflow,
    /// A signal was dispatched with no handler registered for its id.
    UnknownSignal,
}

} // verus!

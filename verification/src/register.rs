use vstd::prelude::*;

verus! {

/// Number of registers in the register file.
pub const REGISTER_COUNT: usize = 8;

/// The closed set of register identities. External code names registers only
/// through these; the mapping to a slot of the register file is fixed by
/// [`reg_idx`].
#[derive(Clone, Copy, PartialEq, Eq, Structural, Debug)]
pub enum Register {
    A,
    B,
    C,
    M,
    SP,
    PC,
    BP,
    FL,
}

/// The slot of the register file that holds `r`. Injective by construction:
/// each identity has its own slot, and every slot is below `REGISTER_COUNT`.
pub open spec fn reg_idx(r: Register) -> int {
    match r {
        Register::A => 0,
        Register::B => 1,
        Register::C => 2,
        Register::M => 3,
        Register::SP => 4,
        Register::PC => 5,
        Register::BP => 6,
        Register::FL => 7,
    }
}

/// Executable form of [`reg_idx`].
pub fn register_index(r: Register) -> (i: usize)
    ensures
        i as int == reg_idx(r),
        i < REGISTER_COUNT,
{
    match r {
        Register::A => 0,
        Register::B => 1,
        Register::C => 2,
        Register::M => 3,
        Register::SP => 4,
        Register::PC => 5,
        Register::BP => 6,
        Register::FL => 7,
    }
}

} // verus!

use vstd::prelude::*;

verus! {

/// Stack size used for the isolated process when the stack limit cannot be read.
pub const DEFAULT_STACK_SIZE: usize = 8388608;

/// The stack size for the isolated process: the soft stack limit when it
/// could be read, the default otherwise.
pub open spec fn chosen_stack_size(soft_limit: Option<u64>) -> usize {
    match soft_limit {
        Some(v) => v as usize,
        None => DEFAULT_STACK_SIZE,
    }
}

/// Sizes the stack of the isolated process from the soft stack limit, as
/// read from the operating system (`None` when it could not be read).
pub fn stack_size(soft_limit: Option<u64>) -> (r: usize)
    ensures
        r == chosen_stack_size(soft_limit),
        soft_limit is None ==> r == 8 * 1024 * 1024,
{
    match soft_limit {
        Some(v) => v as usize,
        None => DEFAULT_STACK_SIZE,
    }
}

} // verus!

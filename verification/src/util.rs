//! Running a piece of work whose failure must not travel further.

use vstd::prelude::*;

verus! {

/// Runs `func` and keeps its failure here: the caller gets the error back as
/// a value, to report on a channel of its own, and `None` where `func`
/// succeeded.
pub fn exec_callback<E, F: FnOnce() -> Result<(), E>>(func: F) -> (failure: Option<E>)
    requires
        func.requires(()),
    ensures
        match failure {
            Some(e) => func.ensures((), Err(e)),
            None => func.ensures((), Ok(())),
        },
{
    match func() {
        Ok(unit) => {
            assert(unit == ());
            None
        },
        Err(e) => Some(e),
    }
}

} // verus!

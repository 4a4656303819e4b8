//! Creating a LibRaw context.
use vstd::prelude::*;
use crate::error::{Error, Result};

verus! {

/// The result of creating a context: `libraw_init` returns no context only
/// when it cannot allocate one.
pub fn init_result(created: bool) -> (r: Result<()>)
    ensures
        r is Ok <==> created,
        r matches Err(e) ==> e is OutOfMemory,
{
    if created {
        Ok(())
    } else {
        Err(Error::OutOfMemory)
    }
}

} // verus!

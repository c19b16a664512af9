//! The consistency rule of persisting a pass's errors.
use crate::schema::InfraError;
use vstd::prelude::*;

verus! {

/// The storage layer wrote another number of rows than there were errors.
#[derive(Clone, Copy, Debug, PartialEq, Eq, Structural)]
pub struct RowCountMismatch {
    pub expected: usize,
    pub written: usize,
}

/// Checks the number of rows that a bulk insert of `errors` reported.
///
/// Anything but one row per error means that the storage layer dropped or
/// merged findings; the caller must abort the pass on `Err`.
pub fn check_rows_written(errors: &Vec<InfraError>, written: usize) -> (r: Result<
    (),
    RowCountMismatch,
>)
    ensures
        r is Ok <==> written == errors@.len(),
        r matches Err(e) ==> e == (RowCountMismatch { expected: errors@.len() as usize, written }),
{
    if written == errors.len() {
        Ok(())
    } else {
        Err(RowCountMismatch { expected: errors.len(), written })
    }
}

} // verus!

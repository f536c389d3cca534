//! Batch admission policy: a batch must hold between one and one hundred
//! points, checked before any storage work begins.

use vstd::prelude::*;

verus! {

/// Largest number of points a single batch may carry.
pub const MAX_BATCH_SIZE: usize = 100;

/// Why a batch was refused before any transaction was opened.
#[derive(Clone, Copy, Debug, PartialEq, Eq, Structural)]
pub enum BatchError {
    /// The batch held no points at all.
    Empty,
    /// The batch held more than [`MAX_BATCH_SIZE`] points.
    TooLarge,
}

/// Admits a candidate batch by its size: 1 to 100 points pass unchanged,
/// an empty batch and an oversized batch are each refused with their own
/// error. Pure; runs strictly before any storage interaction.
pub fn validate_batch_size(n: usize) -> (r: Result<(), BatchError>)
    ensures
        n == 0 ==> r == Result::<(), BatchError>::Err(BatchError::Empty),
        n > MAX_BATCH_SIZE ==> r == Result::<(), BatchError>::Err(BatchError::TooLarge),
        1 <= n && n <= MAX_BATCH_SIZE ==> r == Result::<(), BatchError>::Ok(()),
{
    if n == 0 {
        Err(BatchError::Empty)
    } else if n > MAX_BATCH_SIZE {
        Err(BatchError::TooLarge)
    } else {
        Ok(())
    }
}

} // verus!

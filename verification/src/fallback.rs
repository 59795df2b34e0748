//! Fallback selection: when fresh acquisition fails, reuse an arbitrary
//! previously cached file.

use vstd::prelude::*;
use crate::errors::PipelineError;
use crate::rng::random_below;

verus! {

/// Picks one entry of the cache directory listing uniformly at random.
/// Fails with the terminal `NoFallbackAvailable` error exactly when the
/// listing is empty; otherwise the result is one of the listed paths. The
/// chosen file's integrity is not re-checked: it was verified when written.
pub fn select_fallback(entries: &Vec<String>) -> (r: Result<String, PipelineError>)
    ensures
        entries@.len() == 0 <==> r == Err::<String, PipelineError>(
            PipelineError::NoFallbackAvailable,
        ),
        entries@.len() > 0 ==> r is Ok,
        r matches Ok(p) ==> exists|i: int| 0 <= i < entries@.len() && p@ == entries@[i]@,
{
    if entries.len() == 0 {
        return Err(PipelineError::NoFallbackAvailable);
    }
    let idx: usize = random_below(entries.len());
    let picked: String = entries[idx].clone();
    proof {
        assert(picked@ == entries@[idx as int]@);
    }
    Ok(picked)
}

} // verus!

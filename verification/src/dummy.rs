use vstd::prelude::*;
use crate::error::Error;

verus! {

/// Backend for targets with no known entropy source: every request fails
/// with [`Error::Unavailable`] and the buffer is left untouched.
pub fn getrandom(dest: &mut Vec<u8>) -> (r: Result<(), Error>)
    ensures
        r == Err::<(), Error>(Error::Unavailable),
        final(dest)@ == old(dest)@,
{
    Err(Error::Unavailable)
}

} // verus!

use vstd::prelude::*;

use crate::errors::Error;

verus! {

/// Hands out the next asset identifier.
///
/// Identifiers are allocated densely from 1: with `counter` the highest id
/// allocated so far (0 before the first minting), the next id is
/// `counter + 1`, checked against the top of the identifier type.  On
/// overflow nothing is allocated; committing the advanced counter is the
/// calling operation's job, as part of its one atomic write.
pub fn next_id(counter: u64) -> (r: Result<u64, Error>)
    ensures
        counter < u64::MAX ==> r == Ok::<u64, Error>((counter + 1) as u64),
        counter == u64::MAX ==> r == Err::<u64, Error>(Error::CounterOverflow),
{
    match counter.checked_add(1) {
        Some(id) => Ok(id),
        None => Err(Error::CounterOverflow),
    }
}

} // verus!

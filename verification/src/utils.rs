//! Conversion from the non-blocking result vocabulary of the `nb` crate to a
//! plain `Result`, separating "retry later" from a real bus fault.

use vstd::prelude::*;

verus! {

/// Declares `nb::Error`, a fully public two-variant enum: `WouldBlock` for a
/// transient "not ready yet" condition and `Other` carrying the underlying
/// error. The declaration only makes the enum's own variants visible here;
/// nothing about it is assumed.
#[verifier::external_type_specification]
#[verifier::reject_recursive_types(E)]
pub struct ExNbError<E>(nb::Error<E>);

/// Flatten a non-blocking read result: a value becomes `Ok(Some(value))`,
/// `WouldBlock` becomes `Ok(None)` (retry-safe, not an error), and an
/// underlying fault is passed through unchanged as `Err`.
pub fn convert_nb_error<E>(r: Result<u8, nb::Error<E>>) -> (res: Result<Option<u8>, E>)
    ensures
        res == (match r {
            Ok(v) => Ok::<Option<u8>, E>(Some(v)),
            Err(nb::Error::WouldBlock) => Ok::<Option<u8>, E>(None),
            Err(nb::Error::Other(e)) => Err::<Option<u8>, E>(e),
        }),
{
    match r {
        Ok(v) => Ok(Some(v)),
        Err(e) => match e {
            nb::Error::WouldBlock => Ok(None),
            nb::Error::Other(e) => Err(e),
        },
    }
}

} // verus!

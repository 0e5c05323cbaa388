//! What holds between the two conversions, and between the descriptions of a
//! kind and of the error number it carries.

use vstd::prelude::*;
use vstd::std_specs::convert::{FromSpec, TryFromSpec};
use crate::ax_error::AxError;
use crate::convert::{errno_of, kind_of};
use crate::linux_errno::LinuxError;

verus! {

/// Every kind has exactly one error number: the conversion of a kind is
/// defined and is the kind's error number, and equal kinds convert to equal
/// error numbers.
pub proof fn lemma_errno_is_total_and_unique(kind: AxError, same: AxError)
    ensures
        <LinuxError as FromSpec<AxError>>::obeys_from_spec(),
        LinuxError::from_spec(kind) == errno_of(kind),
        kind == same ==> LinuxError::from_spec(kind) == LinuxError::from_spec(same),
{
}

/// The error number of a kind that carries none can be turned back into a
/// kind.
pub proof fn lemma_errno_of_kind_has_kind(kind: AxError)
    requires
        kind !is Other,
    ensures
        kind_of(errno_of(kind)) is Some,
        AxError::try_from_spec(errno_of(kind)) is Ok,
{
}

/// Where an error number has a kind, that kind carries no number itself and
/// its error number is the one that was given.
pub proof fn lemma_kind_of_errno_has_errno(errno: LinuxError)
    ensures
        kind_of(errno) matches Some(kind) ==> kind !is Other && errno_of(kind) == errno,
        AxError::try_from_spec(errno) matches Ok(kind) ==> LinuxError::from_spec(kind) == errno,
{
}

/// Where an error number has no kind, the failed conversion hands back that
/// same number.
pub proof fn lemma_failure_keeps_errno(errno: LinuxError)
    ensures
        AxError::try_from_spec(errno) matches Err(given) ==> given == errno && kind_of(errno)
            is None,
{
}

/// An error number has a kind exactly when it is the error number of some
/// kind that carries none.
pub proof fn lemma_has_kind_iff_in_image(errno: LinuxError)
    ensures
        kind_of(errno) is Some <==> exists|kind: AxError|
            kind !is Other && #[trigger] errno_of(kind) == errno,
{
    if let Some(kind) = kind_of(errno) {
        assert(kind !is Other && errno_of(kind) == errno);
    }
    if exists|kind: AxError| kind !is Other && #[trigger] errno_of(kind) == errno {
        let kind = choose|kind: AxError| kind !is Other && #[trigger] errno_of(kind) == errno;
        lemma_errno_of_kind_has_kind(kind);
    }
}

/// From a kind that carries no number to its error number, back to a kind and
/// on to an error number again: the two error numbers are the same, though
/// the two kinds may differ.
pub proof fn lemma_errno_round_trip(kind: AxError)
    requires
        kind !is Other,
    ensures
        kind_of(errno_of(kind)) matches Some(back) && errno_of(back) == errno_of(kind),
{
}

/// A kind that carries an error number has that number, and is described as
/// that number is.
pub proof fn lemma_other_is_transparent(errno: LinuxError)
    ensures
        errno_of(AxError::Other(errno)) == errno,
        AxError::Other(errno).description() == errno.description(),
{
}

/// No two error numbers share a number, and every number lies between 1 and
/// 133.
pub proof fn lemma_number_identifies_errno(e1: LinuxError, e2: LinuxError)
    ensures
        1 <= e1.number() <= 133,
        e1.number() == e2.number() ==> e1 == e2,
{
}

} // verus!

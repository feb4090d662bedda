//! Errors that reach the caller of a session operation.
use vstd::prelude::*;

verus! {

#[verifier::external_type_specification]
#[verifier::external_body]
pub struct ExLibloadingError(libloading::Error);

/// Composite error type for calling functions of the vendor library.
#[derive(Debug)]
pub enum Trans2QuikError {
    /// The library could not be opened, or one of its exports is missing.
    LibLoading(libloading::Error),
    /// A text argument holds a NUL character, at this character index; the
    /// vendor is never called with it.
    NulError(usize),
}

impl From<libloading::Error> for Trans2QuikError {
    fn from(err: libloading::Error) -> (r: Trans2QuikError)
        ensures
            r == Trans2QuikError::LibLoading(err),
    {
        Trans2QuikError::LibLoading(err)
    }
}

impl vstd::std_specs::convert::FromSpecImpl<libloading::Error> for Trans2QuikError {
    open spec fn obeys_from_spec() -> bool {
        true
    }

    open spec fn from_spec(err: libloading::Error) -> Trans2QuikError {
        Trans2QuikError::LibLoading(err)
    }
}

} // verus!

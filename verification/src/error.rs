//! Status codes of the runtime's start-up calls, and the error they turn into.

use vstd::prelude::*;

verus! {

/// The code with which a start-up call reports that nothing went wrong.
pub const INIT_ERROR_NONE: u32 = 0;

/// The code for an interface that the runtime does not offer.
pub const INIT_ERROR_INTERFACE_NOT_FOUND: u32 = 105;

/// The code for a headset that could not be found.
pub const INIT_ERROR_HMD_NOT_FOUND: u32 = 108;

/// The code for a runtime that is not, or no longer, initialized.
pub const INIT_ERROR_NOT_INITIALIZED: u32 = 109;

/// A start-up call failed. The error keeps the runtime's own code, which is
/// never the one for success.
#[derive(Debug, Clone, Copy, PartialEq, Eq, Structural)]
pub struct InitError(u32);

impl View for InitError {
    type V = u32;

    /// The runtime's code.
    closed spec fn view(&self) -> u32 {
        self.0
    }
}

impl InitError {
    #[verifier::type_invariant]
    spec fn is_failure(&self) -> bool {
        self.0 != INIT_ERROR_NONE
    }

    /// The runtime's code, as it was reported.
    pub fn code(&self) -> (code: u32)
        ensures
            code == self@,
            code != INIT_ERROR_NONE,
    {
        proof {
            use_type_invariant(self);
        }
        self.0
    }

    /// Whether this is the error for an interface that the runtime lacks.
    pub fn is_interface_not_found(&self) -> (r: bool)
        ensures
            r == (self@ == INIT_ERROR_INTERFACE_NOT_FOUND),
    {
        self.0 == INIT_ERROR_INTERFACE_NOT_FOUND
    }

    /// The error for an interface that the runtime does not offer.
    pub fn interface_not_found() -> (e: InitError)
        ensures
            e@ == INIT_ERROR_INTERFACE_NOT_FOUND,
    {
        InitError(INIT_ERROR_INTERFACE_NOT_FOUND)
    }

    /// The error for a runtime that is not live.
    pub fn not_initialized() -> (e: InitError)
        ensures
            e@ == INIT_ERROR_NOT_INITIALIZED,
    {
        InitError(INIT_ERROR_NOT_INITIALIZED)
    }

    /// Maps the code of a start-up call: success for the "no error" code, and
    /// for every other code a failure that carries it unchanged.
    pub fn check(code: u32) -> (r: Result<(), InitError>)
        ensures
            r is Ok <==> code == INIT_ERROR_NONE,
            r matches Err(e) ==> e@ == code,
    {
        if code == INIT_ERROR_NONE {
            Ok(())
        } else {
            Err(InitError(code))
        }
    }
}

} // verus!

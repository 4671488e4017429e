//! Calls on the overlay interface.
//!
//! Each operation first describes the native call, with its text arguments
//! marshaled; the host makes the call; the reply is then mapped to a result.

use vstd::prelude::*;
use vstd::std_specs::convert::FromSpecImpl;
use vstd::string::StringSliceAdditionalSpecFns;
use crate::decimal::{decimal, labelled};
use crate::loader::Overlay;
use crate::marshal::{has_nul, text_len, MarshaledString, NulError};

verus! {

/// The code with which a call on an overlay reports that nothing went wrong.
pub const OVERLAY_ERROR_NONE: u32 = 0;

/// A call on an overlay failed. The error keeps the runtime's own code.
#[derive(Debug, Clone, Copy, PartialEq, Eq, Structural)]
pub struct VROverlayError(pub u32);

impl From<u32> for VROverlayError {
    fn from(err: u32) -> (e: VROverlayError) {
        VROverlayError(err)
    }
}

impl FromSpecImpl<u32> for VROverlayError {
    open spec fn obeys_from_spec() -> bool {
        true
    }

    open spec fn from_spec(err: u32) -> VROverlayError {
        VROverlayError(err)
    }
}

impl VROverlayError {
    /// Success for the "no error" code, and for every other code a failure
    /// that carries it unchanged.
    pub open spec fn check_spec(code: u32) -> Result<(), VROverlayError> {
        if code == OVERLAY_ERROR_NONE {
            Ok(())
        } else {
            Err(VROverlayError(code))
        }
    }

    /// Maps the code of a call: success for the "no error" code, and for every
    /// other code a failure that carries it unchanged.
    pub fn check(code: u32) -> (r: Result<(), VROverlayError>)
        ensures
            r == Self::check_spec(code),
    {
        if code == OVERLAY_ERROR_NONE {
            Ok(())
        } else {
            Err(VROverlayError::from(code))
        }
    }

    /// The error in words: `EVROverlayError` and the code in decimal.
    pub fn message(&self) -> (text: String)
        ensures
            text@ == "EVROverlayError"@ + seq![' '] + decimal(self.0 as nat),
    {
        labelled("EVROverlayError", self.0)
    }
}

/// A native call on the overlay interface, ready to be made.
#[derive(Debug)]
pub enum OverlayCall {
    /// `FindOverlay`, with the key of the overlay.
    FindOverlay { key: MarshaledString },
    /// `CreateOverlay`, with the key of the new overlay and the name to show
    /// for it.
    CreateOverlay { key: MarshaledString, name: MarshaledString },
    /// `DestroyOverlay`, with the handle of the overlay.
    DestroyOverlay { handle: u64 },
}

impl<'a> Overlay<'a> {
    /// Finds an existing overlay with the specified key.
    ///
    /// A key that holds a NUL is refused and no call is described.
    pub fn find(&self, overlay_key: &str) -> (r: Result<OverlayCall, NulError>)
        ensures
            r is Err <==> has_nul(overlay_key.spec_bytes()),
            r matches Ok(call) ==> (call matches OverlayCall::FindOverlay { key } && key@
                == overlay_key.spec_bytes()),
            r matches Err(e) ==> e.position() == text_len(overlay_key.spec_bytes()),
    {
        match MarshaledString::new(overlay_key) {
            Ok(key) => Ok(OverlayCall::FindOverlay { key }),
            Err(e) => Err(e),
        }
    }

    /// Creates a new named overlay. All overlays start hidden and with default
    /// settings.
    ///
    /// A key or a name that holds a NUL is refused and no call is described;
    /// where both do, the key is the one reported.
    pub fn create(&self, overlay_key: &str, overlay_name: &str) -> (r: Result<
        OverlayCall,
        NulError,
    >)
        ensures
            r is Err <==> has_nul(overlay_key.spec_bytes()) || has_nul(overlay_name.spec_bytes()),
            r matches Ok(call) ==> (call matches OverlayCall::CreateOverlay { key, name } && key@
                == overlay_key.spec_bytes() && name@ == overlay_name.spec_bytes()),
            r matches Err(e) ==> e.position() == (if has_nul(overlay_key.spec_bytes()) {
                text_len(overlay_key.spec_bytes())
            } else {
                text_len(overlay_name.spec_bytes())
            }),
    {
        let key = match MarshaledString::new(overlay_key) {
            Ok(key) => key,
            Err(e) => {
                return Err(e);
            },
        };
        match MarshaledString::new(overlay_name) {
            Ok(name) => Ok(OverlayCall::CreateOverlay { key, name }),
            Err(e) => Err(e),
        }
    }

    /// Destroys the specified overlay. When an application shuts the runtime
    /// down, all overlays created by it are destroyed with it.
    pub fn destroy(&self, overlay_handle: u64) -> (call: OverlayCall)
        ensures
            call matches OverlayCall::DestroyOverlay { handle } && handle == overlay_handle,
    {
        OverlayCall::DestroyOverlay { handle: overlay_handle }
    }

    /// Takes the reply to `FindOverlay` or `CreateOverlay`: the `code`, and
    /// the handle that the runtime wrote. The handle counts only with the
    /// "no error" code.
    pub fn handle_reply(&self, code: u32, overlay_handle: u64) -> (r: Result<u64, VROverlayError>)
        ensures
            r == (if code == OVERLAY_ERROR_NONE {
                Ok::<u64, VROverlayError>(overlay_handle)
            } else {
                Err(VROverlayError(code))
            }),
    {
        match VROverlayError::check(code) {
            Ok(()) => Ok(overlay_handle),
            Err(e) => Err(e),
        }
    }

    /// Takes the reply to `DestroyOverlay`.
    pub fn status_reply(&self, code: u32) -> (r: Result<(), VROverlayError>)
        ensures
            r == VROverlayError::check_spec(code),
    {
        VROverlayError::check(code)
    }
}

} // verus!

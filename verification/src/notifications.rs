//! Calls on the notifications interface.

use vstd::prelude::*;
use vstd::std_specs::convert::FromSpecImpl;
use vstd::string::StringSliceAdditionalSpecFns;
use crate::decimal::{decimal, labelled};
use crate::loader::Notifications;
use crate::marshal::{has_nul, text_len, MarshaledString, NulError};

verus! {

/// The code with which a call on notifications reports that nothing went
/// wrong.
pub const NOTIFICATION_ERROR_OK: u32 = 0;

/// A call on notifications failed. The error keeps the runtime's own code.
#[derive(Debug, Clone, Copy, PartialEq, Eq, Structural)]
pub struct VRNotificationError(pub u32);

impl From<u32> for VRNotificationError {
    fn from(err: u32) -> (e: VRNotificationError) {
        VRNotificationError(err)
    }
}

impl FromSpecImpl<u32> for VRNotificationError {
    open spec fn obeys_from_spec() -> bool {
        true
    }

    open spec fn from_spec(err: u32) -> VRNotificationError {
        VRNotificationError(err)
    }
}

impl VRNotificationError {
    /// Success for the "OK" code, and for every other code a failure that
    /// carries it unchanged.
    pub open spec fn check_spec(code: u32) -> Result<(), VRNotificationError> {
        if code == NOTIFICATION_ERROR_OK {
            Ok(())
        } else {
            Err(VRNotificationError(code))
        }
    }

    /// Maps the code of a call: success for the "OK" code, and for every other
    /// code a failure that carries it unchanged.
    pub fn check(code: u32) -> (r: Result<(), VRNotificationError>)
        ensures
            r == Self::check_spec(code),
    {
        if code == NOTIFICATION_ERROR_OK {
            Ok(())
        } else {
            Err(VRNotificationError::from(code))
        }
    }

    /// The error in words: `EVRNotificationError` and the code in decimal.
    pub fn message(&self) -> (text: String)
        ensures
            text@ == "EVRNotificationError"@ + seq![' '] + decimal(self.0 as nat),
    {
        labelled("EVRNotificationError", self.0)
    }
}

/// A native call on the notifications interface, ready to be made.
#[derive(Debug)]
pub enum NotificationsCall {
    /// `CreateNotification`. `image` is the address of the bitmap to show,
    /// zero for none.
    CreateNotification {
        overlay_handle: u64,
        user_value: u64,
        notification_type: u32,
        text: MarshaledString,
        style: u32,
        image: usize,
    },
    /// `RemoveNotification`, with the identifier of the notification.
    RemoveNotification { id: u32 },
}

impl<'a> Notifications<'a> {
    /// Create a notification and enqueue it to be shown to the user.
    ///
    /// An overlay handle is required to create a notification, as otherwise
    /// it would be impossible for a user to act on it. To create a two-line
    /// notification, use a line break to split the text into two lines. The
    /// image is given by the address of its bitmap; with none, the runtime is
    /// handed a null pointer and shows the icon of the overlay instead.
    ///
    /// A text that holds a NUL is refused and no call is described.
    pub fn create(
        &self,
        overlay_handle: u64,
        user_value: u64,
        notification_type: u32,
        text: &str,
        style: u32,
        image: Option<usize>,
    ) -> (r: Result<NotificationsCall, NulError>)
        ensures
            r is Err <==> has_nul(text.spec_bytes()),
            r matches Err(e) ==> e.position() == text_len(text.spec_bytes()),
            r matches Ok(call) ==> (call matches NotificationsCall::CreateNotification {
                overlay_handle: h,
                user_value: u,
                notification_type: t,
                text: marshaled,
                style: s,
                image: address,
            } && h == overlay_handle && u == user_value && t == notification_type && marshaled@
                == text.spec_bytes() && s == style && address == (match image {
                Some(bitmap) => bitmap,
                None => 0,
            })),
    {
        let marshaled = match MarshaledString::new(text) {
            Ok(marshaled) => marshaled,
            Err(e) => {
                return Err(e);
            },
        };
        let address = match image {
            Some(bitmap) => bitmap,
            None => 0,
        };
        Ok(
            NotificationsCall::CreateNotification {
                overlay_handle,
                user_value,
                notification_type,
                text: marshaled,
                style,
                image: address,
            },
        )
    }

    /// Destroy a notification, hiding it first if it currently shown to the
    /// user.
    pub fn remove(&self, id: u32) -> (call: NotificationsCall)
        ensures
            call matches NotificationsCall::RemoveNotification { id: removed } && removed == id,
    {
        NotificationsCall::RemoveNotification { id }
    }

    /// Takes the reply to `CreateNotification`: the `code`, and the
    /// identifier that the runtime wrote. The identifier counts only with the
    /// "OK" code.
    pub fn id_reply(&self, code: u32, id: u32) -> (r: Result<u32, VRNotificationError>)
        ensures
            r == (if code == NOTIFICATION_ERROR_OK {
                Ok::<u32, VRNotificationError>(id)
            } else {
                Err(VRNotificationError(code))
            }),
    {
        match VRNotificationError::check(code) {
            Ok(()) => Ok(id),
            Err(e) => Err(e),
        }
    }

    /// Takes the reply to `RemoveNotification`.
    pub fn status_reply(&self, code: u32) -> (r: Result<(), VRNotificationError>)
        ensures
            r == VRNotificationError::check_spec(code),
    {
        VRNotificationError::check(code)
    }
}

} // verus!

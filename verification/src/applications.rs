//! Calls on the applications interface.

use vstd::prelude::*;
use vstd::string::StringSliceAdditionalSpecFns;
use vstd::utf8::{decode_utf8, valid_utf8};
use crate::loader::Applications;
use crate::marshal::{decode, has_nul, text_len, text_of, MarshaledString, NulError};

verus! {

/// A status code of the applications interface.
pub type EVRApplicationError = u32;

/// The code with which a call on applications reports that nothing went
/// wrong.
pub const APPLICATION_ERROR_NONE: u32 = 0;

/// Size of the buffer that fits every application key.
pub const MAX_APPLICATION_KEY_LENGTH: u32 = 128;

/// A native call on the applications interface, ready to be made.
#[derive(Debug)]
pub enum ApplicationsCall {
    /// `AddApplicationManifest`
    AddApplicationManifest { path: MarshaledString, temporary: bool },
    /// `RemoveApplicationManifest`
    RemoveApplicationManifest { path: MarshaledString },
    /// `IsApplicationInstalled`
    IsApplicationInstalled { key: MarshaledString },
    /// `GetApplicationCount`
    GetApplicationCount,
    /// `GetApplicationKeyByIndex`, with a buffer of `capacity` bytes
    GetApplicationKeyByIndex { index: u32, capacity: u32 },
    /// `GetApplicationKeyByProcessId`, with a buffer of `capacity` bytes
    GetApplicationKeyByProcessId { process_id: u32, capacity: u32 },
    /// `LaunchApplication`
    LaunchApplication { key: MarshaledString },
    /// `SetApplicationAutoLaunch`
    SetApplicationAutoLaunch { key: MarshaledString, auto_launch: bool },
    /// `GetApplicationAutoLaunch`
    GetApplicationAutoLaunch { key: MarshaledString },
}

/// Why no application key was read.
#[derive(Debug, Clone, Copy, PartialEq, Eq, Structural)]
pub enum KeyError {
    /// The call failed with this code. What the buffer holds was not looked
    /// at.
    Runtime(u32),
    /// The call succeeded, and what it wrote is not UTF-8.
    NotUtf8,
}

/// Success for the "no error" code, and every other code as the failure.
pub open spec fn status(code: u32) -> Result<(), u32> {
    if code == APPLICATION_ERROR_NONE {
        Ok(())
    } else {
        Err(code)
    }
}

impl<'a> Applications<'a> {
    /// Adds an application manifest to the list to load when building the
    /// list of installed applications. Temporary manifests are not
    /// automatically loaded.
    ///
    /// A path that holds a NUL is refused and no call is described.
    pub fn add_application_manifest(&self, app_manifest_full_path: &str, temporary: bool) -> (r:
        Result<ApplicationsCall, NulError>)
        ensures
            r is Err <==> has_nul(app_manifest_full_path.spec_bytes()),
            r matches Err(e) ==> e.position() == text_len(app_manifest_full_path.spec_bytes()),
            r matches Ok(call) ==> (call matches ApplicationsCall::AddApplicationManifest {
                path,
                temporary: t,
            } && path@ == app_manifest_full_path.spec_bytes() && t == temporary),
    {
        match MarshaledString::new(app_manifest_full_path) {
            Ok(path) => Ok(ApplicationsCall::AddApplicationManifest { path, temporary }),
            Err(e) => Err(e),
        }
    }

    /// Removes an application manifest from the list to load when building
    /// the list of installed applications.
    ///
    /// A path that holds a NUL is refused and no call is described.
    pub fn remove_application_manifest(&self, app_manifest_full_path: &str) -> (r: Result<
        ApplicationsCall,
        NulError,
    >)
        ensures
            r is Err <==> has_nul(app_manifest_full_path.spec_bytes()),
            r matches Err(e) ==> e.position() == text_len(app_manifest_full_path.spec_bytes()),
            r matches Ok(call) ==> (call matches ApplicationsCall::RemoveApplicationManifest {
                path,
            } && path@ == app_manifest_full_path.spec_bytes()),
    {
        match MarshaledString::new(app_manifest_full_path) {
            Ok(path) => Ok(ApplicationsCall::RemoveApplicationManifest { path }),
            Err(e) => Err(e),
        }
    }

    /// Asks whether an application is installed. The runtime's answer is the
    /// result as it stands.
    ///
    /// A key that holds a NUL is refused and no call is described.
    pub fn is_application_installed(&self, app_key: &str) -> (r: Result<
        ApplicationsCall,
        NulError,
    >)
        ensures
            r is Err <==> has_nul(app_key.spec_bytes()),
            r matches Err(e) ==> e.position() == text_len(app_key.spec_bytes()),
            r matches Ok(call) ==> (call matches ApplicationsCall::IsApplicationInstalled { key }
                && key@ == app_key.spec_bytes()),
    {
        match MarshaledString::new(app_key) {
            Ok(key) => Ok(ApplicationsCall::IsApplicationInstalled { key }),
            Err(e) => Err(e),
        }
    }

    /// Asks for the number of applications available in the list. The
    /// runtime's answer is the result as it stands.
    pub fn get_application_count(&self) -> (call: ApplicationsCall)
        ensures
            call is GetApplicationCount,
    {
        ApplicationsCall::GetApplicationCount
    }

    /// Asks for the key of the application at `app_index`, which is less than
    /// the number of applications. The buffer fits every key.
    pub fn get_application_key_by_index(&self, app_index: u32) -> (call: ApplicationsCall)
        ensures
            call matches ApplicationsCall::GetApplicationKeyByIndex { index, capacity } && index
                == app_index && capacity == MAX_APPLICATION_KEY_LENGTH,
    {
        ApplicationsCall::GetApplicationKeyByIndex {
            index: app_index,
            capacity: MAX_APPLICATION_KEY_LENGTH,
        }
    }

    /// Asks for the key of the application that runs as process `process_id`.
    /// The buffer fits every key.
    pub fn get_application_key_by_process_id(&self, process_id: u32) -> (call: ApplicationsCall)
        ensures
            call matches ApplicationsCall::GetApplicationKeyByProcessId {
                process_id: pid,
                capacity,
            } && pid == process_id && capacity == MAX_APPLICATION_KEY_LENGTH,
    {
        ApplicationsCall::GetApplicationKeyByProcessId {
            process_id,
            capacity: MAX_APPLICATION_KEY_LENGTH,
        }
    }

    /// Launches the application. The existing scene application will exit and
    /// then the new application will start. This call is not valid for
    /// dashboard overlay applications.
    ///
    /// A key that holds a NUL is refused and no call is described.
    pub fn launch_application(&self, app_key: &str) -> (r: Result<ApplicationsCall, NulError>)
        ensures
            r is Err <==> has_nul(app_key.spec_bytes()),
            r matches Err(e) ==> e.position() == text_len(app_key.spec_bytes()),
            r matches Ok(call) ==> (call matches ApplicationsCall::LaunchApplication { key }
                && key@ == app_key.spec_bytes()),
    {
        match MarshaledString::new(app_key) {
            Ok(key) => Ok(ApplicationsCall::LaunchApplication { key }),
            Err(e) => Err(e),
        }
    }

    /// Sets the application auto-launch flag. This is only valid for
    /// applications that are dashboard overlays.
    ///
    /// A key that holds a NUL is refused and no call is described.
    pub fn set_application_auto_launch(&self, app_key: &str, auto_launch: bool) -> (r: Result<
        ApplicationsCall,
        NulError,
    >)
        ensures
            r is Err <==> has_nul(app_key.spec_bytes()),
            r matches Err(e) ==> e.position() == text_len(app_key.spec_bytes()),
            r matches Ok(call) ==> (call matches ApplicationsCall::SetApplicationAutoLaunch {
                key,
                auto_launch: a,
            } && key@ == app_key.spec_bytes() && a == auto_launch),
    {
        match MarshaledString::new(app_key) {
            Ok(key) => Ok(ApplicationsCall::SetApplicationAutoLaunch { key, auto_launch }),
            Err(e) => Err(e),
        }
    }

    /// Asks for the application auto-launch flag. This is only valid for
    /// applications that are dashboard overlays. The runtime's answer is the
    /// result as it stands.
    ///
    /// A key that holds a NUL is refused and no call is described.
    pub fn get_application_auto_launch(&self, app_key: &str) -> (r: Result<
        ApplicationsCall,
        NulError,
    >)
        ensures
            r is Err <==> has_nul(app_key.spec_bytes()),
            r matches Err(e) ==> e.position() == text_len(app_key.spec_bytes()),
            r matches Ok(call) ==> (call matches ApplicationsCall::GetApplicationAutoLaunch {
                key,
            } && key@ == app_key.spec_bytes()),
    {
        match MarshaledString::new(app_key) {
            Ok(key) => Ok(ApplicationsCall::GetApplicationAutoLaunch { key }),
            Err(e) => Err(e),
        }
    }

    /// Takes the reply to a call that reports a status only.
    pub fn status_reply(&self, code: u32) -> (r: Result<(), u32>)
        ensures
            r == status(code),
    {
        if code == APPLICATION_ERROR_NONE {
            Ok(())
        } else {
            Err(code)
        }
    }

    /// Takes the reply to a call that writes an application key: the `code`,
    /// and the buffer that the runtime was given.
    ///
    /// A code other than "no error" is the result whatever the buffer holds.
    /// Otherwise the key is what precedes the first NUL in the buffer.
    pub fn key_reply(&self, code: u32, buffer: &[u8]) -> (r: Result<String, KeyError>)
        ensures
            r is Ok <==> code == APPLICATION_ERROR_NONE && valid_utf8(text_of(buffer@)),
            r matches Ok(key) ==> key@ == decode_utf8(text_of(buffer@)),
            r matches Err(e) ==> e == (if code == APPLICATION_ERROR_NONE {
                KeyError::NotUtf8
            } else {
                KeyError::Runtime(code)
            }),
    {
        if code != APPLICATION_ERROR_NONE {
            return Err(KeyError::Runtime(code));
        }
        match decode(buffer) {
            Some(key) => Ok(key),
            None => Err(KeyError::NotUtf8),
        }
    }
}

} // verus!

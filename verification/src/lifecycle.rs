//! Bringing the runtime up and taking it down, once at a time.
//!
//! The runtime is one per process. A process-wide flag says whether a start-up
//! has claimed it. Start-up runs in steps, with a native call between one step
//! and the next; each step is a function here, the host makes the calls.
//! A start-up that succeeds yields the one live `Context`.
//!
//! The token of a start-up is never-initialized while the start-up is under
//! way (`PendingInit`, then `VersionCheck`), live once it has succeeded, and
//! shut down for good after the first `shutdown` (`Context`). A step that does
//! not fit the state of its token cannot be written down: each step consumes
//! the value that the step before it returned.

use vstd::prelude::*;
use vstd::utf8::{decode_utf8, valid_utf8};
use crate::error::{InitError, INIT_ERROR_INTERFACE_NOT_FOUND, INIT_ERROR_NONE};
use crate::marshal::{decode, text_of};

verus! {

/// What kind of application asks for the runtime.
#[derive(Debug, Clone, Copy, PartialEq, Eq, Structural)]
pub enum ApplicationType {
    /// Some other kind of application that isn't covered by the other entries
    Other,
    /// Application will submit 3D frames
    Scene,
    /// Application only interacts with overlays
    Overlay,
    /// Application should not start the runtime if it's not already running,
    /// and should not keep it running if everything else quits.
    Background,
    /// Init should not try to load any drivers. The application needs access
    /// to utility interfaces but not hardware.
    Utility,
    /// Reserved for the runtime's monitor
    VRMonitor,
    /// Reserved for the runtime's watchdog
    SteamWatchdog,
    /// Start up the runtime
    Bootstrapper,
}

impl ApplicationType {
    /// The number that the runtime knows this kind by.
    pub open spec fn discriminant(self) -> u32 {
        match self {
            ApplicationType::Other => 0,
            ApplicationType::Scene => 1,
            ApplicationType::Overlay => 2,
            ApplicationType::Background => 3,
            ApplicationType::Utility => 4,
            ApplicationType::VRMonitor => 5,
            ApplicationType::SteamWatchdog => 6,
            ApplicationType::Bootstrapper => 7,
        }
    }

    /// The number that the runtime knows this kind by.
    pub fn code(self) -> (code: u32)
        ensures
            code == self.discriminant(),
    {
        match self {
            ApplicationType::Other => 0,
            ApplicationType::Scene => 1,
            ApplicationType::Overlay => 2,
            ApplicationType::Background => 3,
            ApplicationType::Utility => 4,
            ApplicationType::VRMonitor => 5,
            ApplicationType::SteamWatchdog => 6,
            ApplicationType::Bootstrapper => 7,
        }
    }
}

/// One of the two eyes of a headset.
#[derive(Debug, Clone, Copy, PartialEq, Eq, Structural)]
pub enum Eye {
    Left,
    Right,
}

impl Eye {
    /// The number that the runtime knows this eye by.
    pub open spec fn discriminant(self) -> u32 {
        match self {
            Eye::Left => 0,
            Eye::Right => 1,
        }
    }

    /// The number that the runtime knows this eye by.
    pub fn code(self) -> (code: u32)
        ensures
            code == self.discriminant(),
    {
        match self {
            Eye::Left => 0,
            Eye::Right => 1,
        }
    }
}

/// The process-wide flag: set while a start-up is under way or a `Context` is
/// live. Only start-up and shutdown change it.
#[derive(Debug)]
pub struct InitFlag {
    set: bool,
}

impl InitFlag {
    /// Whether the runtime is claimed.
    pub closed spec fn is_set(&self) -> bool {
        self.set
    }

    /// The flag of a process that has not touched the runtime.
    pub fn new() -> (flag: InitFlag)
        ensures
            !flag.is_set(),
    {
        InitFlag { set: false }
    }

    /// Whether the runtime is claimed.
    pub fn get(&self) -> (set: bool)
        ensures
            set == self.is_set(),
    {
        self.set
    }
}

/// How an attempt to claim the runtime ended.
#[derive(Debug)]
pub enum Claim {
    /// The runtime was free and is now claimed: the host calls the native
    /// init entry with the application kind, then `native_init_returned`.
    Granted(PendingInit),
    /// The runtime was claimed already. This is a fault of the program, not
    /// an error to recover from: the host stops at once.
    AlreadyInitialized,
}

/// A start-up that holds the claim and awaits the native init call.
#[derive(Debug)]
pub struct PendingInit {
    ty: ApplicationType,
}

/// A start-up whose native init call succeeded and that awaits the check of
/// the system interface's version.
#[derive(Debug)]
pub struct VersionCheck {
    ty: ApplicationType,
}

/// How a start-up ended after the version check.
#[derive(Debug)]
pub enum InitOutcome {
    /// The runtime is up.
    Ready(Context),
    /// The runtime came up without the system interface in the version asked
    /// for. The claim is given up; the host calls the native shutdown entry
    /// once, to release what the init call set up, and reports the error.
    ShutDown(InitError),
}

/// Entry point into the runtime: the token of a start-up that succeeded.
///
/// At most one is live at a time.
#[derive(Debug)]
pub struct Context {
    live: bool,
}

/// Size of the buffer that the runtime's installation path is read into.
pub const RUNTIME_PATH_CAPACITY: u32 = 1024;

/// What `init` does: the flag is set afterwards whatever it was, and the claim
/// is granted, for the kind asked for, exactly where the flag was clear.
pub open spec fn claimed(
    before: InitFlag,
    ty: ApplicationType,
    after: InitFlag,
    claim: Claim,
) -> bool {
    &&& after.is_set()
    &&& before.is_set() ==> claim is AlreadyInitialized
    &&& !before.is_set() ==> (claim matches Claim::Granted(pending) && pending.application_type()
        == ty)
}

/// What `native_init_returned` does: on "no error" the start-up goes on to
/// the version check and keeps the flag as it is; on any other code it fails
/// with that code, and the flag is clear.
pub open spec fn init_returned(
    pending: PendingInit,
    before: InitFlag,
    code: u32,
    after: InitFlag,
    r: Result<VersionCheck, InitError>,
) -> bool {
    &&& r is Ok <==> code == INIT_ERROR_NONE
    &&& r matches Ok(check) ==> check.application_type() == pending.application_type()
        && after.is_set() == before.is_set()
    &&& r matches Err(e) ==> e@ == code && !after.is_set()
}

/// What `version_checked` does: a valid version yields a live `Context` and
/// keeps the flag as it is; an invalid one ends the start-up with "interface
/// not found", and the flag is clear.
pub open spec fn version_check_done(
    before: InitFlag,
    valid: bool,
    after: InitFlag,
    outcome: InitOutcome,
) -> bool {
    &&& valid ==> (outcome matches InitOutcome::Ready(context) && context.is_live())
        && after.is_set() == before.is_set()
    &&& !valid ==> (outcome matches InitOutcome::ShutDown(e) && e@
        == INIT_ERROR_INTERFACE_NOT_FOUND) && !after.is_set()
}

/// What `shutdown` does: the `Context` is not live afterwards; the native
/// shutdown is due exactly where it was live before, and then the flag is
/// clear; where it was not, the flag is left alone.
pub open spec fn shut_down(
    before: Context,
    flag_before: InitFlag,
    after: Context,
    flag_after: InitFlag,
    native_shutdown: bool,
) -> bool {
    &&& native_shutdown == before.is_live()
    &&& !after.is_live()
    &&& before.is_live() ==> !flag_after.is_set()
    &&& !before.is_live() ==> flag_after.is_set() == flag_before.is_set()
}

/// Claims the runtime for a start-up, unless it is claimed already. The test
/// and the claim are one step.
pub fn init(flag: &mut InitFlag, ty: ApplicationType) -> (claim: Claim)
    ensures
        claimed(*old(flag), ty, *final(flag), claim),
{
    let was_set = flag.set;
    flag.set = true;
    if was_set {
        Claim::AlreadyInitialized
    } else {
        Claim::Granted(PendingInit { ty })
    }
}

impl PendingInit {
    /// The kind of application that the start-up was asked for.
    pub closed spec fn application_type(&self) -> ApplicationType {
        self.ty
    }

    /// The number to hand to the native init entry.
    pub fn native_argument(&self) -> (code: u32)
        ensures
            code == self.application_type().discriminant(),
    {
        self.ty.code()
    }

    /// Takes the code that the native init entry reported. On any code but
    /// "no error" the start-up fails with that code and gives up its claim, so
    /// that another attempt can be made. On "no error" the host checks the
    /// version of the system interface next.
    pub fn native_init_returned(self, flag: &mut InitFlag, code: u32) -> (r: Result<
        VersionCheck,
        InitError,
    >)
        ensures
            init_returned(self, *old(flag), code, *final(flag), r),
    {
        match InitError::check(code) {
            Ok(()) => Ok(VersionCheck { ty: self.ty }),
            Err(e) => {
                flag.set = false;
                Err(e)
            },
        }
    }
}

impl VersionCheck {
    /// The kind of application that the start-up was asked for.
    pub closed spec fn application_type(&self) -> ApplicationType {
        self.ty
    }

    /// Takes the runtime's answer to whether it offers the system interface in
    /// the version that the host was built for.
    pub fn version_checked(self, flag: &mut InitFlag, valid: bool) -> (outcome: InitOutcome)
        ensures
            version_check_done(*old(flag), valid, *final(flag), outcome),
    {
        if valid {
            InitOutcome::Ready(Context { live: true })
        } else {
            flag.set = false;
            InitOutcome::ShutDown(InitError::interface_not_found())
        }
    }
}

impl Context {
    /// Whether the runtime that this token stands for is up.
    pub closed spec fn is_live(&self) -> bool {
        self.live
    }

    /// Whether the runtime that this token stands for is up.
    pub fn live(&self) -> (live: bool)
        ensures
            live == self.is_live(),
    {
        self.live
    }

    /// Shuts the runtime down. Repeated calls are safe.
    ///
    /// Returns whether the host has to call the native shutdown entry: it has
    /// on the first call, which also gives up the claim, and never again.
    pub fn shutdown(&mut self, flag: &mut InitFlag) -> (native_shutdown: bool)
        ensures
            shut_down(*old(self), *old(flag), *final(self), *final(flag), native_shutdown),
    {
        if self.live {
            self.live = false;
            flag.set = false;
            true
        } else {
            false
        }
    }

    /// Size of the buffer with which the host asks the runtime for its
    /// installation path; none, and no call, where the runtime is not up.
    pub fn runtime_path_request(&self) -> (capacity: Option<u32>)
        ensures
            capacity == (if self.is_live() {
                Some(RUNTIME_PATH_CAPACITY)
            } else {
                None
            }),
    {
        if self.live {
            Some(RUNTIME_PATH_CAPACITY)
        } else {
            None
        }
    }

    /// Reads the runtime's installation path from its reply: whether it
    /// `found` one, the size it `required`, and the `buffer` it was given.
    ///
    /// The path is absent where the runtime is not up, where it found none,
    /// where the buffer was too small for it, and where it is not UTF-8.
    pub fn get_runtime_path(&self, found: bool, required: u32, buffer: &[u8]) -> (path: Option<
        String,
    >)
        ensures
            path is Some <==> self.is_live() && found && required < buffer@.len() && valid_utf8(
                text_of(buffer@),
            ),
            path matches Some(text) ==> text@ == decode_utf8(text_of(buffer@)),
    {
        if !self.live {
            return None;
        }
        if found && (required as usize) < buffer.len() {
            decode(buffer)
        } else {
            None
        }
    }
}

} // verus!

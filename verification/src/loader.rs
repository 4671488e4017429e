//! Finding the runtime's interfaces.
//!
//! An interface is a table of functions that the runtime hands out by name and
//! version. A lookup is asked for through a live `Context`, keyed by a fixed
//! prefix and the versioned name; the host makes the native call; the reply is
//! trusted only if it is a table and the runtime reports no error with it.

use vstd::prelude::*;
use vstd::string::StringSliceAdditionalSpecFns;
use crate::error::{
    InitError,
    INIT_ERROR_INTERFACE_NOT_FOUND,
    INIT_ERROR_NONE,
    INIT_ERROR_NOT_INITIALIZED,
};
use crate::lifecycle::Context;
use crate::marshal::{has_nul, MarshaledString};

verus! {

/// The bytes of `FnTable:`, which precede the versioned name in a lookup key.
pub open spec fn magic() -> Seq<u8> {
    seq![70u8, 110u8, 84u8, 97u8, 98u8, 108u8, 101u8, 58u8]
}

/// A lookup that has been keyed and awaits the runtime's reply.
pub struct InterfaceQuery<'a> {
    key: MarshaledString,
    context: &'a Context,
}

/// A function table of the runtime, borrowed for as long as the `Context`
/// that it was found through. The table is never null, and that `Context` is
/// live while the borrow lasts.
pub struct FnTable<'a> {
    address: usize,
    context: &'a Context,
}

/// Keys a lookup of the interface `version_name`, such as `IVRSystem_022`.
///
/// Nothing is asked of a runtime that is not up, nor for a name that holds a
/// NUL: no interface has such a name.
pub fn load<'a>(context: &'a Context, version_name: &str) -> (r: Result<
    InterfaceQuery<'a>,
    InitError,
>)
    ensures
        r is Ok <==> context.is_live() && !has_nul(version_name.spec_bytes()),
        r matches Ok(query) ==> query.key() == magic() + version_name.spec_bytes()
            && query.owner() == *context,
        r matches Err(e) ==> e@ == (if context.is_live() {
            INIT_ERROR_INTERFACE_NOT_FOUND
        } else {
            INIT_ERROR_NOT_INITIALIZED
        }),
{
    if !context.live() {
        return Err(InitError::not_initialized());
    }
    let name = version_name.as_bytes();
    let mut key: Vec<u8> = Vec::new();
    key.push(70);
    key.push(110);
    key.push(84);
    key.push(97);
    key.push(98);
    key.push(108);
    key.push(101);
    key.push(58);
    assert(key@ == magic());
    let mut i: usize = 0;
    while i < name.len()
        invariant
            i <= name.len(),
            key@ == magic() + name@.take(i as int),
        decreases name.len() - i,
    {
        key.push(name[i]);
        assert(name@.take(i + 1) == name@.take(i as int).push(name@[i as int]));
        assert(magic() + name@.take(i as int).push(name@[i as int]) == (magic() + name@.take(
            i as int,
        )).push(name@[i as int]));
        i = i + 1;
    }
    assert(name@.take(i as int) == name@);
    proof {
        lemma_key_has_nul(name@);
    }
    match MarshaledString::from_bytes(key.as_slice()) {
        Ok(key) => Ok(InterfaceQuery { key, context }),
        Err(_) => Err(InitError::interface_not_found()),
    }
}

/// A lookup key holds a NUL exactly where the name does: the prefix has none.
pub proof fn lemma_key_has_nul(name: Seq<u8>)
    ensures
        has_nul(magic() + name) <==> has_nul(name),
{
    let key = magic() + name;
    if has_nul(name) {
        let i = choose|i: int| 0 <= i < name.len() && name[i] == 0;
        assert(key[8 + i] == 0);
    }
    if has_nul(key) {
        let i = choose|i: int| 0 <= i < key.len() && key[i] == 0;
        if i >= 8 {
            assert(name[i - 8] == 0);
        }
    }
}

impl<'a> InterfaceQuery<'a> {
    #[verifier::type_invariant]
    spec fn asked_of_live_runtime(&self) -> bool {
        self.context.is_live()
    }

    /// The text of the key: the prefix, then the versioned name.
    pub closed spec fn key(&self) -> Seq<u8> {
        self.key@
    }

    /// The `Context` that the lookup is asked through.
    pub closed spec fn owner(&self) -> Context {
        *self.context
    }

    /// The key to hand to the native lookup entry.
    pub fn lookup_key(&self) -> (key: &MarshaledString)
        ensures
            key@ == self.key(),
    {
        &self.key
    }

    /// Takes the runtime's reply: the `address` of the table, zero for a null
    /// pointer, and the error `code` that came with it.
    ///
    /// The table is taken only where it is not null and the code is "no
    /// error". The runtime may hand out a pointer together with an error: that
    /// pointer is dropped unseen.
    pub fn resolve(self, address: usize, code: u32) -> (r: Result<FnTable<'a>, InitError>)
        ensures
            r is Ok <==> code == INIT_ERROR_NONE && address != 0,
            r matches Ok(table) ==> table.address() == address && table.owner() == self.owner(),
            r matches Err(e) ==> e@ == INIT_ERROR_INTERFACE_NOT_FOUND,
    {
        proof {
            use_type_invariant(&self);
        }
        if code == INIT_ERROR_NONE && address != 0 {
            Ok(FnTable { address, context: self.context })
        } else {
            Err(InitError::interface_not_found())
        }
    }
}

impl<'a> FnTable<'a> {
    #[verifier::type_invariant]
    spec fn usable(&self) -> bool {
        self.address != 0 && self.context.is_live()
    }

    /// Where the table lies.
    pub closed spec fn address(&self) -> usize {
        self.address
    }

    /// The `Context` that the table was found through.
    pub closed spec fn owner(&self) -> Context {
        *self.context
    }

    /// Where the table lies: never zero.
    pub fn as_address(&self) -> (address: usize)
        ensures
            address == self.address(),
            address != 0,
    {
        proof {
            use_type_invariant(self);
        }
        self.address
    }

    /// The `Context` that the table is borrowed with. It is live, and stays so
    /// for as long as the table is held: shutting it down takes it whole.
    pub fn context(&self) -> (context: &'a Context)
        ensures
            *context == self.owner(),
            context.is_live(),
    {
        proof {
            use_type_invariant(self);
        }
        self.context
    }
}

/// The runtime's applications interface.
pub struct Applications<'a>(pub FnTable<'a>);

/// The runtime's chaperone interface.
pub struct Chaperone<'a>(pub FnTable<'a>);

/// The runtime's chaperone setup interface.
pub struct ChaperoneSetup<'a>(pub FnTable<'a>);

/// The runtime's compositor interface.
pub struct Compositor<'a>(pub FnTable<'a>);

/// The runtime's driver manager interface.
pub struct DriverManager<'a>(pub FnTable<'a>);

/// The runtime's extended display interface.
pub struct ExtendedDisplay<'a>(pub FnTable<'a>);

/// The runtime's input interface.
pub struct Input<'a>(pub FnTable<'a>);

/// The runtime's I/O buffer interface.
pub struct IOBuffer<'a>(pub FnTable<'a>);

/// The runtime's notifications interface.
pub struct Notifications<'a>(pub FnTable<'a>);

/// The runtime's overlay interface.
pub struct Overlay<'a>(pub FnTable<'a>);

/// The runtime's render models interface.
pub struct RenderModels<'a>(pub FnTable<'a>);

/// The runtime's resources interface.
pub struct Resources<'a>(pub FnTable<'a>);

/// The runtime's screenshots interface.
pub struct Screenshots<'a>(pub FnTable<'a>);

/// The runtime's settings interface.
pub struct Settings<'a>(pub FnTable<'a>);

/// The runtime's spatial anchors interface.
pub struct SpatialAnchors<'a>(pub FnTable<'a>);

/// The runtime's system interface.
pub struct System<'a>(pub FnTable<'a>);

/// The runtime's tracked camera interface.
pub struct TrackedCamera<'a>(pub FnTable<'a>);

impl Context {
    /// Takes what the lookup of the applications interface found.
    pub fn applications<'a>(&'a self, found: Result<FnTable<'a>, InitError>) -> (r: Result<
        Applications<'a>,
        InitError,
    >)
        ensures
            r == (match found {
                Ok(table) => Ok(Applications(table)),
                Err(e) => Err(e),
            }),
    {
        match found {
            Ok(table) => Ok(Applications(table)),
            Err(e) => Err(e),
        }
    }

    /// Takes what the lookup of the chaperone interface found.
    pub fn chaperone<'a>(&'a self, found: Result<FnTable<'a>, InitError>) -> (r: Result<
        Chaperone<'a>,
        InitError,
    >)
        ensures
            r == (match found {
                Ok(table) => Ok(Chaperone(table)),
                Err(e) => Err(e),
            }),
    {
        match found {
            Ok(table) => Ok(Chaperone(table)),
            Err(e) => Err(e),
        }
    }

    /// Takes what the lookup of the chaperone setup interface found.
    pub fn chaperone_setup<'a>(&'a self, found: Result<FnTable<'a>, InitError>) -> (r: Result<
        ChaperoneSetup<'a>,
        InitError,
    >)
        ensures
            r == (match found {
                Ok(table) => Ok(ChaperoneSetup(table)),
                Err(e) => Err(e),
            }),
    {
        match found {
            Ok(table) => Ok(ChaperoneSetup(table)),
            Err(e) => Err(e),
        }
    }

    /// Takes what the lookup of the compositor interface found.
    pub fn compositor<'a>(&'a self, found: Result<FnTable<'a>, InitError>) -> (r: Result<
        Compositor<'a>,
        InitError,
    >)
        ensures
            r == (match found {
                Ok(table) => Ok(Compositor(table)),
                Err(e) => Err(e),
            }),
    {
        match found {
            Ok(table) => Ok(Compositor(table)),
            Err(e) => Err(e),
        }
    }

    /// Takes what the lookup of the driver manager interface found.
    pub fn driver_manager<'a>(&'a self, found: Result<FnTable<'a>, InitError>) -> (r: Result<
        DriverManager<'a>,
        InitError,
    >)
        ensures
            r == (match found {
                Ok(table) => Ok(DriverManager(table)),
                Err(e) => Err(e),
            }),
    {
        match found {
            Ok(table) => Ok(DriverManager(table)),
            Err(e) => Err(e),
        }
    }

    /// Takes what the lookup of the extended display interface found.
    pub fn extended_display<'a>(&'a self, found: Result<FnTable<'a>, InitError>) -> (r: Result<
        ExtendedDisplay<'a>,
        InitError,
    >)
        ensures
            r == (match found {
                Ok(table) => Ok(ExtendedDisplay(table)),
                Err(e) => Err(e),
            }),
    {
        match found {
            Ok(table) => Ok(ExtendedDisplay(table)),
            Err(e) => Err(e),
        }
    }

    /// Takes what the lookup of the input interface found.
    pub fn input<'a>(&'a self, found: Result<FnTable<'a>, InitError>) -> (r: Result<
        Input<'a>,
        InitError,
    >)
        ensures
            r == (match found {
                Ok(table) => Ok(Input(table)),
                Err(e) => Err(e),
            }),
    {
        match found {
            Ok(table) => Ok(Input(table)),
            Err(e) => Err(e),
        }
    }

    /// Takes what the lookup of the I/O buffer interface found.
    pub fn io_buffer<'a>(&'a self, found: Result<FnTable<'a>, InitError>) -> (r: Result<
        IOBuffer<'a>,
        InitError,
    >)
        ensures
            r == (match found {
                Ok(table) => Ok(IOBuffer(table)),
                Err(e) => Err(e),
            }),
    {
        match found {
            Ok(table) => Ok(IOBuffer(table)),
            Err(e) => Err(e),
        }
    }

    /// Takes what the lookup of the notifications interface found.
    pub fn notifications<'a>(&'a self, found: Result<FnTable<'a>, InitError>) -> (r: Result<
        Notifications<'a>,
        InitError,
    >)
        ensures
            r == (match found {
                Ok(table) => Ok(Notifications(table)),
                Err(e) => Err(e),
            }),
    {
        match found {
            Ok(table) => Ok(Notifications(table)),
            Err(e) => Err(e),
        }
    }

    /// Takes what the lookup of the overlay interface found.
    pub fn overlay<'a>(&'a self, found: Result<FnTable<'a>, InitError>) -> (r: Result<
        Overlay<'a>,
        InitError,
    >)
        ensures
            r == (match found {
                Ok(table) => Ok(Overlay(table)),
                Err(e) => Err(e),
            }),
    {
        match found {
            Ok(table) => Ok(Overlay(table)),
            Err(e) => Err(e),
        }
    }

    /// Takes what the lookup of the render models interface found.
    pub fn render_models<'a>(&'a self, found: Result<FnTable<'a>, InitError>) -> (r: Result<
        RenderModels<'a>,
        InitError,
    >)
        ensures
            r == (match found {
                Ok(table) => Ok(RenderModels(table)),
                Err(e) => Err(e),
            }),
    {
        match found {
            Ok(table) => Ok(RenderModels(table)),
            Err(e) => Err(e),
        }
    }

    /// Takes what the lookup of the resources interface found.
    pub fn resources<'a>(&'a self, found: Result<FnTable<'a>, InitError>) -> (r: Result<
        Resources<'a>,
        InitError,
    >)
        ensures
            r == (match found {
                Ok(table) => Ok(Resources(table)),
                Err(e) => Err(e),
            }),
    {
        match found {
            Ok(table) => Ok(Resources(table)),
            Err(e) => Err(e),
        }
    }

    /// Takes what the lookup of the screenshots interface found.
    pub fn screenshots<'a>(&'a self, found: Result<FnTable<'a>, InitError>) -> (r: Result<
        Screenshots<'a>,
        InitError,
    >)
        ensures
            r == (match found {
                Ok(table) => Ok(Screenshots(table)),
                Err(e) => Err(e),
            }),
    {
        match found {
            Ok(table) => Ok(Screenshots(table)),
            Err(e) => Err(e),
        }
    }

    /// Takes what the lookup of the settings interface found.
    pub fn settings<'a>(&'a self, found: Result<FnTable<'a>, InitError>) -> (r: Result<
        Settings<'a>,
        InitError,
    >)
        ensures
            r == (match found {
                Ok(table) => Ok(Settings(table)),
                Err(e) => Err(e),
            }),
    {
        match found {
            Ok(table) => Ok(Settings(table)),
            Err(e) => Err(e),
        }
    }

    /// Takes what the lookup of the spatial anchors interface found.
    pub fn spatial_anchors<'a>(&'a self, found: Result<FnTable<'a>, InitError>) -> (r: Result<
        SpatialAnchors<'a>,
        InitError,
    >)
        ensures
            r == (match found {
                Ok(table) => Ok(SpatialAnchors(table)),
                Err(e) => Err(e),
            }),
    {
        match found {
            Ok(table) => Ok(SpatialAnchors(table)),
            Err(e) => Err(e),
        }
    }

    /// Takes what the lookup of the system interface found.
    pub fn system<'a>(&'a self, found: Result<FnTable<'a>, InitError>) -> (r: Result<
        System<'a>,
        InitError,
    >)
        ensures
            r == (match found {
                Ok(table) => Ok(System(table)),
                Err(e) => Err(e),
            }),
    {
        match found {
            Ok(table) => Ok(System(table)),
            Err(e) => Err(e),
        }
    }

    /// Takes what the lookup of the tracked camera interface found.
    pub fn tracked_camera<'a>(&'a self, found: Result<FnTable<'a>, InitError>) -> (r: Result<
        TrackedCamera<'a>,
        InitError,
    >)
        ensures
            r == (match found {
                Ok(table) => Ok(TrackedCamera(table)),
                Err(e) => Err(e),
            }),
    {
        match found {
            Ok(table) => Ok(TrackedCamera(table)),
            Err(e) => Err(e),
        }
    }
}

} // verus!

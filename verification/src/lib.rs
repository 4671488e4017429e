//! Verified core of a safe binding to the OpenVR runtime.
//!
//! The runtime is reached through a C interface that only a host program can
//! call. Everything that is decided around those calls is decided here: what is
//! handed to the runtime, in which order, and what each reply means. The host
//! performs the calls and passes the replies back.

pub mod applications;
pub mod button_id;
pub mod decimal;
pub mod error;
pub mod lifecycle;
pub mod loader;
pub mod marshal;
pub mod notifications;
pub mod overlay;
pub mod single_owner;
pub mod sys;

pub use error::InitError;
pub use lifecycle::{init, ApplicationType, Claim, Context, Eye, InitFlag, InitOutcome};
pub use loader::{
    Applications, Chaperone, ChaperoneSetup, Compositor, DriverManager, ExtendedDisplay, IOBuffer,
    Input, Notifications, Overlay, RenderModels, Resources, Screenshots, Settings, SpatialAnchors,
    System, TrackedCamera,
};
